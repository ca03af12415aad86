use tabiew::action::AppAction;
use tabiew::context::Context;
use tabiew::keys::{KeyCode, KeyEvent, KeyHandler, CONTROL, NO_MODIFIERS, SHIFT};

fn press(code: KeyCode, modifiers: u8) -> KeyEvent {
    KeyEvent { code, modifiers }
}

fn ch(c: char) -> KeyEvent {
    press(KeyCode::Char(c), NO_MODIFIERS)
}

#[test]
fn table_bindings_resolve() {
    let h = KeyHandler::default();
    assert_eq!(h.action(Context::Table, ch('j')), AppAction::TableGoDown(1));
    assert_eq!(h.action(Context::Table, ch('k')), AppAction::TableGoUp(1));
    assert_eq!(h.action(Context::Table, press(KeyCode::Enter, NO_MODIFIERS)), AppAction::SheetShow);
    assert_eq!(h.action(Context::Table, press(KeyCode::Char('G'), SHIFT)), AppAction::TableGotoLast);
    assert_eq!(h.action(Context::Table, press(KeyCode::Char('u'), CONTROL)), AppAction::TableGoUpHalfPage);
    assert_eq!(h.action(Context::Table, press(KeyCode::Char('r'), CONTROL)), AppAction::TableReset);
}

#[test]
fn first_binding_wins() {
    let h = KeyHandler::default();
    // ctrl-d is bound twice in the table context; the earlier binding applies
    assert_eq!(h.action(Context::Table, press(KeyCode::Char('d'), CONTROL)), AppAction::TableGoDownHalfPage);
    assert_eq!(h.action(Context::Table, press(KeyCode::Char('f'), CONTROL)), AppAction::TableGoDownFullPage);
}

#[test]
fn child_context_falls_back_to_parents() {
    let h = KeyHandler::default();
    // the sheet has no binding for 'j'; its parent, the table, has
    assert_eq!(h.action(Context::Sheet, ch('j')), AppAction::TableGoDown(1));
    // 'q' in the table context comes from the root
    assert_eq!(h.action(Context::Table, ch('q')), AppAction::TabRemoveOrQuit);
    // the sheet shadows 'q'
    assert_eq!(h.action(Context::Sheet, ch('q')), AppAction::TableDismissModal);
    assert_eq!(h.action(Context::Schema, press(KeyCode::Char('H'), SHIFT)), AppAction::TabPrev);
}

#[test]
fn unmapped_key_is_no_action() {
    let h = KeyHandler::default();
    assert_eq!(h.action(Context::Empty, ch('z')), AppAction::NoAction);
    assert_eq!(h.action(Context::Table, press(KeyCode::F(5), NO_MODIFIERS)), AppAction::NoAction);
    assert_eq!(h.action(Context::HistogramPlot, press(KeyCode::Tab, NO_MODIFIERS)), AppAction::NoAction);
}

#[test]
fn every_context_resolves_every_key() {
    let h = KeyHandler::default();
    let contexts = [
        Context::Empty,
        Context::Table,
        Context::Sheet,
        Context::Command,
        Context::Error,
        Context::Search,
        Context::Schema,
        Context::TabSidePanel,
        Context::DataFrameInfo,
        Context::ScatterPlot,
        Context::HistogramPlot,
    ];
    let codes = [
        KeyCode::Char('a'),
        KeyCode::Char('7'),
        KeyCode::Esc,
        KeyCode::Enter,
        KeyCode::Left,
        KeyCode::Null,
        KeyCode::F(1),
    ];
    for c in contexts {
        for code in codes {
            for m in [NO_MODIFIERS, SHIFT, CONTROL] {
                let _ = h.action(c, press(code, m));
            }
        }
    }
}

#[test]
fn digit_opens_goto_palette() {
    let h = KeyHandler::default();
    assert_eq!(h.action(Context::Table, ch('5')), AppAction::PalleteShow("goto 5".to_owned()));
    assert_eq!(h.action(Context::Table, ch('0')), AppAction::NoAction);
    assert_eq!(h.action(Context::Empty, ch(':')), AppAction::PalleteShow(String::new()));
}

#[test]
fn text_contexts_capture_characters() {
    let h = KeyHandler::default();
    assert_eq!(h.action(Context::Command, ch('q')), AppAction::PalleteInsert('q'));
    assert_eq!(h.action(Context::Search, ch('j')), AppAction::SearchInsert('j'));
    assert_eq!(h.action(Context::Search, press(KeyCode::Esc, NO_MODIFIERS)), AppAction::SearchRollback);
    assert_eq!(h.action(Context::Command, press(KeyCode::Char('p'), CONTROL)), AppAction::PalleteSelectPrevious);
}

#[test]
fn error_context_dismisses_on_any_key() {
    let h = KeyHandler::default();
    assert_eq!(h.action(Context::Error, ch('x')), AppAction::DismissError);
    assert_eq!(h.action(Context::Error, press(KeyCode::Esc, NO_MODIFIERS)), AppAction::DismissError);
    assert_eq!(h.action(Context::Error, ch(':')), AppAction::DismissErrorAndShowPallete);
}

#[test]
fn context_parents() {
    assert_eq!(Context::Empty.parent(), None);
    assert_eq!(Context::Sheet.parent(), Some(Context::Table));
    assert_eq!(Context::Search.parent(), Some(Context::Table));
    assert_eq!(Context::Table.parent(), Some(Context::Empty));
    assert_eq!(Context::ScatterPlot.parent(), Some(Context::Empty));
}
