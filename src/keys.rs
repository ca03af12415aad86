use vstd::prelude::*;
use vstd::string::StringExecFns;

use crate::action::AppAction;
use crate::context::{depth, lemma_parent_descends, parent_of, Context};
use crate::text::{is_upper, push_char, uppercase_char};

verus! {

/// Modifier bits of a key event.
pub const NO_MODIFIERS: u8 = 0;
pub const SHIFT: u8 = 1;
pub const CONTROL: u8 = 2;
pub const ALT: u8 = 4;
pub const SUPER: u8 = 8;
pub const HYPER: u8 = 16;
pub const META: u8 = 32;

/// The key that was pressed.
#[derive(Debug, Clone, Copy, PartialEq, Eq, Hash, Structural)]
pub enum KeyCode {
    Backspace,
    Enter,
    Left,
    Right,
    Up,
    Down,
    Home,
    End,
    PageUp,
    PageDown,
    Tab,
    BackTab,
    Delete,
    Insert,
    F(u8),
    Char(char),
    Null,
    Esc,
    CapsLock,
    ScrollLock,
    NumLock,
    PrintScreen,
    Pause,
    Menu,
    KeypadBegin,
    Media,
    Modifier,
}

/// A key press: the key and the set of modifier bits held with it.
#[derive(Debug, Clone, Copy, PartialEq, Eq, Hash, Structural)]
pub struct KeyEvent {
    pub code: KeyCode,
    pub modifiers: u8,
}

/// What a key binding yields when it matches.
#[derive(Debug, Clone, PartialEq, Eq)]
pub enum Binding {
    Direct(AppAction),
    /// Open the command palette with an empty input.
    ShowPalette,
}

/// The catch-all rule of a context, consulted when no binding matches.
#[derive(Debug, Clone, PartialEq, Eq)]
pub enum Fallback {
    Nothing,
    Always(AppAction),
    /// A digit from 1 to 9 opens the palette with `goto <digit>`.
    GotoDigit,
    /// Any character is typed into the command palette.
    PaletteInsert,
    /// Any character is typed into the search bar.
    SearchInsert,
}

/// The meaning of a key press in a context, before it is turned into an action value.
pub enum Outcome {
    Action(AppAction),
    /// Show the palette holding this text.
    Palette(Seq<char>),
}

#[derive(Debug)]
pub struct Keybind {
    pub code: KeyCode,
    pub modifiers: u8,
    pub action: Binding,
}

pub open spec fn key_matches(kb: Keybind, ev: KeyEvent) -> bool {
    kb.code == ev.code && kb.modifiers == ev.modifiers
}

/// Index of the first binding, at or after `i`, that matches the event.
pub open spec fn first_match_from(list: Seq<Keybind>, ev: KeyEvent, i: int) -> Option<int>
    decreases list.len() - i,
{
    if i < 0 || i >= list.len() {
        None
    } else if key_matches(list[i], ev) {
        Some(i)
    } else {
        first_match_from(list, ev, i + 1)
    }
}

pub open spec fn binding_outcome(b: Binding) -> Outcome {
    match b {
        Binding::Direct(a) => Outcome::Action(a),
        Binding::ShowPalette => Outcome::Palette(Seq::empty()),
    }
}

pub open spec fn fallback_outcome(fb: Fallback, ev: KeyEvent) -> Option<Outcome> {
    match fb {
        Fallback::Nothing => None,
        Fallback::Always(a) => Some(Outcome::Action(a)),
        Fallback::GotoDigit => match ev.code {
            KeyCode::Char(c) => if '1' <= c && c <= '9' {
                Some(Outcome::Palette("goto "@.push(c)))
            } else {
                None
            },
            _ => None,
        },
        Fallback::PaletteInsert => match ev.code {
            KeyCode::Char(c) => Some(Outcome::Action(AppAction::PalleteInsert(c))),
            _ => None,
        },
        Fallback::SearchInsert => match ev.code {
            KeyCode::Char(c) => Some(Outcome::Action(AppAction::SearchInsert(c))),
            _ => None,
        },
    }
}

/// `a` is the action value that stands for outcome `o`.
pub open spec fn produces(a: AppAction, o: Outcome) -> bool {
    match o {
        Outcome::Action(x) => a == x,
        Outcome::Palette(s) => a is PalleteShow && a->PalleteShow_0@ == s,
    }
}

impl Default for Keybind {
    fn default() -> (r: Keybind)
        ensures
            r == (Keybind {
                code: KeyCode::Null,
                modifiers: NO_MODIFIERS,
                action: Binding::Direct(AppAction::NoAction),
            }),
    {
        Keybind {
            code: KeyCode::Null,
            modifiers: NO_MODIFIERS,
            action: Binding::Direct(AppAction::NoAction),
        }
    }
}

impl Keybind {
    fn code(self, code: KeyCode) -> (r: Keybind)
        ensures
            r == (Keybind { code, ..self }),
    {
        Keybind { code, ..self }
    }

    /// Binds a character; an uppercase character also requires shift.
    fn char(self, c: char) -> (r: Keybind)
        ensures
            r.code == KeyCode::Char(c),
            r.action == self.action,
            r.modifiers == if uppercase_char(c) {
                self.modifiers | SHIFT
            } else {
                self.modifiers
            },
            (c as u32) < 128 ==> (uppercase_char(c) <==> ('A' <= c && c <= 'Z')),
            self.modifiers == 0 && uppercase_char(c) ==> r.modifiers == SHIFT,
    {
        let upper = is_upper(c);
        let modifiers = if upper {
            self.modifiers | SHIFT
        } else {
            self.modifiers
        };
        assert(0u8 | 1u8 == 1u8) by (bit_vector);
        Keybind { code: KeyCode::Char(c), modifiers, action: self.action }
    }

    fn shift(self) -> (r: Keybind)
        ensures
            r == (Keybind { modifiers: self.modifiers | SHIFT, ..self }),
            self.modifiers == 0 ==> r.modifiers == SHIFT,
    {
        assert(0u8 | 1u8 == 1u8) by (bit_vector);
        Keybind { modifiers: self.modifiers | SHIFT, ..self }
    }

    fn ctrl(self) -> (r: Keybind)
        ensures
            r == (Keybind { modifiers: self.modifiers | CONTROL, ..self }),
            self.modifiers == 0 ==> r.modifiers == CONTROL,
    {
        assert(0u8 | 2u8 == 2u8) by (bit_vector);
        Keybind { modifiers: self.modifiers | CONTROL, ..self }
    }

    fn action(self, action: Binding) -> (r: Keybind)
        ensures
            r == (Keybind { action, ..self }),
    {
        Keybind { action, ..self }
    }

    fn matches(&self, event: KeyEvent) -> (r: Option<AppAction>)
        ensures
            r is Some <==> key_matches(*self, event),
            r is Some ==> produces(r->0, binding_outcome(self.action)),
    {
        if self.code == event.code && self.modifiers == event.modifiers {
            Some(self.action.to_action())
        } else {
            None
        }
    }
}

impl Binding {
    fn to_action(&self) -> (r: AppAction)
        ensures
            produces(r, binding_outcome(*self)),
    {
        match self {
            Binding::Direct(a) => a.duplicate(),
            Binding::ShowPalette => AppAction::PalleteShow(String::new()),
        }
    }
}

impl Fallback {
    fn apply(&self, event: KeyEvent) -> (r: Option<AppAction>)
        ensures
            r is Some <==> fallback_outcome(*self, event) is Some,
            r is Some ==> produces(r->0, fallback_outcome(*self, event)->0),
    {
        match self {
            Fallback::Nothing => None,
            Fallback::Always(a) => Some(a.duplicate()),
            Fallback::GotoDigit => match event.code {
                KeyCode::Char(c) => {
                    if '1' <= c && c <= '9' {
                        let mut text = String::from_str("goto ");
                        push_char(&mut text, c);
                        Some(AppAction::PalleteShow(text))
                    } else {
                        None
                    }
                },
                _ => None,
            },
            Fallback::PaletteInsert => match event.code {
                KeyCode::Char(c) => Some(AppAction::PalleteInsert(c)),
                _ => None,
            },
            Fallback::SearchInsert => match event.code {
                KeyCode::Char(c) => Some(AppAction::SearchInsert(c)),
                _ => None,
            },
        }
    }
}

/// The bindings of one context, tried in order, then its fallback rule.
pub struct Keybinds {
    pub list: Vec<Keybind>,
    pub fall_back: Fallback,
}

/// What the bindings of one context alone make of an event.
pub open spec fn local_outcome(list: Seq<Keybind>, fb: Fallback, ev: KeyEvent) -> Option<Outcome> {
    match first_match_from(list, ev, 0) {
        Some(i) => Some(binding_outcome(list[i].action)),
        None => fallback_outcome(fb, ev),
    }
}

impl Keybinds {
    fn new() -> (r: Keybinds)
        ensures
            r.list@ == Seq::<Keybind>::empty(),
            r.fall_back == Fallback::Nothing,
    {
        Keybinds { list: Vec::new(), fall_back: Fallback::Nothing }
    }

    fn find(&self, event: KeyEvent) -> (r: Option<AppAction>)
        ensures
            r is Some <==> local_outcome(self.list@, self.fall_back, event) is Some,
            r is Some ==> produces(r->0, local_outcome(self.list@, self.fall_back, event)->0),
    {
        let mut i: usize = 0;
        while i < self.list.len()
            invariant
                i <= self.list.len(),
                first_match_from(self.list@, event, 0) == first_match_from(
                    self.list@,
                    event,
                    i as int,
                ),
            decreases self.list.len() - i,
        {
            let found = self.list[i].matches(event);
            if found.is_some() {
                return found;
            }
            i = i + 1;
        }
        self.fall_back.apply(event)
    }

    fn add(&mut self, kb: Keybind)
        ensures
            final(self).list@ == old(self).list@.push(kb),
            final(self).fall_back == old(self).fall_back,
    {
        self.list.push(kb);
    }

    fn fallback(&mut self, fb: Fallback)
        ensures
            final(self).list@ == old(self).list@,
            final(self).fall_back == fb,
    {
        self.fall_back = fb;
    }
}


pub open spec fn kb(code: KeyCode, modifiers: u8, action: AppAction) -> Keybind {
    Keybind { code, modifiers, action: Binding::Direct(action) }
}

/// The bindings that each context starts with, in the order they are tried.
pub open spec fn default_list(c: Context) -> Seq<Keybind> {
    match c {
        Context::Empty => seq![
            kb(KeyCode::Char('q'), NO_MODIFIERS, AppAction::TabRemoveOrQuit),
            kb(KeyCode::Char('H'), SHIFT, AppAction::TabPrev),
            kb(KeyCode::Char('L'), SHIFT, AppAction::TabNext),
            kb(KeyCode::Left, SHIFT, AppAction::TabPrev),
            kb(KeyCode::Right, SHIFT, AppAction::TabNext),
            Keybind { code: KeyCode::Char(':'), modifiers: NO_MODIFIERS, action: Binding::ShowPalette },
        ],
        Context::Error => seq![
            kb(KeyCode::Char(':'), NO_MODIFIERS, AppAction::DismissErrorAndShowPallete),
        ],
        Context::Table => seq![
            kb(KeyCode::Enter, NO_MODIFIERS, AppAction::SheetShow),
            kb(KeyCode::Char('/'), NO_MODIFIERS, AppAction::SearchShow),
            kb(KeyCode::Char('e'), NO_MODIFIERS, AppAction::TableToggleExpansion),
            kb(KeyCode::Up, NO_MODIFIERS, AppAction::TableGoUp(1)),
            kb(KeyCode::Down, NO_MODIFIERS, AppAction::TableGoDown(1)),
            kb(KeyCode::Left, NO_MODIFIERS, AppAction::TableScrollLeft),
            kb(KeyCode::Right, NO_MODIFIERS, AppAction::TableScrollRight),
            kb(KeyCode::Char('k'), NO_MODIFIERS, AppAction::TableGoUp(1)),
            kb(KeyCode::Char('j'), NO_MODIFIERS, AppAction::TableGoDown(1)),
            kb(KeyCode::Char('h'), NO_MODIFIERS, AppAction::TableScrollLeft),
            kb(KeyCode::Char('l'), NO_MODIFIERS, AppAction::TableScrollRight),
            kb(KeyCode::Char('u'), CONTROL, AppAction::TableGoUpHalfPage),
            kb(KeyCode::Char('d'), CONTROL, AppAction::TableGoDownHalfPage),
            kb(KeyCode::Char('b'), CONTROL, AppAction::TableGoUpFullPage),
            kb(KeyCode::Char('f'), CONTROL, AppAction::TableGoDownFullPage),
            kb(KeyCode::PageUp, NO_MODIFIERS, AppAction::TableGoUpFullPage),
            kb(KeyCode::PageDown, NO_MODIFIERS, AppAction::TableGoDownFullPage),
            kb(KeyCode::Char('_'), NO_MODIFIERS, AppAction::TableScrollStart),
            kb(KeyCode::Char('$'), NO_MODIFIERS, AppAction::TableScrollEnd),
            kb(KeyCode::Char('g'), NO_MODIFIERS, AppAction::TableGotoFirst),
            kb(KeyCode::Char('G'), SHIFT, AppAction::TableGotoLast),
            kb(KeyCode::Home, NO_MODIFIERS, AppAction::TableGotoFirst),
            kb(KeyCode::End, NO_MODIFIERS, AppAction::TableGotoLast),
            kb(KeyCode::Char('r'), CONTROL, AppAction::TableReset),
        ],
        Context::Command => seq![
            kb(KeyCode::Left, NO_MODIFIERS, AppAction::PalleteGotoPrev),
            kb(KeyCode::Right, NO_MODIFIERS, AppAction::PalleteGotoNext),
            kb(KeyCode::Home, NO_MODIFIERS, AppAction::PalleteGotoStart),
            kb(KeyCode::End, NO_MODIFIERS, AppAction::PalleteGotoEnd),
            kb(KeyCode::Backspace, NO_MODIFIERS, AppAction::PalleteDeletePrev),
            kb(KeyCode::Delete, NO_MODIFIERS, AppAction::PalleteDeleteNext),
            kb(KeyCode::Up, NO_MODIFIERS, AppAction::PalleteSelectPrevious),
            kb(KeyCode::Down, NO_MODIFIERS, AppAction::PalleteSelectNext),
            kb(KeyCode::Char('p'), CONTROL, AppAction::PalleteSelectPrevious),
            kb(KeyCode::Char('n'), CONTROL, AppAction::PalleteSelectNext),
            kb(KeyCode::Enter, NO_MODIFIERS, AppAction::PalleteInsertSelectedOrCommit),
            kb(KeyCode::Esc, NO_MODIFIERS, AppAction::PalleteDeselectOrDismiss),
        ],
        Context::Sheet => seq![
            kb(KeyCode::Char('q'), NO_MODIFIERS, AppAction::TableDismissModal),
            kb(KeyCode::Esc, NO_MODIFIERS, AppAction::TableDismissModal),
            kb(KeyCode::Up, SHIFT, AppAction::SheetScrollUp),
            kb(KeyCode::Down, SHIFT, AppAction::SheetScrollDown),
            kb(KeyCode::Char('K'), SHIFT, AppAction::SheetScrollUp),
            kb(KeyCode::Char('J'), SHIFT, AppAction::SheetScrollDown),
        ],
        Context::Search => seq![
            kb(KeyCode::Left, NO_MODIFIERS, AppAction::SearchGotoPrev),
            kb(KeyCode::Right, NO_MODIFIERS, AppAction::SearchGotoNext),
            kb(KeyCode::Home, NO_MODIFIERS, AppAction::SearchGotoStart),
            kb(KeyCode::End, NO_MODIFIERS, AppAction::SearchGotoEnd),
            kb(KeyCode::Backspace, NO_MODIFIERS, AppAction::SearchDeletePrev),
            kb(KeyCode::Delete, NO_MODIFIERS, AppAction::SearchDeleteNext),
            kb(KeyCode::Enter, NO_MODIFIERS, AppAction::SearchCommit),
            kb(KeyCode::Esc, NO_MODIFIERS, AppAction::SearchRollback),
        ],
        _ => Seq::empty(),
    }
}

/// The fallback rule that each context starts with.
pub open spec fn default_fallback(c: Context) -> Fallback {
    match c {
        Context::Error => Fallback::Always(AppAction::DismissError),
        Context::Table => Fallback::GotoDigit,
        Context::Command => Fallback::PaletteInsert,
        Context::Search => Fallback::SearchInsert,
        _ => Fallback::Nothing,
    }
}

/// Position of a context's bindings in the handler's table.
pub open spec fn context_index(c: Context) -> int {
    match c {
        Context::Empty => 0,
        Context::Table => 1,
        Context::Sheet => 2,
        Context::Command => 3,
        Context::Error => 4,
        Context::Search => 5,
        Context::Schema => 6,
        Context::TabSidePanel => 7,
        Context::DataFrameInfo => 8,
        Context::ScatterPlot => 9,
        Context::HistogramPlot => 10,
    }
}

fn index_of(c: Context) -> (r: usize)
    ensures
        r as int == context_index(c),
{
    match c {
        Context::Empty => 0,
        Context::Table => 1,
        Context::Sheet => 2,
        Context::Command => 3,
        Context::Error => 4,
        Context::Search => 5,
        Context::Schema => 6,
        Context::TabSidePanel => 7,
        Context::DataFrameInfo => 8,
        Context::ScatterPlot => 9,
        Context::HistogramPlot => 10,
    }
}

fn empty_keybinds() -> (r: Keybinds)
    ensures
        r.list@ == default_list(Context::Empty),
        r.fall_back == default_fallback(Context::Empty),
{
    let mut kbs = Keybinds::new();
    kbs.add(Keybind::default().char('q').action(Binding::Direct(AppAction::TabRemoveOrQuit)));
    kbs.add(Keybind::default().char('H').action(Binding::Direct(AppAction::TabPrev)));
    kbs.add(Keybind::default().char('L').action(Binding::Direct(AppAction::TabNext)));
    kbs.add(
        Keybind::default().code(KeyCode::Left).shift().action(Binding::Direct(AppAction::TabPrev)),
    );
    kbs.add(
        Keybind::default().code(KeyCode::Right).shift().action(Binding::Direct(AppAction::TabNext)),
    );
    kbs.add(Keybind::default().char(':').action(Binding::ShowPalette));
    kbs
}

fn error_keybinds() -> (r: Keybinds)
    ensures
        r.list@ == default_list(Context::Error),
        r.fall_back == default_fallback(Context::Error),
{
    let mut kbs = Keybinds::new();
    kbs.add(
        Keybind::default().char(':').action(Binding::Direct(AppAction::DismissErrorAndShowPallete)),
    );
    kbs.fallback(Fallback::Always(AppAction::DismissError));
    kbs
}

fn table_keybinds() -> (r: Keybinds)
    ensures
        r.list@ == default_list(Context::Table),
        r.fall_back == default_fallback(Context::Table),
{
    let mut kbs = Keybinds::new();
    kbs.add(Keybind::default().code(KeyCode::Enter).action(Binding::Direct(AppAction::SheetShow)));
    kbs.add(Keybind::default().char('/').action(Binding::Direct(AppAction::SearchShow)));
    kbs.add(Keybind::default().char('e').action(Binding::Direct(AppAction::TableToggleExpansion)));
    kbs.add(Keybind::default().code(KeyCode::Up).action(Binding::Direct(AppAction::TableGoUp(1))));
    kbs.add(
        Keybind::default().code(KeyCode::Down).action(Binding::Direct(AppAction::TableGoDown(1))),
    );
    kbs.add(
        Keybind::default().code(KeyCode::Left).action(Binding::Direct(AppAction::TableScrollLeft)),
    );
    kbs.add(
        Keybind::default().code(KeyCode::Right).action(Binding::Direct(AppAction::TableScrollRight)),
    );
    kbs.add(Keybind::default().char('k').action(Binding::Direct(AppAction::TableGoUp(1))));
    kbs.add(Keybind::default().char('j').action(Binding::Direct(AppAction::TableGoDown(1))));
    kbs.add(Keybind::default().char('h').action(Binding::Direct(AppAction::TableScrollLeft)));
    kbs.add(Keybind::default().char('l').action(Binding::Direct(AppAction::TableScrollRight)));
    kbs.add(
        Keybind::default().char('u').ctrl().action(Binding::Direct(AppAction::TableGoUpHalfPage)),
    );
    kbs.add(
        Keybind::default().char('d').ctrl().action(Binding::Direct(AppAction::TableGoDownHalfPage)),
    );
    kbs.add(
        Keybind::default().char('b').ctrl().action(Binding::Direct(AppAction::TableGoUpFullPage)),
    );
    kbs.add(
        Keybind::default().char('f').ctrl().action(Binding::Direct(AppAction::TableGoDownFullPage)),
    );
    kbs.add(
        Keybind::default().code(KeyCode::PageUp).action(Binding::Direct(AppAction::TableGoUpFullPage)),
    );
    kbs.add(
        Keybind::default().code(KeyCode::PageDown).action(Binding::Direct(AppAction::TableGoDownFullPage)),
    );
    kbs.add(Keybind::default().char('_').action(Binding::Direct(AppAction::TableScrollStart)));
    kbs.add(Keybind::default().char('$').action(Binding::Direct(AppAction::TableScrollEnd)));
    kbs.add(Keybind::default().char('g').action(Binding::Direct(AppAction::TableGotoFirst)));
    kbs.add(Keybind::default().char('G').action(Binding::Direct(AppAction::TableGotoLast)));
    kbs.add(
        Keybind::default().code(KeyCode::Home).action(Binding::Direct(AppAction::TableGotoFirst)),
    );
    kbs.add(
        Keybind::default().code(KeyCode::End).action(Binding::Direct(AppAction::TableGotoLast)),
    );
    kbs.add(
        Keybind::default().code(KeyCode::Char('r')).ctrl().action(Binding::Direct(AppAction::TableReset)),
    );
    kbs.fallback(Fallback::GotoDigit);
    kbs
}

fn command_keybinds() -> (r: Keybinds)
    ensures
        r.list@ == default_list(Context::Command),
        r.fall_back == default_fallback(Context::Command),
{
    let mut kbs = Keybinds::new();
    kbs.add(
        Keybind::default().code(KeyCode::Left).action(Binding::Direct(AppAction::PalleteGotoPrev)),
    );
    kbs.add(
        Keybind::default().code(KeyCode::Right).action(Binding::Direct(AppAction::PalleteGotoNext)),
    );
    kbs.add(
        Keybind::default().code(KeyCode::Home).action(Binding::Direct(AppAction::PalleteGotoStart)),
    );
    kbs.add(
        Keybind::default().code(KeyCode::End).action(Binding::Direct(AppAction::PalleteGotoEnd)),
    );
    kbs.add(
        Keybind::default().code(KeyCode::Backspace).action(Binding::Direct(AppAction::PalleteDeletePrev)),
    );
    kbs.add(
        Keybind::default().code(KeyCode::Delete).action(Binding::Direct(AppAction::PalleteDeleteNext)),
    );
    kbs.add(
        Keybind::default().code(KeyCode::Up).action(Binding::Direct(AppAction::PalleteSelectPrevious)),
    );
    kbs.add(
        Keybind::default().code(KeyCode::Down).action(Binding::Direct(AppAction::PalleteSelectNext)),
    );
    kbs.add(
        Keybind::default().code(KeyCode::Char('p')).ctrl().action(Binding::Direct(AppAction::PalleteSelectPrevious)),
    );
    kbs.add(
        Keybind::default().code(KeyCode::Char('n')).ctrl().action(Binding::Direct(AppAction::PalleteSelectNext)),
    );
    kbs.add(
        Keybind::default().code(KeyCode::Enter).action(Binding::Direct(AppAction::PalleteInsertSelectedOrCommit)),
    );
    kbs.add(
        Keybind::default().code(KeyCode::Esc).action(Binding::Direct(AppAction::PalleteDeselectOrDismiss)),
    );
    kbs.fallback(Fallback::PaletteInsert);
    kbs
}

fn sheet_keybinds() -> (r: Keybinds)
    ensures
        r.list@ == default_list(Context::Sheet),
        r.fall_back == default_fallback(Context::Sheet),
{
    let mut kbs = Keybinds::new();
    kbs.add(Keybind::default().char('q').action(Binding::Direct(AppAction::TableDismissModal)));
    kbs.add(
        Keybind::default().code(KeyCode::Esc).action(Binding::Direct(AppAction::TableDismissModal)),
    );
    kbs.add(
        Keybind::default().code(KeyCode::Up).shift().action(Binding::Direct(AppAction::SheetScrollUp)),
    );
    kbs.add(
        Keybind::default().code(KeyCode::Down).shift().action(Binding::Direct(AppAction::SheetScrollDown)),
    );
    kbs.add(Keybind::default().char('K').action(Binding::Direct(AppAction::SheetScrollUp)));
    kbs.add(Keybind::default().char('J').action(Binding::Direct(AppAction::SheetScrollDown)));
    kbs
}

fn search_keybinds() -> (r: Keybinds)
    ensures
        r.list@ == default_list(Context::Search),
        r.fall_back == default_fallback(Context::Search),
{
    let mut kbs = Keybinds::new();
    kbs.add(
        Keybind::default().code(KeyCode::Left).action(Binding::Direct(AppAction::SearchGotoPrev)),
    );
    kbs.add(
        Keybind::default().code(KeyCode::Right).action(Binding::Direct(AppAction::SearchGotoNext)),
    );
    kbs.add(
        Keybind::default().code(KeyCode::Home).action(Binding::Direct(AppAction::SearchGotoStart)),
    );
    kbs.add(
        Keybind::default().code(KeyCode::End).action(Binding::Direct(AppAction::SearchGotoEnd)),
    );
    kbs.add(
        Keybind::default().code(KeyCode::Backspace).action(Binding::Direct(AppAction::SearchDeletePrev)),
    );
    kbs.add(
        Keybind::default().code(KeyCode::Delete).action(Binding::Direct(AppAction::SearchDeleteNext)),
    );
    kbs.add(
        Keybind::default().code(KeyCode::Enter).action(Binding::Direct(AppAction::SearchCommit)),
    );
    kbs.add(
        Keybind::default().code(KeyCode::Esc).action(Binding::Direct(AppAction::SearchRollback)),
    );
    kbs.fallback(Fallback::SearchInsert);
    kbs
}

/// Maps key events to actions, context by context.
pub struct KeyHandler {
    map: Vec<Keybinds>,
}

impl KeyHandler {
    /// One entry of bindings for each context.
    pub closed spec fn wf(&self) -> bool {
        self.map@.len() == 11
    }

    pub closed spec fn binds(&self, c: Context) -> Seq<Keybind> {
        self.map@[context_index(c)].list@
    }

    pub closed spec fn fallback_of(&self, c: Context) -> Fallback {
        self.map@[context_index(c)].fall_back
    }
}

/// The meaning of an event in a context: the context's own bindings, then its
/// fallback rule, then the same in its parent, and no action past the root.
pub open spec fn resolve(h: KeyHandler, c: Context, ev: KeyEvent) -> Outcome
    decreases depth(c),
{
    match local_outcome(h.binds(c), h.fallback_of(c), ev) {
        Some(o) => o,
        None => match parent_of(c) {
            None => Outcome::Action(AppAction::NoAction),
            Some(p) => if depth(p) < depth(c) {
                resolve(h, p, ev)
            } else {
                Outcome::Action(AppAction::NoAction)
            },
        },
    }
}

/// Resolution is total: it reaches the root in at most two parent steps, and an
/// event unmapped all the way up means no action.
pub proof fn lemma_resolve_root(h: KeyHandler, c: Context, ev: KeyEvent)
    ensures
        local_outcome(h.binds(c), h.fallback_of(c), ev) is None && c == Context::Empty
            ==> resolve(h, c, ev) == Outcome::Action(AppAction::NoAction),
        local_outcome(h.binds(c), h.fallback_of(c), ev) is None && c != Context::Empty
            ==> resolve(h, c, ev) == resolve(h, parent_of(c)->0, ev),
{
    lemma_parent_descends(c);
}

impl KeyHandler {
    /// The action that `event` means in `context`.
    pub fn action(&self, context: Context, event: KeyEvent) -> (r: AppAction)
        requires
            self.wf(),
        ensures
            produces(r, resolve(*self, context, event)),
    {
        let mut ctx = context;
        loop
            invariant
                self.wf(),
                resolve(*self, ctx, event) == resolve(*self, context, event),
            decreases depth(ctx),
        {
            proof {
                lemma_parent_descends(ctx);
            }
            let idx = index_of(ctx);
            let found = self.map[idx].find(event);
            if let Some(act) = found {
                return act;
            } else {
                match ctx.parent() {
                    Some(parent) => {
                        ctx = parent;
                    },
                    None => {
                        return AppAction::NoAction;
                    },
                }
            }
        }
    }
}

impl Default for KeyHandler {
    /// The handler with each context's default bindings.
    fn default() -> (r: KeyHandler)
        ensures
            r.wf(),
            forall|c: Context| #[trigger] r.binds(c) == default_list(c),
            forall|c: Context| #[trigger] r.fallback_of(c) == default_fallback(c),
    {
        let mut map: Vec<Keybinds> = Vec::new();
        map.push(empty_keybinds());
        map.push(table_keybinds());
        map.push(sheet_keybinds());
        map.push(command_keybinds());
        map.push(error_keybinds());
        map.push(search_keybinds());
        map.push(Keybinds::new());
        map.push(Keybinds::new());
        map.push(Keybinds::new());
        map.push(Keybinds::new());
        map.push(Keybinds::new());
        let handler = KeyHandler { map };
        assert forall|c: Context|
            #[trigger] handler.binds(c) == default_list(c) && handler.fallback_of(c)
                == default_fallback(c) by {
            match c {
                Context::Empty => {},
                Context::Table => {},
                Context::Sheet => {},
                Context::Command => {},
                Context::Error => {},
                Context::Search => {},
                Context::Schema => {},
                Context::TabSidePanel => {},
                Context::DataFrameInfo => {},
                Context::ScatterPlot => {},
                Context::HistogramPlot => {},
            }
        }
        handler
    }
}

} // verus!
