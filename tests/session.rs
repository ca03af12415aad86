use polars::prelude::{DataFrame, IntoColumn, IntoLazy, NamedFrom, Series};
use polars::sql::SQLContext;
use tabiew::action::AppAction;
use tabiew::app::App;
use tabiew::command::{CommandRegistry, TABLE_NAME};
use tabiew::context::{Content, Context};
use tabiew::error::AppError;
use tabiew::history::History;
use tabiew::tabs::TabState;
use tabiew::tabular::Tabular;

fn numbers(n: usize) -> DataFrame {
    let values: Vec<i64> = (0..n as i64).collect();
    DataFrame::new(vec![Series::new("n".into(), values).into_column()]).unwrap()
}

fn session(rows: usize) -> App {
    let mut tabs = TabState::new();
    tabs.add(Tabular::new(numbers(rows)));
    App::new(tabs, History::new(10))
}

#[test]
fn select_clamps_and_window_follows() {
    let mut t = Tabular::new(numbers(10));
    t.fit_height(6);
    assert_eq!(t.page_len(), 5);
    t.select(7).unwrap();
    assert_eq!(t.selected(), 7);
    assert_eq!(t.visible_window(), (3, 5));
    t.select(100).unwrap();
    assert_eq!(t.selected(), 9);
    assert_eq!(t.visible_window(), (5, 5));
    t.select(1).unwrap();
    assert_eq!(t.visible_window(), (1, 5));
}

#[test]
fn relative_moves_saturate() {
    let mut t = Tabular::new(numbers(10));
    t.select(0).unwrap();
    t.select_up(5).unwrap();
    assert_eq!(t.selected(), 0);
    t.select_down(usize::MAX).unwrap();
    assert_eq!(t.selected(), 9);
    t.select_down(3).unwrap();
    assert_eq!(t.selected(), 9);
}

#[test]
fn empty_table_selects_row_zero() {
    let mut t = Tabular::new(numbers(0));
    t.select_last().unwrap();
    assert_eq!(t.selected(), 0);
    t.select_random().unwrap();
    assert_eq!(t.selected(), 0);
    t.select_down(4).unwrap();
    assert_eq!(t.selected(), 0);
}

#[test]
fn random_selection_stays_in_range() {
    let mut t = Tabular::new(numbers(3));
    for _ in 0..20 {
        t.select_random().unwrap();
        assert!(t.selected() < 3);
    }
}

#[test]
fn replacing_data_resets_viewport() {
    let mut t = Tabular::new(numbers(10));
    t.fit_height(4);
    t.select(8).unwrap();
    assert_ne!(t.visible_window().0, 0);
    t.set_data_frame(numbers(20)).unwrap();
    assert_eq!(t.selected(), 0);
    assert_eq!(t.visible_window(), (0, 3));
    assert_eq!(t.height(), 20);
}

#[test]
fn detail_view_scrolls_only_when_open() {
    let mut t = Tabular::new(numbers(2));
    assert_eq!(t.scroll_up(), Err(AppError::NotInDetailView));
    t.switch_view().unwrap();
    assert!(t.scroll().is_some());
    assert_eq!(t.scroll_down(), Ok(()));
    assert_eq!(t.scroll().unwrap().to_u16(), 0);
    t.switch_view().unwrap();
    assert!(t.scroll().is_none());
}

#[test]
fn last_then_full_page_up() {
    let mut app = session(10);
    let registry = CommandRegistry::new();
    app.tabs_mut().current_mut().fit_height(6);
    app.handle(AppAction::TableGotoLast, &registry).unwrap();
    assert_eq!(app.tabs().selected().unwrap().selected(), 9);
    app.handle(AppAction::TableGoUpFullPage, &registry).unwrap();
    assert_eq!(app.tabs().selected().unwrap().selected(), 4);
    app.handle(AppAction::TableGoUpHalfPage, &registry).unwrap();
    assert_eq!(app.tabs().selected().unwrap().selected(), 2);
}

#[test]
fn context_follows_state() {
    let mut app = App::new(TabState::new(), History::new(5));
    assert_eq!(app.context(), Context::Empty);
    let mut tabs = TabState::new();
    tabs.add(Tabular::new(numbers(3)));
    app = App::new(tabs, History::new(5));
    assert_eq!(app.context(), Context::Table);
    let registry = CommandRegistry::new();
    app.handle(AppAction::SheetShow, &registry).unwrap();
    assert_eq!(app.context(), Context::Sheet);
    app.handle(AppAction::SearchShow, &registry).unwrap();
    assert_eq!(app.context(), Context::Search);
    app.switch_schema();
    assert_eq!(app.context(), Context::Schema);
    assert_eq!(app.content(), &Content::Schema);
    app.show_palette("");
    assert_eq!(app.context(), Context::Command);
    app.error("boom");
    assert_eq!(app.context(), Context::Error);
    app.dismiss_error();
    assert_eq!(app.context(), Context::Command);
}

#[test]
fn palette_commit_runs_and_records() {
    let mut app = session(10);
    let registry = CommandRegistry::new();
    app.show_palette("goto 4");
    app.handle(AppAction::PalleteInsertSelectedOrCommit, &registry).unwrap();
    assert_eq!(app.tabs().selected().unwrap().selected(), 3);
    assert!(app.palette().is_none());
    assert_eq!(app.history().iter(), vec!["goto 4".to_owned()]);
}

#[test]
fn failed_command_is_not_recorded() {
    let mut app = session(10);
    let registry = CommandRegistry::new();
    app.show_palette("jump 4");
    assert_eq!(
        app.handle(AppAction::PalleteInsertSelectedOrCommit, &registry),
        Err(AppError::CommandNotFound)
    );
    assert_eq!(app.history().len(), 0);
}

#[test]
fn palette_editing_and_suggestions() {
    let mut app = session(10);
    let registry = CommandRegistry::new();
    app.history_mut().push("goto 2".to_owned());
    app.history_mut().push("reset".to_owned());
    app.handle(AppAction::PalleteShow(String::new()), &registry).unwrap();
    app.handle(AppAction::PalleteInsert('g'), &registry).unwrap();
    assert_eq!(app.palette_suggestions(), vec!["goto 2".to_owned()]);
    app.handle(AppAction::PalleteSelectNext, &registry).unwrap();
    app.handle(AppAction::PalleteInsertSelectedOrCommit, &registry).unwrap();
    assert_eq!(app.palette().as_ref().unwrap().value(), "goto 2");
    app.handle(AppAction::PalleteInsertSelectedOrCommit, &registry).unwrap();
    assert_eq!(app.tabs().selected().unwrap().selected(), 1);
}

fn answer_query(app: &mut App) {
    if let Some(query) = app.take_pending_query() {
        let df = app.tabs().selected().unwrap().data_frame().clone();
        let mut context = SQLContext::new();
        context.register(TABLE_NAME, df.lazy());
        let result = context.execute(&query).and_then(|f| f.collect()).ok();
        app.query_done(result);
    }
}

#[test]
fn query_replaces_table_and_reset_restores_it() {
    let mut app = session(10);
    let registry = CommandRegistry::new();
    app.handle(AppAction::TableGoto(6), &registry).unwrap();
    app.show_palette("filter n > 6");
    app.handle(AppAction::PalleteInsertSelectedOrCommit, &registry).unwrap();
    answer_query(&mut app);
    let tab = app.tabs().selected().unwrap();
    assert_eq!(tab.height(), 3);
    assert_eq!(tab.selected(), 0);
    app.handle(AppAction::TableReset, &registry).unwrap();
    assert_eq!(app.tabs().selected().unwrap().height(), 10);
    app.handle(AppAction::TableQuery("SELEC nonsense".to_owned()), &registry).unwrap();
    answer_query(&mut app);
    assert_eq!(app.context(), Context::Error);
    assert_eq!(app.error_message().as_deref(), Some("The query could not be run"));
}

#[test]
fn query_without_table_fails() {
    let mut app = App::new(TabState::new(), History::new(5));
    let registry = CommandRegistry::new();
    assert_eq!(app.handle(AppAction::TableQuery("SELECT 1".to_owned()), &registry), Err(AppError::NoTable));
    assert!(app.take_pending_query().is_none());
}

#[test]
fn detail_view_has_no_page() {
    let mut app = session(20);
    let registry = CommandRegistry::new();
    app.tabs_mut().current_mut().fit_height(6);
    app.handle(AppAction::TableGoto(10), &registry).unwrap();
    app.handle(AppAction::SheetShow, &registry).unwrap();
    app.tabs_mut().current_mut().adjust_scroll(3, 10);
    assert_eq!(app.tabs().selected().unwrap().page_len(), 0);
    app.handle(AppAction::TableGoDownFullPage, &registry).unwrap();
    assert_eq!(app.tabs().selected().unwrap().selected(), 9);
}

#[test]
fn search_keeps_matching_rows() {
    let mut app = session(12);
    let registry = CommandRegistry::new();
    app.handle(AppAction::SearchShow, &registry).unwrap();
    app.handle(AppAction::SearchInsert('1'), &registry).unwrap();
    app.handle(AppAction::SearchCommit, &registry).unwrap();
    // 1, 10, 11
    assert_eq!(app.tabs().selected().unwrap().height(), 3);
    assert_eq!(app.context(), Context::Table);
}

#[test]
fn quit_and_tabs() {
    let mut app = session(3);
    let registry = CommandRegistry::new();
    app.tabs_mut().add(Tabular::new(numbers(5)));
    assert_eq!(app.tabs().idx(), 1);
    app.handle(AppAction::TabPrev, &registry).unwrap();
    assert_eq!(app.tabs().idx(), 0);
    app.handle(AppAction::TabRemoveOrQuit, &registry).unwrap();
    assert_eq!(app.tabs().len(), 1);
    assert!(app.running());
    app.handle(AppAction::TabRemoveOrQuit, &registry).unwrap();
    assert!(!app.running());
}

#[test]
fn new_row_starts_detail_view_at_top() {
    let mut t = Tabular::new(numbers(5));
    t.detail_view().unwrap();
    t.adjust_scroll(30, 10);
    t.scroll_down().unwrap();
    t.scroll_down().unwrap();
    assert_eq!(t.scroll().unwrap().to_u16(), 2);
    t.select(0).unwrap();
    assert_eq!(t.scroll().unwrap().to_u16(), 2);
    t.select_down(1).unwrap();
    assert_eq!(t.scroll().unwrap().to_u16(), 0);
}

#[test]
fn actions_without_table_fail() {
    let mut app = App::new(TabState::new(), History::new(5));
    let registry = CommandRegistry::new();
    assert_eq!(app.handle(AppAction::TableGotoFirst, &registry), Err(AppError::NoTable));
    assert_eq!(app.handle(AppAction::NoAction, &registry), Ok(()));
}

#[test]
fn bad_argument_is_not_recorded() {
    let mut app = session(10);
    let registry = CommandRegistry::new();
    app.show_palette("goto many");
    assert_eq!(
        app.handle(AppAction::PalleteInsertSelectedOrCommit, &registry),
        Err(AppError::InvalidNumber)
    );
    assert_eq!(app.history().len(), 0);
    assert!(app.palette().is_none());
}

#[test]
fn row_texts_and_schema() {
    let df = DataFrame::new(vec![
        Series::new("id".into(), [1i64, 2, 3]).into_column(),
        Series::new("name".into(), ["a", "b", "c"]).into_column(),
    ])
    .unwrap();
    assert_eq!(tabiew::cells::row_texts(&df, 2), vec!["3", "c"]);
    assert!(tabiew::cells::row_texts(&df, 3).is_empty());
    let schema = tabiew::schema::table_schema(&df);
    assert_eq!(schema.len(), 2);
    assert_eq!(schema.fields[0].name, "id");
    assert_eq!(schema.fields[0].dtype, "i64");
    assert_eq!(schema.fields[0].null_count, 0);
    assert_eq!(schema.fields[0].min, "1");
    assert_eq!(schema.fields[0].max, "3");
}

#[test]
fn schema_offset_is_clamped() {
    assert_eq!(tabiew::schema::visible_offset(10, 12, 7), 7);
    assert_eq!(tabiew::schema::visible_offset(3, 12, 7), 3);
    assert_eq!(tabiew::schema::visible_offset(3, 2, 7), 0);
    assert_eq!(tabiew::schema::visible_offset(3, 4, 1), 3);
}

#[test]
fn failed_step_shows_error_context() {
    let mut app = session(3);
    let registry = CommandRegistry::new();
    assert!(!app.step(AppAction::SheetScrollUp, &registry));
    assert_eq!(app.context(), Context::Error);
    assert_eq!(app.error_message().as_deref(), Some("Not in detail view"));
    assert!(app.step(AppAction::DismissError, &registry));
    assert_eq!(app.context(), Context::Table);
}
