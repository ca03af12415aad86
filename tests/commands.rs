use tabiew::action::AppAction;
use tabiew::command::CommandRegistry;
use tabiew::error::AppError;

#[test]
fn transform_commands_build_queries() {
    let r = CommandRegistry::new();
    assert_eq!(r.dispatch("select a, b"), Ok(AppAction::TableQuery("SELECT a, b FROM df".to_owned())));
    assert_eq!(r.dispatch("  order  a desc "), Ok(AppAction::TableQuery("SELECT * FROM df ORDER BY a desc".to_owned())));
    assert_eq!(r.dispatch("filter x > 1"), Ok(AppAction::TableQuery("SELECT * FROM df WHERE x > 1".to_owned())));
    assert_eq!(r.dispatch("query SELECT 1"), Ok(AppAction::TableQuery("SELECT 1".to_owned())));
}

#[test]
fn simple_commands() {
    let r = CommandRegistry::new();
    assert_eq!(r.dispatch("goto 12"), Ok(AppAction::TableGoto(12)));
    assert_eq!(r.dispatch("reset"), Ok(AppAction::TableReset));
    assert_eq!(r.dispatch("quit"), Ok(AppAction::Quit));
    assert_eq!(r.dispatch("schema"), Ok(AppAction::SwitchToSchema));
    assert_eq!(r.dispatch("random"), Ok(AppAction::TableGotoRandom));
}

#[test]
fn command_errors() {
    let r = CommandRegistry::new();
    assert_eq!(r.dispatch("jump 3"), Err(AppError::CommandNotFound));
    assert_eq!(r.dispatch(""), Err(AppError::CommandNotFound));
    assert_eq!(r.dispatch("goto"), Err(AppError::MissingArgument));
    assert_eq!(r.dispatch("goto x"), Err(AppError::InvalidNumber));
    assert_eq!(r.dispatch("reset now"), Err(AppError::UnexpectedArgument));
    assert_eq!(r.dispatch("select   "), Err(AppError::MissingArgument));
}
