use vstd::prelude::*;

verus! {

/// The ways an action or a command can fail; none of them ends the session.
#[derive(Debug, Clone, Copy, PartialEq, Eq, Structural)]
pub enum AppError {
    /// A scroll was asked for outside the detail view.
    NotInDetailView,
    /// The first word of a command names no command.
    CommandNotFound,
    /// A command that needs an argument was given none.
    MissingArgument,
    /// A command that takes no argument was given one.
    UnexpectedArgument,
    /// An argument that should be a number is not one.
    InvalidNumber,
    /// No table is open to act on.
    NoTable,
    /// The query engine rejected a query.
    Engine,
    /// A fixed-width text could not be read with the given widths.
    Read,
}

/// The text shown to the user for an error.
pub open spec fn message_text(e: AppError) -> Seq<char> {
    match e {
        AppError::NotInDetailView => "Not in detail view"@,
        AppError::CommandNotFound => "Command not found"@,
        AppError::MissingArgument => "The command needs an argument"@,
        AppError::UnexpectedArgument => "The command takes no argument"@,
        AppError::InvalidNumber => "Not a valid number"@,
        AppError::NoTable => "No table is open"@,
        AppError::Engine => "The query could not be run"@,
        AppError::Read => "The file could not be read with these widths"@,
    }
}

impl AppError {
    /// The text shown to the user for this error.
    pub fn message(&self) -> (r: &'static str)
        ensures
            r@ == message_text(*self),
    {
        match self {
            AppError::NotInDetailView => "Not in detail view",
            AppError::CommandNotFound => "Command not found",
            AppError::MissingArgument => "The command needs an argument",
            AppError::UnexpectedArgument => "The command takes no argument",
            AppError::InvalidNumber => "Not a valid number",
            AppError::NoTable => "No table is open",
            AppError::Engine => "The query could not be run",
            AppError::Read => "The file could not be read with these widths",
        }
    }
}

} // verus!
