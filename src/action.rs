use vstd::prelude::*;

verus! {

/// A user-interface operation, as produced by a key binding or a typed command.
#[derive(Debug, Clone, PartialEq, Eq)]
pub enum AppAction {
    NoAction,
    // tabs and application lifecycle
    TabRemoveOrQuit,
    TabPrev,
    TabNext,
    Quit,
    SwitchToSchema,
    SwitchToTabular,
    ToggleBorders,
    // error popup
    DismissError,
    DismissErrorAndShowPallete,
    // table navigation and views
    SheetShow,
    SearchShow,
    TableToggleExpansion,
    TableGoUp(usize),
    TableGoDown(usize),
    TableScrollLeft,
    TableScrollRight,
    TableGoUpHalfPage,
    TableGoDownHalfPage,
    TableGoUpFullPage,
    TableGoDownFullPage,
    TableScrollStart,
    TableScrollEnd,
    TableGotoFirst,
    TableGotoLast,
    TableGotoRandom,
    /// Go to the row with this one-based number.
    TableGoto(usize),
    TableReset,
    /// Replace the active table by the result of this query.
    TableQuery(String),
    TableDismissModal,
    // detail sheet
    SheetScrollUp,
    SheetScrollDown,
    // command palette
    PalleteShow(String),
    PalleteGotoPrev,
    PalleteGotoNext,
    PalleteGotoStart,
    PalleteGotoEnd,
    PalleteDeletePrev,
    PalleteDeleteNext,
    PalleteSelectPrevious,
    PalleteSelectNext,
    PalleteInsert(char),
    PalleteInsertSelectedOrCommit,
    PalleteDeselectOrDismiss,
    // search bar
    SearchGotoPrev,
    SearchGotoNext,
    SearchGotoStart,
    SearchGotoEnd,
    SearchDeletePrev,
    SearchDeleteNext,
    SearchInsert(char),
    SearchCommit,
    SearchRollback,
}

impl AppAction {
    /// A copy of this action, field for field.
    pub fn duplicate(&self) -> (r: AppAction)
        ensures
            r == *self,
    {
        match self {
            AppAction::TableQuery(q) => AppAction::TableQuery(q.clone()),
            AppAction::PalleteShow(s) => AppAction::PalleteShow(s.clone()),
            AppAction::NoAction => AppAction::NoAction,
            AppAction::TabRemoveOrQuit => AppAction::TabRemoveOrQuit,
            AppAction::TabPrev => AppAction::TabPrev,
            AppAction::TabNext => AppAction::TabNext,
            AppAction::Quit => AppAction::Quit,
            AppAction::SwitchToSchema => AppAction::SwitchToSchema,
            AppAction::SwitchToTabular => AppAction::SwitchToTabular,
            AppAction::ToggleBorders => AppAction::ToggleBorders,
            AppAction::DismissError => AppAction::DismissError,
            AppAction::DismissErrorAndShowPallete => AppAction::DismissErrorAndShowPallete,
            AppAction::SheetShow => AppAction::SheetShow,
            AppAction::SearchShow => AppAction::SearchShow,
            AppAction::TableToggleExpansion => AppAction::TableToggleExpansion,
            AppAction::TableGoUp(n) => AppAction::TableGoUp(*n),
            AppAction::TableGoDown(n) => AppAction::TableGoDown(*n),
            AppAction::TableScrollLeft => AppAction::TableScrollLeft,
            AppAction::TableScrollRight => AppAction::TableScrollRight,
            AppAction::TableGoUpHalfPage => AppAction::TableGoUpHalfPage,
            AppAction::TableGoDownHalfPage => AppAction::TableGoDownHalfPage,
            AppAction::TableGoUpFullPage => AppAction::TableGoUpFullPage,
            AppAction::TableGoDownFullPage => AppAction::TableGoDownFullPage,
            AppAction::TableScrollStart => AppAction::TableScrollStart,
            AppAction::TableScrollEnd => AppAction::TableScrollEnd,
            AppAction::TableGotoFirst => AppAction::TableGotoFirst,
            AppAction::TableGotoLast => AppAction::TableGotoLast,
            AppAction::TableGotoRandom => AppAction::TableGotoRandom,
            AppAction::TableGoto(n) => AppAction::TableGoto(*n),
            AppAction::TableReset => AppAction::TableReset,
            AppAction::TableDismissModal => AppAction::TableDismissModal,
            AppAction::SheetScrollUp => AppAction::SheetScrollUp,
            AppAction::SheetScrollDown => AppAction::SheetScrollDown,
            AppAction::PalleteGotoPrev => AppAction::PalleteGotoPrev,
            AppAction::PalleteGotoNext => AppAction::PalleteGotoNext,
            AppAction::PalleteGotoStart => AppAction::PalleteGotoStart,
            AppAction::PalleteGotoEnd => AppAction::PalleteGotoEnd,
            AppAction::PalleteDeletePrev => AppAction::PalleteDeletePrev,
            AppAction::PalleteDeleteNext => AppAction::PalleteDeleteNext,
            AppAction::PalleteSelectPrevious => AppAction::PalleteSelectPrevious,
            AppAction::PalleteSelectNext => AppAction::PalleteSelectNext,
            AppAction::PalleteInsert(c) => AppAction::PalleteInsert(*c),
            AppAction::PalleteInsertSelectedOrCommit => AppAction::PalleteInsertSelectedOrCommit,
            AppAction::PalleteDeselectOrDismiss => AppAction::PalleteDeselectOrDismiss,
            AppAction::SearchGotoPrev => AppAction::SearchGotoPrev,
            AppAction::SearchGotoNext => AppAction::SearchGotoNext,
            AppAction::SearchGotoStart => AppAction::SearchGotoStart,
            AppAction::SearchGotoEnd => AppAction::SearchGotoEnd,
            AppAction::SearchDeletePrev => AppAction::SearchDeletePrev,
            AppAction::SearchDeleteNext => AppAction::SearchDeleteNext,
            AppAction::SearchInsert(c) => AppAction::SearchInsert(*c),
            AppAction::SearchCommit => AppAction::SearchCommit,
            AppAction::SearchRollback => AppAction::SearchRollback,
        }
    }
}

} // verus!
