use vstd::prelude::*;

use polars::frame::DataFrame;

use crate::action::AppAction;
use crate::command::{all_commands, command_parses, dispatched, CommandRegistry};
use crate::context::{Content, Context};
use crate::error::AppError;
use crate::frame::frame_rows;
use crate::history::{keep_last, texts, History};
use crate::input::{edited, TextEdit};
use crate::palette::{fuzzy_filter, suggestions, CommandPaletteState};
use crate::schema::SchemaState;
use crate::tabs::TabState;
use crate::tabular::{
    clamp_row, lemma_viewport_invariant, sat_sub, viewport_ok, Modal, ViewportState,
};

verus! {

/// The context that the state of the session puts it in: a pending error first,
/// then an open palette, the schema view, the tab list, and last the overlay of
/// the shown table.
pub open spec fn classify(
    error: bool,
    palette: bool,
    content: Content,
    side_panel: bool,
    modal: Option<Modal>,
) -> Context {
    if error {
        Context::Error
    } else if palette {
        Context::Command
    } else if content == Content::Schema {
        Context::Schema
    } else if side_panel {
        Context::TabSidePanel
    } else {
        match modal {
            Some(Modal::SearchBar(_)) => Context::Search,
            Some(Modal::Sheet(_)) => Context::Sheet,
            Some(Modal::Hidden) => Context::Table,
            Some(Modal::DataFrameInfo) => Context::DataFrameInfo,
            Some(Modal::ScatterPlot) => Context::ScatterPlot,
            Some(Modal::HistogramPlot) => Context::HistogramPlot,
            None => Context::Empty,
        }
    }
}

/// The whole interactive session.
pub struct App {
    tabs: TabState,
    schema: SchemaState,
    content: Content,
    error: Option<String>,
    palette: Option<CommandPaletteState>,
    history: History,
    borders: bool,
    running: bool,
    pending_query: Option<String>,
}

impl App {
    pub closed spec fn tabs_spec(&self) -> TabState {
        self.tabs
    }

    pub closed spec fn content_spec(&self) -> Content {
        self.content
    }

    pub closed spec fn error_spec(&self) -> Option<String> {
        self.error
    }

    pub closed spec fn palette_spec(&self) -> Option<CommandPaletteState> {
        self.palette
    }

    pub closed spec fn history_spec(&self) -> History {
        self.history
    }

    pub closed spec fn borders_spec(&self) -> bool {
        self.borders
    }

    pub closed spec fn running_spec(&self) -> bool {
        self.running
    }

    pub closed spec fn schema_spec(&self) -> SchemaState {
        self.schema
    }

    /// A query waiting for the query engine.
    pub closed spec fn pending_query_spec(&self) -> Option<String> {
        self.pending_query
    }

    pub open spec fn wf(&self) -> bool {
        &&& self.tabs_spec().wf()
        &&& self.history_spec().wf()
        &&& (self.palette_spec() is Some ==> self.palette_spec()->0.wf())
    }

    /// The context of the session, derived afresh from its state.
    pub open spec fn context_spec(&self) -> Context {
        classify(
            self.error_spec() is Some,
            self.palette_spec() is Some,
            self.content_spec(),
            self.tabs_spec().side_panel_spec() is Some,
            match self.tabs_spec().current() {
                Some(t) => Some(t.modal_spec()),
                None => None,
            },
        )
    }

    /// A running session over the given tabs, showing the tables.
    pub fn new(tabs: TabState, history: History) -> (r: App)
        ensures
            r.tabs_spec() == tabs,
            r.history_spec() == history,
            r.content_spec() == Content::Tabulars,
            r.error_spec() is None,
            r.palette_spec() is None,
            r.borders_spec(),
            r.running_spec(),
            r.schema_spec().offset_spec() == 0,
    {
        App {
            tabs,
            history,
            schema: SchemaState::new(),
            content: Content::Tabulars,
            error: None,
            palette: None,
            borders: true,
            running: true,
            pending_query: None,
        }
    }

    pub fn running(&self) -> (r: bool)
        ensures
            r == self.running_spec(),
    {
        self.running
    }

    pub fn borders(&self) -> (r: bool)
        ensures
            r == self.borders_spec(),
    {
        self.borders
    }

    pub fn tabs(&self) -> (r: &TabState)
        ensures
            *r == self.tabs_spec(),
    {
        &self.tabs
    }

    pub fn tabs_mut(&mut self) -> (r: &mut TabState)
        ensures
            *r == old(self).tabs_spec(),
            final(self).tabs_spec() == *final(r),
            final(self).content_spec() == old(self).content_spec(),
            final(self).error_spec() == old(self).error_spec(),
            final(self).palette_spec() == old(self).palette_spec(),
            final(self).history_spec() == old(self).history_spec(),
            final(self).running_spec() == old(self).running_spec(),
    {
        &mut self.tabs
    }

    pub fn schema(&self) -> (r: &SchemaState)
        ensures
            *r == self.schema_spec(),
    {
        &self.schema
    }

    pub fn schema_mut(&mut self) -> (r: &mut SchemaState)
        ensures
            *r == old(self).schema_spec(),
            final(self).schema_spec() == *final(r),
            final(self).tabs_spec() == old(self).tabs_spec(),
            final(self).content_spec() == old(self).content_spec(),
            final(self).error_spec() == old(self).error_spec(),
            final(self).palette_spec() == old(self).palette_spec(),
            final(self).history_spec() == old(self).history_spec(),
    {
        &mut self.schema
    }

    pub fn palette_mut(&mut self) -> (r: Option<&mut CommandPaletteState>)
        ensures
            r is Some <==> old(self).palette_spec() is Some,
            r is Some ==> *r->0 == old(self).palette_spec()->0,
            r is Some ==> final(self).palette_spec() == Some(*final(r->0)),
            r is None ==> final(self).palette_spec() is None,
            final(self).tabs_spec() == old(self).tabs_spec(),
            final(self).content_spec() == old(self).content_spec(),
            final(self).error_spec() == old(self).error_spec(),
            final(self).history_spec() == old(self).history_spec(),
    {
        self.palette.as_mut()
    }

    pub fn palette(&self) -> (r: &Option<CommandPaletteState>)
        ensures
            *r == self.palette_spec(),
    {
        &self.palette
    }

    pub fn history(&self) -> (r: &History)
        ensures
            *r == self.history_spec(),
    {
        &self.history
    }

    pub fn history_mut(&mut self) -> (r: &mut History)
        ensures
            *r == old(self).history_spec(),
            final(self).history_spec() == *final(r),
            final(self).tabs_spec() == old(self).tabs_spec(),
            final(self).content_spec() == old(self).content_spec(),
            final(self).error_spec() == old(self).error_spec(),
            final(self).palette_spec() == old(self).palette_spec(),
    {
        &mut self.history
    }

    pub fn content(&self) -> (r: &Content)
        ensures
            *r == self.content_spec(),
    {
        &self.content
    }

    /// Opens the command palette holding `cmd`.
    pub fn show_palette(&mut self, cmd: &str)
        ensures
            final(self).palette_spec() is Some,
            final(self).palette_spec()->0.wf(),
            final(self).palette_spec()->0.input_spec()@.text == cmd@,
            final(self).palette_spec()->0.selected_spec() is None,
            final(self).tabs_spec() == old(self).tabs_spec(),
            final(self).content_spec() == old(self).content_spec(),
            final(self).error_spec() == old(self).error_spec(),
            final(self).history_spec() == old(self).history_spec(),
            final(self).running_spec() == old(self).running_spec(),
            final(self).borders_spec() == old(self).borders_spec(),
            final(self).schema_spec() == old(self).schema_spec(),
            final(self).pending_query_spec() == old(self).pending_query_spec(),
    {
        self.palette = Some(CommandPaletteState::new(cmd));
    }

    /// Closes the palette and hands back what was typed in it.
    pub fn hide_palette(&mut self) -> (r: Option<String>)
        ensures
            final(self).palette_spec() is None,
            r is Some <==> old(self).palette_spec() is Some,
            r is Some ==> r->0@ == old(self).palette_spec()->0.input_spec()@.text,
            final(self).tabs_spec() == old(self).tabs_spec(),
            final(self).content_spec() == old(self).content_spec(),
            final(self).error_spec() == old(self).error_spec(),
            final(self).history_spec() == old(self).history_spec(),
            final(self).running_spec() == old(self).running_spec(),
            final(self).borders_spec() == old(self).borders_spec(),
            final(self).schema_spec() == old(self).schema_spec(),
            final(self).pending_query_spec() == old(self).pending_query_spec(),
    {
        let taken = self.palette.take();
        match taken {
            Some(palette) => Some(palette.value()),
            None => None,
        }
    }

    /// Shows an error; until it is dismissed the session is in the error context.
    pub fn error(&mut self, error: &str)
        ensures
            final(self).error_spec() is Some,
            final(self).error_spec()->0@ == error@,
            final(self).tabs_spec() == old(self).tabs_spec(),
            final(self).content_spec() == old(self).content_spec(),
            final(self).palette_spec() == old(self).palette_spec(),
            final(self).history_spec() == old(self).history_spec(),
            final(self).running_spec() == old(self).running_spec(),
            final(self).borders_spec() == old(self).borders_spec(),
            final(self).schema_spec() == old(self).schema_spec(),
            final(self).pending_query_spec() == old(self).pending_query_spec(),
    {
        self.error = Some(error.to_owned());
    }

    pub fn error_message(&self) -> (r: &Option<String>)
        ensures
            *r == self.error_spec(),
    {
        &self.error
    }

    pub fn dismiss_error(&mut self)
        ensures
            final(self).error_spec() is None,
            final(self).tabs_spec() == old(self).tabs_spec(),
            final(self).content_spec() == old(self).content_spec(),
            final(self).palette_spec() == old(self).palette_spec(),
            final(self).history_spec() == old(self).history_spec(),
            final(self).running_spec() == old(self).running_spec(),
            final(self).borders_spec() == old(self).borders_spec(),
            final(self).schema_spec() == old(self).schema_spec(),
            final(self).pending_query_spec() == old(self).pending_query_spec(),
    {
        self.error = None;
    }

    pub fn switch_schema(&mut self)
        ensures
            final(self).content_spec() == Content::Schema,
            final(self).tabs_spec() == old(self).tabs_spec(),
            final(self).error_spec() == old(self).error_spec(),
            final(self).palette_spec() == old(self).palette_spec(),
            final(self).history_spec() == old(self).history_spec(),
            final(self).running_spec() == old(self).running_spec(),
            final(self).borders_spec() == old(self).borders_spec(),
            final(self).schema_spec() == old(self).schema_spec(),
            final(self).pending_query_spec() == old(self).pending_query_spec(),
    {
        self.content = Content::Schema;
    }

    pub fn switch_tabular(&mut self)
        ensures
            final(self).content_spec() == Content::Tabulars,
            final(self).tabs_spec() == old(self).tabs_spec(),
            final(self).error_spec() == old(self).error_spec(),
            final(self).palette_spec() == old(self).palette_spec(),
            final(self).history_spec() == old(self).history_spec(),
            final(self).running_spec() == old(self).running_spec(),
            final(self).borders_spec() == old(self).borders_spec(),
            final(self).schema_spec() == old(self).schema_spec(),
            final(self).pending_query_spec() == old(self).pending_query_spec(),
    {
        self.content = Content::Tabulars;
    }

    pub fn toggle_borders(&mut self)
        ensures
            final(self).borders_spec() == !old(self).borders_spec(),
            final(self).tabs_spec() == old(self).tabs_spec(),
            final(self).content_spec() == old(self).content_spec(),
            final(self).error_spec() == old(self).error_spec(),
            final(self).palette_spec() == old(self).palette_spec(),
            final(self).history_spec() == old(self).history_spec(),
            final(self).running_spec() == old(self).running_spec(),
            final(self).schema_spec() == old(self).schema_spec(),
            final(self).pending_query_spec() == old(self).pending_query_spec(),
    {
        self.borders = !self.borders;
    }

    /// Handles a tick of the terminal; nothing in the session changes on it.
    pub fn tick(&mut self) -> (r: Result<(), crate::error::AppError>)
        ensures
            r is Ok,
            *final(self) == *old(self),
    {
        Ok(())
    }

    pub fn quit(&mut self)
        ensures
            !final(self).running_spec(),
            final(self).tabs_spec() == old(self).tabs_spec(),
            final(self).content_spec() == old(self).content_spec(),
            final(self).error_spec() == old(self).error_spec(),
            final(self).palette_spec() == old(self).palette_spec(),
            final(self).history_spec() == old(self).history_spec(),
            final(self).borders_spec() == old(self).borders_spec(),
            final(self).schema_spec() == old(self).schema_spec(),
            final(self).pending_query_spec() == old(self).pending_query_spec(),
    {
        self.running = false;
    }

    /// The context the session is in now.
    pub fn context(&self) -> (r: Context)
        requires
            self.wf(),
        ensures
            r == self.context_spec(),
    {
        if self.error.is_some() {
            Context::Error
        } else if self.palette.is_some() {
            Context::Command
        } else if let Content::Schema = self.content {
            Context::Schema
        } else if self.tabs.side_panel().is_some() {
            Context::TabSidePanel
        } else if let Some(modal) = self.tabs.selected_modal() {
            match modal {
                Modal::SearchBar(_) => Context::Search,
                Modal::Sheet(_) => Context::Sheet,
                Modal::Hidden => Context::Table,
                Modal::DataFrameInfo => Context::DataFrameInfo,
                Modal::ScatterPlot => Context::ScatterPlot,
                Modal::HistogramPlot => Context::HistogramPlot,
            }
        } else {
            Context::Empty
        }
    }
}

/// Actions that act on the shown table.
pub open spec fn table_action(a: AppAction) -> bool {
    a is TableGotoFirst || a is TableGotoLast || a is TableGoUpFullPage || a is TableGoDownFullPage
        || a is TableGoUpHalfPage || a is TableGoDownHalfPage || a is TableGoUp || a is TableGoDown
        || a is TableGoto || a is TableReset || a is SheetShow || a is TableDismissModal
        || a is SheetScrollUp || a is SheetScrollDown || a is SearchShow || a is SearchCommit
        || a is SearchRollback
}

/// Actions that only move the selection of the shown table.
pub open spec fn selection_move(a: AppAction) -> bool {
    a is TableGotoFirst || a is TableGotoLast || a is TableGoUpFullPage || a is TableGoDownFullPage
        || a is TableGoUpHalfPage || a is TableGoDownHalfPage || a is TableGoUp || a is TableGoDown
        || a is TableGoto
}

/// Where a move puts the selection of a table in viewport `v`.
pub open spec fn moved_to(v: ViewportState, a: AppAction) -> int {
    match a {
        AppAction::TableGotoFirst => 0,
        AppAction::TableGotoLast => usize::MAX as int,
        AppAction::TableGoUpFullPage => sat_sub(v.selected as int, v.visible_rows as int),
        AppAction::TableGoDownFullPage => (v.selected + v.visible_rows) as int,
        AppAction::TableGoUpHalfPage => sat_sub(v.selected as int, (v.visible_rows / 2) as int),
        AppAction::TableGoDownHalfPage => (v.selected + v.visible_rows / 2) as int,
        AppAction::TableGoUp(n) => sat_sub(v.selected as int, n as int),
        AppAction::TableGoDown(n) => (v.selected + n) as int,
        AppAction::TableGoto(n) => sat_sub(n as int, 1),
        _ => v.selected as int,
    }
}

/// What an action on the shown table does to it, when one is open.
pub open spec fn table_effect(before: App, after: App, a: AppAction) -> bool {
    before.tabs_spec().current() is Some ==> ({
        let (t0, t1) = (before.tabs_spec().current()->0, after.tabs_spec().current()->0);
        &&& after.tabs_spec().current() is Some
        &&& (selection_move(a) ==> {
            &&& t1@.total_rows == t0@.total_rows
            &&& t1@.visible_rows == t0@.visible_rows
            &&& (a is TableGotoLast && t0@.total_rows > 0 ==> t1@.selected == t0@.total_rows - 1)
            &&& (!(a is TableGotoLast) ==> t1@.selected == clamp_row(moved_to(t0@, a), t0@.total_rows))
        })
        &&& (a is TableReset ==> t1@.selected == 0 && t1@.offset == 0 && t1@.total_rows
            == t0.opened_rows())
        &&& (a is SheetShow ==> t1.modal_spec() is Sheet && t1@ == t0@)
        &&& (a is TableDismissModal ==> t1.modal_spec() is Hidden && t1@ == t0@)
        &&& (a is SheetScrollUp || a is SheetScrollDown ==> t1@ == t0@ && (t1.modal_spec() is Sheet
            <==> t0.modal_spec() is Sheet))
        &&& (a is SearchShow ==> t1.modal_spec() is SearchBar && t1.modal_spec()->SearchBar_0@.text.len()
            == 0 && t1@ == t0@)
        &&& (a is SearchRollback ==> t1.modal_spec() is Hidden && t1@ == t0@)
        &&& (a is SearchCommit && t0.modal_spec() is SearchBar ==> t1.modal_spec() is Hidden)
    })
}

/// The effect that an action a command can ask for has on the session.
pub open spec fn carried_out(before: App, after: App, a: AppAction) -> bool {
    &&& (a is Quit ==> !after.running_spec())
    &&& (a is SwitchToSchema ==> after.content_spec() == Content::Schema)
    &&& (a is SwitchToTabular ==> after.content_spec() == Content::Tabulars)
    &&& (a is ToggleBorders ==> after.borders_spec() == !before.borders_spec())
    &&& (a is TableQuery && before.tabs_spec().tabs_spec().len() > 0 ==> after.pending_query_spec()
        == Some(a->TableQuery_0))
    &&& (table_action(a) ==> table_effect(before, after, a))
}

/// Every open table of a well-formed session satisfies the viewport invariant;
/// `handle` keeps the session well formed, so this holds after any sequence of actions.
pub proof fn lemma_session_viewports(app: App, i: int)
    requires
        app.wf(),
        0 <= i < app.tabs_spec().tabs_spec().len(),
    ensures
        viewport_ok(app.tabs_spec().tabs_spec()[i]@),
{
    lemma_viewport_invariant(app.tabs_spec().tabs_spec()[i]);
}

/// How many of the most recent commands the palette suggests from.
pub const SUGGESTED_HISTORY: usize = 100;

impl App {
    /// Fails with `NoTable` when no table is open.
    fn require_table(&self) -> (r: Result<(), AppError>)
        ensures
            r is Ok <==> self.tabs_spec().tabs_spec().len() > 0,
            r is Err ==> r == Err::<(), AppError>(AppError::NoTable),
    {
        if self.tabs.is_empty() {
            Err(AppError::NoTable)
        } else {
            Ok(())
        }
    }

    /// Carries out an action that does not involve the command palette.
    fn perform(&mut self, action: AppAction) -> (r: Result<(), AppError>)
        requires
            old(self).wf(),
        ensures
            final(self).wf(),
            final(self).history_spec() == old(self).history_spec(),
            action is Quit ==> !final(self).running_spec(),
            action is DismissError ==> final(self).error_spec() is None,
            action is SwitchToSchema ==> final(self).content_spec() == Content::Schema,
            action is SwitchToTabular ==> final(self).content_spec() == Content::Tabulars,
            action is PalleteShow ==> final(self).palette_spec() is Some
                && final(self).palette_spec()->0.input_spec()@.text == action->PalleteShow_0@,
            action is TableQuery ==> (r is Ok <==> old(self).tabs_spec().tabs_spec().len() > 0),
            action is TableQuery && r is Ok ==> final(self).pending_query_spec() == Some(
                action->TableQuery_0,
            ),
            action is TabNext ==> final(self).tabs_spec().idx_spec() == if old(
                self,
            ).tabs_spec().idx_spec() + 1 < old(self).tabs_spec().tabs_spec().len() {
                old(self).tabs_spec().idx_spec() + 1
            } else {
                old(self).tabs_spec().idx_spec()
            },
            action is TabPrev ==> final(self).tabs_spec().idx_spec() == if old(
                self,
            ).tabs_spec().idx_spec() > 0 {
                (old(self).tabs_spec().idx_spec() - 1) as nat
            } else {
                0
            },
            table_action(action) ==> table_effect(*old(self), *final(self), action),
            carried_out(*old(self), *final(self), action),
    {
        match action {
            AppAction::Quit => {
                self.quit();
                Ok(())
            },
            AppAction::TabRemoveOrQuit => {
                if self.tabs.len() > 1 {
                    self.tabs.remove_selected();
                } else {
                    self.quit();
                }
                Ok(())
            },
            AppAction::TabPrev => {
                self.tabs.select_prev();
                Ok(())
            },
            AppAction::TabNext => {
                self.tabs.select_next();
                Ok(())
            },
            AppAction::SwitchToSchema => {
                self.switch_schema();
                Ok(())
            },
            AppAction::SwitchToTabular => {
                self.switch_tabular();
                Ok(())
            },
            AppAction::ToggleBorders => {
                self.toggle_borders();
                Ok(())
            },
            AppAction::DismissError => {
                self.dismiss_error();
                Ok(())
            },
            AppAction::DismissErrorAndShowPallete => {
                self.dismiss_error();
                self.show_palette("");
                Ok(())
            },
            AppAction::PalleteShow(text) => {
                self.show_palette(text.as_str());
                Ok(())
            },
            AppAction::TableQuery(q) => {
                self.require_table()?;
                self.pending_query = Some(q);
                Ok(())
            },
            AppAction::NoAction | AppAction::TableScrollLeft | AppAction::TableScrollRight
            | AppAction::TableScrollStart | AppAction::TableScrollEnd
            | AppAction::TableToggleExpansion => Ok(()),
            _ => self.perform_on_table(action),
        }
    }

    /// Carries out an action on the shown table.
    fn perform_on_table(&mut self, action: AppAction) -> (r: Result<(), AppError>)
        requires
            old(self).wf(),
        ensures
            final(self).wf(),
            final(self).history_spec() == old(self).history_spec(),
            final(self).running_spec() == old(self).running_spec(),
            table_action(action) ==> table_effect(*old(self), *final(self), action),
    {
        self.require_table()?;
        let tab = self.tabs.current_mut();
        match action {
            AppAction::TableGoUp(n) => tab.select_up(n),
            AppAction::TableGoDown(n) => tab.select_down(n),
            AppAction::TableGoUpHalfPage => {
                let half = tab.page_len() / 2;
                tab.select_up(half)
            },
            AppAction::TableGoDownHalfPage => {
                let half = tab.page_len() / 2;
                tab.select_down(half)
            },
            AppAction::TableGoUpFullPage => {
                let page = tab.page_len();
                tab.select_up(page)
            },
            AppAction::TableGoDownFullPage => {
                let page = tab.page_len();
                tab.select_down(page)
            },
            AppAction::TableGotoFirst => tab.select_first(),
            AppAction::TableGotoLast => tab.select_last(),
            AppAction::TableGotoRandom => tab.select_random(),
            AppAction::TableGoto(n) => tab.select(if n > 0 { n - 1 } else { 0 }),
            AppAction::TableReset => tab.reset(),
            AppAction::SheetShow => tab.detail_view(),
            AppAction::TableDismissModal => tab.table_view(),
            AppAction::SheetScrollUp => tab.scroll_up(),
            AppAction::SheetScrollDown => tab.scroll_down(),
            AppAction::SearchShow => {
                tab.search_view();
                Ok(())
            },
            AppAction::SearchInsert(c) => {
                tab.edit_search(TextEdit::Insert(c));
                Ok(())
            },
            AppAction::SearchDeletePrev => {
                tab.edit_search(TextEdit::DeletePrev);
                Ok(())
            },
            AppAction::SearchDeleteNext => {
                tab.edit_search(TextEdit::DeleteNext);
                Ok(())
            },
            AppAction::SearchGotoPrev => {
                tab.edit_search(TextEdit::GotoPrev);
                Ok(())
            },
            AppAction::SearchGotoNext => {
                tab.edit_search(TextEdit::GotoNext);
                Ok(())
            },
            AppAction::SearchGotoStart => {
                tab.edit_search(TextEdit::GotoStart);
                Ok(())
            },
            AppAction::SearchGotoEnd => {
                tab.edit_search(TextEdit::GotoEnd);
                Ok(())
            },
            AppAction::SearchCommit => tab.commit_search(),
            AppAction::SearchRollback => tab.table_view(),
            _ => Ok(()),
        }
    }

    /// The suggestions the palette offers for what is typed in it.
    pub fn palette_suggestions(&self) -> (r: Vec<String>)
        ensures
            self.palette_spec() is None ==> r@.len() == 0,
            self.palette_spec() is Some ==> texts(r@) == fuzzy_filter(
                self.history_spec().entries().reverse().take(
                    if SUGGESTED_HISTORY < self.history_spec().entries().len() {
                        SUGGESTED_HISTORY as int
                    } else {
                        self.history_spec().entries().len() as int
                    },
                ),
                self.palette_spec()->0.input_spec()@.text,
            ),
    {
        match &self.palette {
            Some(palette) => {
                let text = palette.value();
                let recent = self.history.recent(SUGGESTED_HISTORY);
                suggestions(&recent, text.as_str())
            },
            None => Vec::new(),
        }
    }

    /// Edits the text of the open palette.
    fn edit_palette(&mut self, e: TextEdit)
        requires
            old(self).wf(),
        ensures
            final(self).wf(),
            final(self).history_spec() == old(self).history_spec(),
            final(self).running_spec() == old(self).running_spec(),
            final(self).palette_spec() is Some <==> old(self).palette_spec() is Some,
            old(self).palette_spec() is Some ==> final(self).palette_spec()->0.input_spec()@
                == edited(old(self).palette_spec()->0.input_spec()@, e),
            old(self).palette_spec() is Some ==> final(self).palette_spec()->0.selected_spec()
                == old(self).palette_spec()->0.selected_spec(),
    {
        if let Some(palette) = self.palette.as_mut() {
            palette.input().apply(e);
        }
    }

    /// Commits the palette: its text is dispatched as a command; a command that
    /// parses enters the history and is carried out, one that does not is not kept.
    pub fn commit_palette(&mut self, registry: &CommandRegistry) -> (r: Result<(), AppError>)
        requires
            old(self).wf(),
            registry.commands_spec() == all_commands(),
        ensures
            final(self).wf(),
            final(self).palette_spec() is None,
            old(self).palette_spec() is None ==> r is Ok && final(self).history_spec()
                == old(self).history_spec(),
            old(self).palette_spec() is Some ==> ({
                let text = old(self).palette_spec()->0.input_spec()@.text;
                &&& (command_parses(text) ==> final(self).history_spec().entries() == keep_last(
                    old(self).history_spec().entries().push(text),
                    old(self).history_spec().capacity_spec(),
                ))
                &&& (!command_parses(text) ==> r is Err && final(self).history_spec()
                    == old(self).history_spec())
                &&& (command_parses(text) ==> exists|a: AppAction|
                    dispatched(text, Ok::<AppAction, AppError>(a)) && carried_out(
                        *old(self),
                        *final(self),
                        a,
                    ))
            }),
    {
        match self.hide_palette() {
            None => Ok(()),
            Some(text) => {
                let ghost line = text@;
                let action = registry.dispatch(text.as_str())?;
                let ghost a = action;
                assert(dispatched(line, Ok::<AppAction, AppError>(a)));
                self.history.push(text);
                let ghost mid = *self;
                let r = self.perform(action);
                self.palette = None;
                assert(carried_out(mid, *self, a));
                assert(mid.tabs_spec() == old(self).tabs_spec());
                assert(mid.borders_spec() == old(self).borders_spec());
                assert(carried_out(*old(self), *self, a));
                r
            },
        }
    }

    /// Carries out one action; a failure is not fatal: it is shown as an error,
    /// which puts the session in the error context until it is dismissed.
    /// Returns whether the action succeeded.
    pub fn step(&mut self, action: AppAction, registry: &CommandRegistry) -> (r: bool)
        requires
            old(self).wf(),
            registry.commands_spec() == all_commands(),
        ensures
            final(self).wf(),
            action is Quit ==> !final(self).running_spec(),
            !r ==> final(self).error_spec() is Some,
            !r ==> final(self).context_spec() == Context::Error,
    {
        match self.handle(action, registry) {
            Ok(()) => true,
            Err(e) => {
                self.error(e.message());
                false
            },
        }
    }

    /// Hands the waiting query, if any, to whoever runs the query engine.
    pub fn take_pending_query(&mut self) -> (r: Option<String>)
        ensures
            r == old(self).pending_query_spec(),
            final(self).pending_query_spec() is None,
            final(self).tabs_spec() == old(self).tabs_spec(),
            final(self).palette_spec() == old(self).palette_spec(),
            final(self).error_spec() == old(self).error_spec(),
            final(self).history_spec() == old(self).history_spec(),
            final(self).content_spec() == old(self).content_spec(),
            final(self).running_spec() == old(self).running_spec(),
    {
        self.pending_query.take()
    }

    /// Takes the query engine's answer: a result replaces the shown table's
    /// data, which resets its viewport; a rejection is shown as an error.
    pub fn query_done(&mut self, result: Option<DataFrame>)
        requires
            old(self).wf(),
        ensures
            final(self).wf(),
            result is None ==> final(self).error_spec() is Some,
            result is Some && old(self).tabs_spec().tabs_spec().len() > 0 ==> ({
                let t = final(self).tabs_spec().current()->0;
                &&& final(self).tabs_spec().current() is Some
                &&& t.frame_spec() == result->0
                &&& t@.selected == 0
                &&& t@.offset == 0
                &&& t@.total_rows == frame_rows(result->0)
            }),
    {
        match result {
            Some(df) => {
                if !self.tabs.is_empty() {
                    let _ = self.tabs.current_mut().set_data_frame(df);
                }
            },
            None => self.error(AppError::Engine.message()),
        }
    }

    /// Carries out one action on the session.
    pub fn handle(&mut self, action: AppAction, registry: &CommandRegistry) -> (r: Result<
        (),
        AppError,
    >)
        requires
            old(self).wf(),
            registry.commands_spec() == all_commands(),
        ensures
            final(self).wf(),
            action is Quit ==> !final(self).running_spec(),
            action is DismissError ==> final(self).error_spec() is None,
            action is SwitchToSchema ==> final(self).content_spec() == Content::Schema,
            action is SwitchToTabular ==> final(self).content_spec() == Content::Tabulars,
            action is PalleteShow ==> final(self).palette_spec() is Some
                && final(self).palette_spec()->0.input_spec()@.text == action->PalleteShow_0@,
            table_action(action) ==> table_effect(*old(self), *final(self), action),
            action is PalleteInsert && old(self).palette_spec() is Some
                ==> final(self).palette_spec()->0.input_spec()@ == edited(
                old(self).palette_spec()->0.input_spec()@,
                TextEdit::Insert(action->PalleteInsert_0),
            ),
            action is PalleteDeletePrev && old(self).palette_spec() is Some
                ==> final(self).palette_spec()->0.input_spec()@ == edited(
                old(self).palette_spec()->0.input_spec()@,
                TextEdit::DeletePrev,
            ),
    {
        match action {
            AppAction::PalleteInsert(c) => {
                self.edit_palette(TextEdit::Insert(c));
                Ok(())
            },
            AppAction::PalleteDeletePrev => {
                self.edit_palette(TextEdit::DeletePrev);
                Ok(())
            },
            AppAction::PalleteDeleteNext => {
                self.edit_palette(TextEdit::DeleteNext);
                Ok(())
            },
            AppAction::PalleteGotoPrev => {
                self.edit_palette(TextEdit::GotoPrev);
                Ok(())
            },
            AppAction::PalleteGotoNext => {
                self.edit_palette(TextEdit::GotoNext);
                Ok(())
            },
            AppAction::PalleteGotoStart => {
                self.edit_palette(TextEdit::GotoStart);
                Ok(())
            },
            AppAction::PalleteGotoEnd => {
                self.edit_palette(TextEdit::GotoEnd);
                Ok(())
            },
            AppAction::PalleteSelectPrevious => {
                if let Some(palette) = self.palette.as_mut() {
                    palette.select_previous();
                }
                Ok(())
            },
            AppAction::PalleteSelectNext => {
                let count = self.palette_suggestions().len();
                if let Some(palette) = self.palette.as_mut() {
                    palette.select_next(count);
                }
                Ok(())
            },
            AppAction::PalleteDeselectOrDismiss => {
                let selected = match &self.palette {
                    Some(palette) => palette.selected().is_some(),
                    None => false,
                };
                if selected {
                    if let Some(palette) = self.palette.as_mut() {
                        palette.deselect();
                    }
                } else {
                    self.hide_palette();
                }
                Ok(())
            },
            AppAction::PalleteInsertSelectedOrCommit => {
                let chosen = match &self.palette {
                    Some(palette) => palette.selected(),
                    None => None,
                };
                match chosen {
                    Some(i) => {
                        let options = self.palette_suggestions();
                        if let Some(palette) = self.palette.as_mut() {
                            if i < options.len() {
                                palette.set_input(options[i].as_str());
                            } else {
                                palette.deselect();
                            }
                        }
                        Ok(())
                    },
                    None => self.commit_palette(registry),
                }
            },
            _ => self.perform(action),
        }
    }
}

} // verus!
