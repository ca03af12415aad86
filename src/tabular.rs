use vstd::prelude::*;

use polars::frame::DataFrame;
use rand::Rng;

use crate::cells::{
    column_views, frame_cells, frame_reads_as, matching_rows, rows_matching, CellValue, TuiWidths,
};
use crate::error::AppError;
use crate::frame::{frame_column_names, frame_copy, frame_height, frame_rows, frame_values, take_rows};
use crate::input::{edited, InputState, TextEdit};
use crate::scroll::{max_offset, Scroll};

verus! {

/// The overlay shown on top of a table, if any.
pub enum Modal {
    Hidden,
    /// The detail view of the selected row, with its scroll position.
    Sheet(Scroll),
    /// The search bar, with the text typed so far.
    SearchBar(InputState),
    DataFrameInfo,
    ScatterPlot,
    HistogramPlot,
}

/// Selection and visible window over the rows of a table.
pub struct ViewportState {
    pub selected: nat,
    pub offset: nat,
    pub visible_rows: nat,
    pub total_rows: nat,
}

/// The selection is a row of the table (or 0 when it has none) and the window shows it.
pub open spec fn viewport_ok(v: ViewportState) -> bool {
    &&& (v.total_rows == 0 ==> v.selected == 0)
    &&& (v.total_rows > 0 ==> v.selected < v.total_rows)
    &&& v.offset <= v.selected
    &&& (v.visible_rows > 0 ==> v.selected <= v.offset + v.visible_rows - 1)
}

/// `i` brought into the rows of a table of `total` rows.
pub open spec fn clamp_row(i: int, total: nat) -> nat {
    if total == 0 || i <= 0 {
        0
    } else if i < total {
        i as nat
    } else {
        (total - 1) as nat
    }
}

/// The window's first row after it is moved just enough to show `selected`.
pub open spec fn follow(offset: nat, selected: nat, visible_rows: nat) -> nat {
    if selected < offset {
        selected
    } else if visible_rows == 0 {
        selected
    } else if selected >= offset + visible_rows {
        (selected - visible_rows + 1) as nat
    } else {
        offset
    }
}

/// The overlay after the selection moved: a detail view of a new row starts
/// at its top; otherwise the overlay stays as it was.
pub open spec fn overlay_after_move(before: Modal, after: Modal, row_changed: bool) -> bool {
    if before is Sheet && row_changed {
        after is Sheet && after->Sheet_0.wf() && after->Sheet_0.line_offset() == 0
    } else {
        after == before
    }
}

/// `a - b`, or 0 where that is negative.
pub open spec fn sat_sub(a: int, b: int) -> int {
    if a > b {
        a - b
    } else {
        0
    }
}

/// Relies on `rand::Rng::gen_range` over `0..n` with the thread-local generator.
#[verifier::external_body]
fn random_below(n: usize) -> (r: usize)
    requires
        n > 0,
    ensures
        r < n,
{
    rand::thread_rng().gen_range(0..n)
}

/// One open table: its data, the viewport over its rows and its overlay.
pub struct Tabular {
    offset: usize,
    select: usize,
    rendered_rows: u16,
    height: usize,
    widths: Vec<usize>,
    headers: Vec<String>,
    data_frame: DataFrame,
    opened_with: DataFrame,
    modal: Modal,
}

impl View for Tabular {
    type V = ViewportState;

    closed spec fn view(&self) -> ViewportState {
        ViewportState {
            selected: self.select as nat,
            offset: self.offset as nat,
            visible_rows: self.rendered_rows as nat,
            total_rows: self.height as nat,
        }
    }
}

impl Tabular {
    pub closed spec fn modal_spec(&self) -> Modal {
        self.modal
    }

    /// The data the table shows.
    pub closed spec fn frame_spec(&self) -> DataFrame {
        self.data_frame
    }

    /// The number of rows of the data the table was opened with.
    pub closed spec fn opened_rows(&self) -> nat {
        frame_rows(self.opened_with)
    }

    /// The viewport invariant, and a well-formed overlay.
    pub closed spec fn wf(&self) -> bool {
        &&& viewport_ok(self@)
        &&& self.height == frame_rows(self.data_frame)
        &&& (self.modal is Sheet ==> self.modal->Sheet_0.wf())
        &&& (self.modal is SearchBar ==> self.modal->SearchBar_0.wf())
    }

    /// A table over `data_frame`, with the first row selected.
    pub fn new(data_frame: DataFrame) -> (r: Tabular)
        ensures
            r.wf(),
            viewport_ok(r@),
            r@.selected == 0,
            r@.offset == 0,
            r@.visible_rows == 0,
            r@.total_rows == frame_rows(data_frame),
            r.frame_spec() == data_frame,
            r.opened_rows() == frame_rows(data_frame),
            r.modal_spec() is Hidden,
    {
        let height = frame_height(&data_frame);
        let headers = frame_column_names(&data_frame);
        let opened_with = frame_copy(&data_frame);
        let widths = data_frame.tui_widths();
        Tabular {
            opened_with,
            widths,
            offset: 0,
            select: 0,
            rendered_rows: 0,
            height,
            headers,
            data_frame,
            modal: Modal::Hidden,
        }
    }

    /// Handles a tick of the terminal; a table has nothing to do on it.
    pub fn tick(&mut self)
        ensures
            final(self)@ == old(self)@,
            final(self).modal_spec() == old(self).modal_spec(),
    {
    }

    /// Moves the window just enough to show the selected row.
    pub fn adjust_offset(&mut self)
        ensures
            final(self)@ == (ViewportState {
                offset: follow(old(self)@.offset, old(self)@.selected, old(self)@.visible_rows),
                ..old(self)@
            }),
            final(self).modal_spec() == old(self).modal_spec(),
            final(self).frame_spec() == old(self).frame_spec(),
            final(self).opened_rows() == old(self).opened_rows(),
    {
        let rows = self.rendered_rows as usize;
        let low = if rows > 0 && self.select >= rows - 1 {
            self.select - (rows - 1)
        } else if rows > 0 {
            0
        } else {
            self.select
        };
        if self.offset > self.select {
            self.offset = self.select;
        } else if self.offset < low {
            self.offset = low;
        }
    }

    /// Selects row `select`, or the nearest row of the table, and shows it.
    pub fn select(&mut self, select: usize) -> (r: Result<(), AppError>)
        requires
            old(self).wf(),
        ensures
            r is Ok,
            final(self).wf(),
            viewport_ok(final(self)@),
            final(self)@.selected == clamp_row(select as int, old(self)@.total_rows),
            final(self)@.offset == follow(
                old(self)@.offset,
                clamp_row(select as int, old(self)@.total_rows),
                old(self)@.visible_rows,
            ),
            final(self)@.visible_rows == old(self)@.visible_rows,
            final(self)@.total_rows == old(self)@.total_rows,
            overlay_after_move(
                old(self).modal_spec(),
                final(self).modal_spec(),
                old(self)@.selected != final(self)@.selected,
            ),
    {
        let last = if self.height > 0 {
            self.height - 1
        } else {
            0
        };
        let previous = self.select;
        self.select = if select < last {
            select
        } else {
            last
        };
        if self.select != previous {
            if let Modal::Sheet(_) = &self.modal {
                self.modal = Modal::Sheet(Scroll::new());
            }
        }
        self.adjust_offset();
        Ok(())
    }

    /// Moves the selection up by `len` rows, stopping at the first.
    pub fn select_up(&mut self, len: usize) -> (r: Result<(), AppError>)
        requires
            old(self).wf(),
        ensures
            r is Ok,
            final(self).wf(),
            viewport_ok(final(self)@),
            final(self)@.selected == clamp_row(
                sat_sub(old(self)@.selected as int, len as int),
                old(self)@.total_rows,
            ),
            final(self)@.offset == follow(
                old(self)@.offset,
                final(self)@.selected,
                old(self)@.visible_rows,
            ),
            final(self)@.visible_rows == old(self)@.visible_rows,
            final(self)@.total_rows == old(self)@.total_rows,
            overlay_after_move(
                old(self).modal_spec(),
                final(self).modal_spec(),
                old(self)@.selected != final(self)@.selected,
            ),
    {
        let target = if self.select > len {
            self.select - len
        } else {
            0
        };
        self.select(target)
    }

    /// Moves the selection down by `len` rows, stopping at the last.
    pub fn select_down(&mut self, len: usize) -> (r: Result<(), AppError>)
        requires
            old(self).wf(),
        ensures
            r is Ok,
            final(self).wf(),
            viewport_ok(final(self)@),
            final(self)@.selected == clamp_row(
                old(self)@.selected + len,
                old(self)@.total_rows,
            ),
            final(self)@.offset == follow(
                old(self)@.offset,
                final(self)@.selected,
                old(self)@.visible_rows,
            ),
            final(self)@.visible_rows == old(self)@.visible_rows,
            final(self)@.total_rows == old(self)@.total_rows,
            overlay_after_move(
                old(self).modal_spec(),
                final(self).modal_spec(),
                old(self)@.selected != final(self)@.selected,
            ),
    {
        let target = if self.select <= usize::MAX - len {
            self.select + len
        } else {
            usize::MAX
        };
        self.select(target)
    }

    pub fn select_first(&mut self) -> (r: Result<(), AppError>)
        requires
            old(self).wf(),
        ensures
            r is Ok,
            final(self).wf(),
            viewport_ok(final(self)@),
            final(self)@.selected == 0,
            final(self)@.offset == 0,
            final(self)@.visible_rows == old(self)@.visible_rows,
            final(self)@.total_rows == old(self)@.total_rows,
            overlay_after_move(
                old(self).modal_spec(),
                final(self).modal_spec(),
                old(self)@.selected != final(self)@.selected,
            ),
    {
        self.select(0)
    }

    pub fn select_last(&mut self) -> (r: Result<(), AppError>)
        requires
            old(self).wf(),
        ensures
            r is Ok,
            final(self).wf(),
            viewport_ok(final(self)@),
            final(self)@.selected == clamp_row(usize::MAX as int, old(self)@.total_rows),
            old(self)@.total_rows > 0 ==> final(self)@.selected == old(self)@.total_rows - 1,
            final(self)@.offset == follow(
                old(self)@.offset,
                final(self)@.selected,
                old(self)@.visible_rows,
            ),
            final(self)@.visible_rows == old(self)@.visible_rows,
            final(self)@.total_rows == old(self)@.total_rows,
            overlay_after_move(
                old(self).modal_spec(),
                final(self).modal_spec(),
                old(self)@.selected != final(self)@.selected,
            ),
    {
        self.select(usize::MAX)
    }

    /// Selects a row drawn uniformly from the table's rows.
    pub fn select_random(&mut self) -> (r: Result<(), AppError>)
        requires
            old(self).wf(),
        ensures
            r is Ok,
            final(self).wf(),
            viewport_ok(final(self)@),
            final(self)@.offset == follow(
                old(self)@.offset,
                final(self)@.selected,
                old(self)@.visible_rows,
            ),
            final(self)@.visible_rows == old(self)@.visible_rows,
            final(self)@.total_rows == old(self)@.total_rows,
            overlay_after_move(
                old(self).modal_spec(),
                final(self).modal_spec(),
                old(self)@.selected != final(self)@.selected,
            ),
    {
        if self.height > 0 {
            let row = random_below(self.height);
            self.select(row)
        } else {
            self.select(0)
        }
    }

    /// Scrolls the detail view up by a line.
    pub fn scroll_up(&mut self) -> (r: Result<(), AppError>)
        requires
            old(self).wf(),
        ensures
            final(self).wf(),
            final(self)@ == old(self)@,
            r is Ok <==> old(self).modal_spec() is Sheet,
            r is Err ==> r == Err::<(), AppError>(AppError::NotInDetailView),
            r is Err ==> final(self).modal_spec() == old(self).modal_spec(),
            r is Ok ==> final(self).modal_spec() is Sheet,
            r is Ok ==> final(self).modal_spec()->Sheet_0.line_offset() == sat_sub(
                old(self).modal_spec()->Sheet_0.line_offset() as int,
                1,
            ),
            final(self).frame_spec() == old(self).frame_spec(),
            final(self).opened_rows() == old(self).opened_rows(),
    {
        if let Modal::Sheet(scroll) = &mut self.modal {
            scroll.up();
            Ok(())
        } else {
            Err(AppError::NotInDetailView)
        }
    }

    /// Scrolls the detail view down by a line.
    pub fn scroll_down(&mut self) -> (r: Result<(), AppError>)
        requires
            old(self).wf(),
        ensures
            final(self).wf(),
            final(self)@ == old(self)@,
            r is Ok <==> old(self).modal_spec() is Sheet,
            r is Err ==> r == Err::<(), AppError>(AppError::NotInDetailView),
            r is Err ==> final(self).modal_spec() == old(self).modal_spec(),
            r is Ok ==> final(self).modal_spec() is Sheet,
            r is Ok ==> ({
                let (s0, s1) = (old(self).modal_spec()->Sheet_0, final(self).modal_spec()->Sheet_0);
                s1.line_offset() == if s0.line_offset() < max_offset(
                    s0.total_lines(),
                    s0.viewport_height(),
                ) {
                    s0.line_offset() + 1
                } else {
                    s0.line_offset()
                }
            }),
            final(self).frame_spec() == old(self).frame_spec(),
            final(self).opened_rows() == old(self).opened_rows(),
    {
        if let Modal::Sheet(scroll) = &mut self.modal {
            scroll.down();
            Ok(())
        } else {
            Err(AppError::NotInDetailView)
        }
    }

    /// Rows that a page holds: the rows drawn last time.
    pub fn page_len(&self) -> (r: usize)
        ensures
            r == self@.visible_rows,
    {
        self.rendered_rows as usize
    }

    /// Fits the viewport to a drawing area `area_height` rows high, one of which
    /// holds the header, and shows the selected row in it.
    pub fn fit_height(&mut self, area_height: u16)
        requires
            old(self).wf(),
        ensures
            final(self).wf(),
            viewport_ok(final(self)@),
            final(self)@.visible_rows == sat_sub(area_height as int, 1),
            final(self)@.selected == old(self)@.selected,
            final(self)@.total_rows == old(self)@.total_rows,
            final(self)@.offset == follow(
                old(self)@.offset,
                old(self)@.selected,
                sat_sub(area_height as int, 1) as nat,
            ),
            final(self).modal_spec() == old(self).modal_spec(),
    {
        self.rendered_rows = if area_height > 0 {
            area_height - 1
        } else {
            0
        };
        self.adjust_offset();
    }

    /// The rows on screen: the first one and how many there are.
    pub fn visible_window(&self) -> (r: (usize, usize))
        requires
            self.wf(),
        ensures
            r.0 == self@.offset,
            r.1 == if self@.total_rows <= self@.offset {
                0
            } else if self@.total_rows - self@.offset < self@.visible_rows {
                (self@.total_rows - self@.offset) as nat
            } else {
                self@.visible_rows
            },
    {
        let rows = self.rendered_rows as usize;
        let count = if self.height <= self.offset {
            0
        } else if self.height - self.offset < rows {
            self.height - self.offset
        } else {
            rows
        };
        (self.offset, count)
    }

    /// Toggles between the table and the detail view of the selected row.
    pub fn switch_view(&mut self) -> (r: Result<(), AppError>)
        requires
            old(self).wf(),
        ensures
            r is Ok,
            final(self).wf(),
            final(self)@ == old(self)@,
            old(self).modal_spec() is Sheet ==> final(self).modal_spec() is Hidden,
            !(old(self).modal_spec() is Sheet) ==> final(self).modal_spec() is Sheet
                && final(self).modal_spec()->Sheet_0.line_offset() == 0,
    {
        if let Modal::Sheet(_) = &self.modal {
            self.table_view()
        } else {
            self.detail_view()
        }
    }

    /// Opens the detail view of the selected row, scrolled to its top.
    pub fn detail_view(&mut self) -> (r: Result<(), AppError>)
        requires
            old(self).wf(),
        ensures
            r is Ok,
            final(self).wf(),
            final(self)@ == old(self)@,
            final(self).modal_spec() is Sheet,
            final(self).modal_spec()->Sheet_0.line_offset() == 0,
    {
        self.modal = Modal::Sheet(Scroll::new());
        Ok(())
    }

    /// Closes any overlay and shows the table.
    pub fn table_view(&mut self) -> (r: Result<(), AppError>)
        requires
            old(self).wf(),
        ensures
            r is Ok,
            final(self).wf(),
            final(self)@ == old(self)@,
            final(self).modal_spec() is Hidden,
    {
        self.modal = Modal::Hidden;
        Ok(())
    }

    /// Opens the search bar with an empty query.
    pub fn search_view(&mut self)
        requires
            old(self).wf(),
        ensures
            final(self).wf(),
            final(self)@ == old(self)@,
            final(self).modal_spec() is SearchBar,
            final(self).modal_spec()->SearchBar_0@.text.len() == 0,
    {
        self.modal = Modal::SearchBar(InputState::new(""));
        proof { reveal_strlit(""); }
    }

    /// Replaces the data; the selection and the window go back to the first row.
    pub fn set_data_frame(&mut self, data_frame: DataFrame) -> (r: Result<(), AppError>)
        requires
            old(self).wf(),
        ensures
            r is Ok,
            final(self).wf(),
            viewport_ok(final(self)@),
            final(self)@.selected == 0,
            final(self)@.offset == 0,
            final(self)@.visible_rows == old(self)@.visible_rows,
            final(self)@.total_rows == frame_rows(data_frame),
            final(self).frame_spec() == data_frame,
            final(self).opened_rows() == old(self).opened_rows(),
            final(self).modal_spec() == old(self).modal_spec(),
    {
        self.height = frame_height(&data_frame);
        self.headers = frame_column_names(&data_frame);
        self.widths = data_frame.tui_widths();
        self.offset = 0;
        self.select = 0;
        self.data_frame = data_frame;
        Ok(())
    }

    /// Goes back to the data the table was opened with.
    pub fn reset(&mut self) -> (r: Result<(), AppError>)
        requires
            old(self).wf(),
        ensures
            r is Ok,
            final(self).wf(),
            final(self)@.selected == 0,
            final(self)@.offset == 0,
            final(self)@.visible_rows == old(self)@.visible_rows,
            final(self)@.total_rows == old(self).opened_rows(),
            final(self).opened_rows() == old(self).opened_rows(),
            final(self).modal_spec() == old(self).modal_spec(),
    {
        let first = frame_copy(&self.opened_with);
        self.set_data_frame(first)
    }

    /// Edits the query of the open search bar; without one, nothing changes.
    pub fn edit_search(&mut self, e: TextEdit)
        requires
            old(self).wf(),
        ensures
            final(self).wf(),
            final(self)@ == old(self)@,
            !(old(self).modal_spec() is SearchBar) ==> final(self).modal_spec() == old(
                self,
            ).modal_spec(),
            old(self).modal_spec() is SearchBar ==> final(self).modal_spec() is SearchBar
                && final(self).modal_spec()->SearchBar_0@ == edited(
                old(self).modal_spec()->SearchBar_0@,
                e,
            ),
    {
        if let Modal::SearchBar(input) = &mut self.modal {
            input.apply(e);
        }
    }

    /// Keeps the rows that the search query matches and closes the search bar.
    pub fn commit_search(&mut self) -> (r: Result<(), AppError>)
        requires
            old(self).wf(),
        ensures
            final(self).wf(),
            !(old(self).modal_spec() is SearchBar) ==> r is Ok && final(self)@ == old(self)@
                && final(self).modal_spec() == old(self).modal_spec(),
            old(self).modal_spec() is SearchBar ==> final(self).modal_spec() is Hidden,
            r is Err ==> r == Err::<(), AppError>(AppError::Engine),
            old(self).modal_spec() is SearchBar && old(self)@.total_rows <= u32::MAX ==> r is Ok,
            old(self).modal_spec() is SearchBar && r is Ok ==> final(self)@.selected == 0
                && final(self)@.offset == 0 && final(self)@.total_rows <= old(self)@.total_rows,
            old(self).modal_spec() is SearchBar && r is Ok ==> exists|seen: Seq<Seq<CellValue>>|
                frame_reads_as(seen, frame_values(old(self).frame_spec())) && ({
                    let kept = rows_matching(
                        seen,
                        old(self).modal_spec()->SearchBar_0@.text,
                        old(self)@.total_rows,
                    );
                    &&& final(self)@.total_rows == kept.len()
                    &&& forall|j: int|
                        0 <= j < frame_values(old(self).frame_spec()).len() ==> #[trigger] frame_values(
                            final(self).frame_spec(),
                        )[j] == kept.map_values(
                            |i: usize| frame_values(old(self).frame_spec())[j][i as int],
                        )
                }),
    {
        let query = match &self.modal {
            Modal::SearchBar(input) => input.value(),
            _ => {
                return Ok(());
            },
        };
        self.modal = Modal::Hidden;
        if self.height > u32::MAX as usize {
            return Err(AppError::Engine);
        }
        let columns = frame_cells(&self.data_frame);
        let rows = matching_rows(&columns, self.height, query.as_str());
        proof {
            lemma_rows_matching_below(column_views(columns@), query@, self.height as nat);
        }
        let ghost seen = column_views(columns@);
        let ghost kept = rows@.len();
        match take_rows(&self.data_frame, &rows) {
            Ok(df) => {
                let r = self.set_data_frame(df);
                assert(frame_reads_as(seen, frame_values(old(self).frame_spec())));
                assert(self@.total_rows == kept);
                r
            },
            Err(_) => Err(AppError::Engine),
        }
    }

    /// The query typed in the search bar, when it is open.
    pub fn search_text(&self) -> (r: Option<String>)
        ensures
            r is Some <==> self.modal_spec() is SearchBar,
            r is Some ==> r->0@ == self.modal_spec()->SearchBar_0@.text,
    {
        match &self.modal {
            Modal::SearchBar(input) => Some(input.value()),
            _ => None,
        }
    }

    pub fn data_frame(&self) -> &DataFrame {
        &self.data_frame
    }

    /// The width each column needs on screen.
    pub fn widths(&self) -> &Vec<usize> {
        &self.widths
    }

    /// Draws the detail view: no table rows are on screen, so a page is empty,
    /// and the scroll is fitted to the reflowed text.
    pub fn adjust_scroll(&mut self, total_lines: usize, viewport_height: usize)
        requires
            old(self).wf(),
        ensures
            final(self).wf(),
            final(self)@ == (ViewportState { visible_rows: 0, ..old(self)@ }),
            !(old(self).modal_spec() is Sheet) ==> final(self).modal_spec() == old(self).modal_spec(),
            old(self).modal_spec() is Sheet ==> ({
                let (s0, s1) = (old(self).modal_spec()->Sheet_0, final(self).modal_spec()->Sheet_0);
                &&& final(self).modal_spec() is Sheet
                &&& s1.total_lines() == total_lines
                &&& s1.viewport_height() == viewport_height
                &&& s1.line_offset() == if s0.line_offset() <= max_offset(
                    total_lines as nat,
                    viewport_height as nat,
                ) {
                    s0.line_offset()
                } else {
                    max_offset(total_lines as nat, viewport_height as nat)
                }
            }),
    {
        self.rendered_rows = 0;
        if let Modal::Sheet(scroll) = &mut self.modal {
            scroll.adjust(total_lines, viewport_height);
        }
    }

    pub fn headers(&self) -> &Vec<String> {
        &self.headers
    }

    pub fn modal(&self) -> (r: &Modal)
        ensures
            *r == self.modal_spec(),
    {
        &self.modal
    }

    /// The scroll position of the detail view, when it is open.
    pub fn scroll(&self) -> (r: Option<Scroll>)
        ensures
            r is Some <==> self.modal_spec() is Sheet,
            r is Some ==> r->0 == self.modal_spec()->Sheet_0,
    {
        match &self.modal {
            Modal::Sheet(scroll) => Some(*scroll),
            _ => None,
        }
    }

    pub fn selected(&self) -> (r: usize)
        ensures
            r == self@.selected,
    {
        self.select
    }

    /// Number of rows of the table.
    pub fn height(&self) -> (r: usize)
        ensures
            r == self@.total_rows,
    {
        self.height
    }
}

/// Relative moves saturate: moving up past the first row stops at it, and
/// moving down past the last row stops at that one.
pub proof fn lemma_relative_moves_saturate(total: nat, selected: nat, n: nat)
    ensures
        n >= selected ==> clamp_row(sat_sub(selected as int, n as int), total) == 0,
        total > 0 && selected + n >= total - 1 ==> clamp_row((selected + n) as int, total) == total
            - 1,
{
}

/// The rows a search keeps are rows of the table, in increasing order.
proof fn lemma_rows_matching_below(columns: Seq<Seq<crate::cells::CellValue>>, query: Seq<char>, n: nat)
    ensures
        rows_matching(columns, query, n).len() <= n,
        forall|i: int|
            0 <= i < rows_matching(columns, query, n).len() ==> (#[trigger] rows_matching(
                columns,
                query,
                n,
            )[i]) < n,
    decreases n,
{
    if n > 0 {
        lemma_rows_matching_below(columns, query, (n - 1) as nat);
    }
}

/// A well-formed table keeps its selection among its rows and inside its window.
pub proof fn lemma_viewport_invariant(t: Tabular)
    requires
        t.wf(),
    ensures
        viewport_ok(t@),
{
}

} // verus!
