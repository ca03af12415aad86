use vstd::prelude::*;

use polars::frame::DataFrame;
use polars::series::Series;

use crate::cells::series_name;
use crate::frame::{frame_cols, frame_column, frame_names, frame_nulls, frame_width, series_nulls};

verus! {

/// What the schema view shows of one column.
#[derive(Debug, Clone)]
pub struct FieldInfo {
    pub name: String,
    pub dtype: String,
    pub estimated_size: usize,
    pub null_count: usize,
    pub min: String,
    pub max: String,
}

/// The columns of a table, in order, with their statistics.
#[derive(Debug, Clone)]
pub struct TableSchema {
    pub fields: Vec<FieldInfo>,
}

impl TableSchema {
    pub fn len(&self) -> (r: usize)
        ensures
            r == self.fields@.len(),
    {
        self.fields.len()
    }
}

/// Relies on `Display` for polars' `DataType`: the name of the series' type.
#[verifier::external_body]
fn series_type_name(s: &Series) -> (r: String) {
    s.dtype().to_string()
}

/// Relies on `Series::estimated_size`: the bytes the series takes, roughly.
#[verifier::external_body]
fn series_size(s: &Series) -> (r: usize) {
    s.estimated_size()
}

/// How many flags are set.
pub open spec fn count_true(flags: Seq<bool>) -> nat
    decreases flags.len(),
{
    if flags.len() == 0 {
        0
    } else {
        count_true(flags.drop_last()) + if flags.last() { 1nat } else { 0nat }
    }
}

/// Relies on `Series::null_count`: how many values are null.
#[verifier::external_body]
fn series_null_count(s: &Series) -> (r: usize)
    ensures
        r == count_true(series_nulls(*s)),
{
    s.null_count()
}

/// Relies on `Series::min_reduce` and the `Display` of its value; empty where
/// the type has no minimum.
#[verifier::external_body]
fn series_min_text(s: &Series) -> (r: String) {
    s.min_reduce().map(|m| m.value().to_string()).unwrap_or_default()
}

/// Relies on `Series::max_reduce` and the `Display` of its value; empty where
/// the type has no maximum.
#[verifier::external_body]
fn series_max_text(s: &Series) -> (r: String) {
    s.max_reduce().map(|m| m.value().to_string()).unwrap_or_default()
}

/// The schema of a table: one entry per column, in order.
pub fn table_schema(df: &DataFrame) -> (r: TableSchema)
    ensures
        r.fields@.len() == frame_cols(*df),
        forall|i: int|
            0 <= i < r.fields@.len() ==> (#[trigger] r.fields@[i]).name@ == frame_names(*df)[i]
                && r.fields@[i].null_count == count_true(frame_nulls(*df)[i]),
{
    let width = frame_width(df);
    let mut fields: Vec<FieldInfo> = Vec::new();
    let mut i: usize = 0;
    while i < width
        invariant
            i <= width,
            width == frame_cols(*df),
            fields@.len() == i,
            forall|j: int|
                0 <= j < i ==> (#[trigger] fields@[j]).name@ == frame_names(*df)[j]
                    && fields@[j].null_count == count_true(frame_nulls(*df)[j]),
        decreases width - i,
    {
        if let Some(column) = frame_column(df, i) {
            fields.push(
                FieldInfo {
                    name: series_name(&column),
                    dtype: series_type_name(&column),
                    estimated_size: series_size(&column),
                    null_count: series_null_count(&column),
                    min: series_min_text(&column),
                    max: series_max_text(&column),
                },
            );
        }
        i = i + 1;
    }
    TableSchema { fields }
}

/// The schema view's scroll position.
pub struct SchemaState {
    offset: usize,
}

impl SchemaState {
    pub closed spec fn offset_spec(&self) -> nat {
        self.offset as nat
    }

    pub fn new() -> (r: SchemaState)
        ensures
            r.offset_spec() == 0,
    {
        SchemaState { offset: 0 }
    }

    pub fn offset(&self) -> (r: usize)
        ensures
            r == self.offset_spec(),
    {
        self.offset
    }

    pub fn scroll_up(&mut self)
        ensures
            final(self).offset_spec() == if old(self).offset_spec() > 0 {
                (old(self).offset_spec() - 1) as nat
            } else {
                0
            },
    {
        if self.offset > 0 {
            self.offset = self.offset - 1;
        }
    }

    /// One row down; drawing clamps it to the rows there are.
    pub fn scroll_down(&mut self)
        ensures
            final(self).offset_spec() == if old(self).offset_spec() < usize::MAX {
                old(self).offset_spec() + 1
            } else {
                old(self).offset_spec()
            },
    {
        if self.offset < usize::MAX {
            self.offset = self.offset + 1;
        }
    }

    /// Keeps the offset where `rows` rows still fill an area `area_height` high,
    /// of which the header and the bottom border take two.
    pub fn clamp(&mut self, rows: usize, area_height: u16)
        ensures
            final(self).offset_spec() == clamped_offset(old(self).offset_spec(), rows as nat, area_height as nat),
    {
        self.offset = visible_offset(self.offset, rows, area_height);
    }
}

/// The first row shown of `rows` rows in an area `area_height` high with two
/// rows of frame: no further down than needed to show the last row.
pub open spec fn clamped_offset(offset: nat, rows: nat, area_height: nat) -> nat {
    let body: nat = if area_height > 2 { (area_height - 2) as nat } else { 0 };
    let last_start: nat = if rows > body { (rows - body) as nat } else { 0 };
    if offset < last_start { offset } else { last_start }
}

pub fn visible_offset(offset: usize, rows: usize, area_height: u16) -> (r: usize)
    ensures
        r == clamped_offset(offset as nat, rows as nat, area_height as nat),
{
    let body: usize = if area_height > 2 {
        (area_height - 2) as usize
    } else {
        0
    };
    let last_start = if rows > body {
        rows - body
    } else {
        0
    };
    if offset < last_start {
        offset
    } else {
        last_start
    }
}

/// The field table of the schema view, over a table's schema.
pub struct FieldInfoTable<'a> {
    table_schema: &'a TableSchema,
}

impl<'a> FieldInfoTable<'a> {
    pub closed spec fn schema_spec(&self) -> TableSchema {
        *self.table_schema
    }

    pub fn new(field_info: &'a TableSchema) -> (r: Self)
        ensures
            r.schema_spec() == *field_info,
    {
        Self { table_schema: field_info }
    }

    pub fn table_schema(&self) -> (r: &'a TableSchema)
        ensures
            *r == self.schema_spec(),
    {
        self.table_schema
    }
}

} // verus!
