use vstd::prelude::*;

use polars::error::PolarsError;
use polars::frame::column::Column;
use polars::frame::DataFrame;
use polars::prelude::{DataType, IdxCa, IdxSize};
use polars::series::Series;

use crate::cells::CellValue;
use crate::infer::{cast_masks, ColumnType};

verus! {

/// polars' table, carried through opaquely.
#[verifier::external_type_specification]
#[verifier::external_body]
pub struct ExDataFrame(DataFrame);

/// polars' column of values, carried through opaquely.
#[verifier::external_type_specification]
#[verifier::external_body]
pub struct ExSeries(Series);

/// polars' column wrapper, which indexing a `DataFrame` yields.
#[verifier::external_type_specification]
#[verifier::external_body]
pub struct ExColumn(Column);

/// polars' error, mapped to the library's own errors where it is met.
#[verifier::external_type_specification]
#[verifier::external_body]
pub struct ExPolarsError(PolarsError);

/// Number of rows of a frame.
pub uninterp spec fn frame_rows(df: DataFrame) -> nat;

/// Number of columns of a frame.
pub uninterp spec fn frame_cols(df: DataFrame) -> nat;

/// The null flags of each column of a frame, column by column.
pub uninterp spec fn frame_nulls(df: DataFrame) -> Seq<Seq<bool>>;

/// For each column of a frame, whether it holds text.
pub uninterp spec fn frame_text(df: DataFrame) -> Seq<bool>;

/// The null flags of a series, one per value.
pub uninterp spec fn series_nulls(s: Series) -> Seq<bool>;

/// The values of a series, in order. Only the kind of an `Other` entry is
/// meant: its display text depends on process-wide formatting settings.
pub uninterp spec fn series_values(s: Series) -> Seq<CellValue>;

/// The name of a series.
pub uninterp spec fn series_label(s: Series) -> Seq<char>;

/// The candidate type a series has, if it has one of them.
pub uninterp spec fn series_kind(s: Series) -> Option<ColumnType>;

/// The column names of a frame, in order.
pub uninterp spec fn frame_names(df: DataFrame) -> Seq<Seq<char>>;

/// For each column of a frame, the candidate type it has, if any.
pub uninterp spec fn frame_kinds(df: DataFrame) -> Seq<Option<ColumnType>>;

/// For each column of a frame, the null flags of its cast to each candidate
/// type (see `cast_masks`).
pub uninterp spec fn frame_casts(df: DataFrame) -> Seq<Seq<Option<Seq<bool>>>>;

/// The values of a frame, column by column.
pub uninterp spec fn frame_values(df: DataFrame) -> Seq<Seq<CellValue>>;

/// Whether a series holds text.
pub uninterp spec fn series_text(s: Series) -> bool;

/// Relies on `DataFrame::height`: the number of rows.
#[verifier::external_body]
pub(crate) fn frame_height(df: &DataFrame) -> (r: usize)
    ensures
        r == frame_rows(*df),
{
    df.height()
}

/// Relies on `DataFrame::width`: the number of columns, one null mask and one
/// type for each.
#[verifier::external_body]
pub(crate) fn frame_width(df: &DataFrame) -> (r: usize)
    ensures
        r == frame_cols(*df),
        frame_values(*df).len() == r,
        frame_nulls(*df).len() == r,
        frame_text(*df).len() == r,
        frame_names(*df).len() == r,
        frame_kinds(*df).len() == r,
        frame_casts(*df).len() == r,
{
    df.width()
}

/// Relies on `DataFrame::select_at_idx` and `Column::as_materialized_series`:
/// a copy of column `i` as a series, if there is one.
#[verifier::external_body]
pub(crate) fn frame_column(df: &DataFrame, i: usize) -> (r: Option<Series>)
    ensures
        r is Some <==> i < frame_cols(*df),
        r is Some ==> series_nulls(r->0) == frame_nulls(*df)[i as int],
        r is Some ==> series_text(r->0) == frame_text(*df)[i as int],
        r is Some ==> series_values(r->0) == frame_values(*df)[i as int],
        r is Some ==> series_values(r->0).len() == frame_rows(*df),
        r is Some ==> series_label(r->0) == frame_names(*df)[i as int],
        r is Some ==> series_kind(r->0) == frame_kinds(*df)[i as int],
        r is Some ==> cast_masks(r->0) == frame_casts(*df)[i as int],
{
    df.select_at_idx(i).map(|c| c.as_materialized_series().clone())
}

/// Relies on the `dtype` of a series: whether it is `DataType::String`.
#[verifier::external_body]
pub(crate) fn series_is_text(s: &Series) -> (r: bool)
    ensures
        r == series_text(*s),
{
    s.dtype() == &DataType::String
}

/// Relies on `DataFrame::get_column_names_str`: the column names, in order.
#[verifier::external_body]
pub(crate) fn frame_column_names(df: &DataFrame) -> (r: Vec<String>)
    ensures
        r@.len() == frame_cols(*df),
        r@.map_values(|n: String| n@) == frame_names(*df),
{
    df.get_column_names_str().into_iter().map(|name| name.to_owned()).collect()
}

/// Relies on `Clone` for `DataFrame`: a frame with the same columns.
#[verifier::external_body]
pub(crate) fn frame_copy(df: &DataFrame) -> (r: DataFrame)
    ensures
        frame_rows(r) == frame_rows(*df),
        frame_cols(r) == frame_cols(*df),
        frame_nulls(r) == frame_nulls(*df),
        frame_text(r) == frame_text(*df),
        frame_names(r) == frame_names(*df),
        frame_kinds(r) == frame_kinds(*df),
        frame_casts(r) == frame_casts(*df),
        frame_values(r) == frame_values(*df),
{
    df.clone()
}

/// Relies on `DataFrame::take`: the rows at the given indices, in that order;
/// it fails only on an index past the last row.
#[verifier::external_body]
pub(crate) fn take_rows(df: &DataFrame, rows: &Vec<usize>) -> (r: Result<DataFrame, PolarsError>)
    requires
        forall|i: int| 0 <= i < rows@.len() ==> rows@[i] <= u32::MAX,
    ensures
        (forall|i: int| 0 <= i < rows@.len() ==> rows@[i] < frame_rows(*df)) ==> r is Ok,
        r is Ok ==> frame_rows(r->Ok_0) == rows@.len(),
        r is Ok ==> frame_cols(r->Ok_0) == frame_cols(*df),
        r is Ok ==> frame_values(r->Ok_0).len() == frame_values(*df).len(),
        r is Ok ==> forall|j: int|
            0 <= j < frame_values(*df).len() ==> #[trigger] frame_values(r->Ok_0)[j] == rows@.map_values(
                |i: usize| frame_values(*df)[j][i as int],
            ),
{
    let indices: Vec<IdxSize> = rows.iter().map(|&row| row as IdxSize).collect();
    df.take(&IdxCa::from_vec("".into(), indices))
}

} // verus!
