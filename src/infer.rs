use vstd::prelude::*;

use polars::error::PolarsError;
use polars::frame::DataFrame;
use polars::prelude::{DataType, TimeUnit};
use polars::series::Series;

use crate::frame::{
    frame_casts, frame_cols, frame_column, frame_kinds, frame_names, frame_nulls, frame_rows,
    frame_text, frame_values, frame_width, series_is_text, series_kind, series_label, series_nulls,
    series_text, series_values,
};

verus! {

/// The types a text column may be promoted to, in order of preference.
#[derive(Debug, Clone, Copy, PartialEq, Eq, Structural)]
pub enum ColumnType {
    Int64,
    Float64,
    Boolean,
    Date,
    Time,
    /// Date and time of day, in milliseconds.
    Datetime,
}

pub open spec fn candidate_types() -> Seq<ColumnType> {
    seq![
        ColumnType::Int64,
        ColumnType::Float64,
        ColumnType::Boolean,
        ColumnType::Date,
        ColumnType::Time,
        ColumnType::Datetime,
    ]
}

fn candidates() -> (r: Vec<ColumnType>)
    ensures
        r@ == candidate_types(),
{
    let mut r: Vec<ColumnType> = Vec::new();
    r.push(ColumnType::Int64);
    r.push(ColumnType::Float64);
    r.push(ColumnType::Boolean);
    r.push(ColumnType::Date);
    r.push(ColumnType::Time);
    r.push(ColumnType::Datetime);
    r
}

/// The null flags of a series cast to a type; `None` where the cast fails.
pub uninterp spec fn cast_nulls(s: Series, t: ColumnType) -> Option<Seq<bool>>;

/// Relies on `Series::cast`, which turns the values that do not parse as the
/// type into nulls rather than failing; the result has the type asked for.
#[verifier::external_body]
fn cast_series(s: &Series, t: ColumnType) -> (r: Result<Series, PolarsError>)
    ensures
        r is Ok <==> cast_nulls(*s, t) is Some,
        r is Ok ==> series_nulls(r->Ok_0) == cast_nulls(*s, t)->0,
        r is Ok ==> !series_text(r->Ok_0),
        r is Ok ==> series_kind(r->Ok_0) == Some(t),
        r is Ok ==> series_label(r->Ok_0) == series_label(*s),
        r is Ok ==> series_values(r->Ok_0).len() == series_values(*s).len(),
{
    let dtype = match t {
        ColumnType::Int64 => DataType::Int64,
        ColumnType::Float64 => DataType::Float64,
        ColumnType::Boolean => DataType::Boolean,
        ColumnType::Date => DataType::Date,
        ColumnType::Time => DataType::Time,
        ColumnType::Datetime => DataType::Datetime(TimeUnit::Milliseconds, None),
    };
    s.cast(&dtype)
}

/// Relies on `Series::is_null`: one flag per value, set where the value is null.
#[verifier::external_body]
fn null_flags(s: &Series) -> (r: Vec<bool>)
    ensures
        r@ == series_nulls(*s),
{
    s.is_null().into_iter().map(|flag| flag.unwrap_or(false)).collect()
}

/// Relies on `DataFrame::replace_column`: puts `s` in place of column `i`; on
/// failure the frame is left as it was.
#[verifier::external_body]
fn replace_column(df: &mut DataFrame, i: usize, s: Series) -> (r: Result<(), PolarsError>)
    ensures
        r is Ok ==> frame_rows(*final(df)) == frame_rows(*old(df)),
        r is Ok ==> frame_cols(*final(df)) == frame_cols(*old(df)),
        r is Ok ==> frame_nulls(*final(df)) == frame_nulls(*old(df)).update(i as int, series_nulls(s)),
        r is Ok ==> frame_text(*final(df)) == frame_text(*old(df)).update(i as int, series_text(s)),
        r is Ok ==> frame_names(*final(df)) == frame_names(*old(df)).update(i as int, series_label(s)),
        r is Ok ==> frame_kinds(*final(df)) == frame_kinds(*old(df)).update(i as int, series_kind(s)),
        r is Ok ==> frame_casts(*final(df)) == frame_casts(*old(df)).update(i as int, cast_masks(s)),
        r is Ok ==> frame_values(*final(df)) == frame_values(*old(df)).update(i as int, series_values(s)),
        i < frame_cols(*old(df)) && series_values(s).len() == frame_rows(*old(df)) ==> r is Ok,
        r is Err ==> *final(df) == *old(df),
{
    df.replace_column(i, s).map(|_| ())
}

/// The null flags of each attempted cast; `None` where the cast failed.
pub open spec fn mask_views(casts: Seq<Option<Vec<bool>>>) -> Seq<Option<Seq<bool>>> {
    casts.map_values(
        |o: Option<Vec<bool>>|
            match o {
                Some(v) => Some(v@),
                None => None,
            },
    )
}

/// The first cast, at or after `k`, that made exactly the values null that were
/// null before: no value was lost to a failed parse.
pub open spec fn first_lossless(orig: Seq<bool>, casts: Seq<Option<Seq<bool>>>, k: int) -> Option<
    int,
>
    decreases casts.len() - k,
{
    if k < 0 || k >= casts.len() {
        None
    } else if casts[k] == Some(orig) {
        Some(k)
    } else {
        first_lossless(orig, casts, k + 1)
    }
}

/// Whether two null masks agree everywhere.
pub fn same_nulls(a: &Vec<bool>, b: &Vec<bool>) -> (r: bool)
    ensures
        r == (a@ == b@),
{
    if a.len() != b.len() {
        return false;
    }
    let mut i: usize = 0;
    while i < a.len()
        invariant
            a.len() == b.len(),
            i <= a.len(),
            forall|j: int| 0 <= j < i ==> a@[j] == b@[j],
        decreases a.len() - i,
    {
        if a[i] != b[i] {
            return false;
        }
        i = i + 1;
    }
    assert(a@ =~= b@);
    true
}

/// Picks the candidate to promote a column to, given the column's null flags and
/// those of its cast to each candidate.
pub fn lossless_choice(orig: &Vec<bool>, casts: &Vec<Option<Vec<bool>>>) -> (r: Option<usize>)
    ensures
        r is Some <==> first_lossless(orig@, mask_views(casts@), 0) is Some,
        r is Some ==> r->0 == first_lossless(orig@, mask_views(casts@), 0)->0,
{
    let ghost m = mask_views(casts@);
    let mut k: usize = 0;
    while k < casts.len()
        invariant
            k <= casts.len(),
            m == mask_views(casts@),
            first_lossless(orig@, m, 0) == first_lossless(orig@, m, k as int),
        decreases casts.len() - k,
    {
        match &casts[k] {
            Some(mask) => {
                if same_nulls(orig, mask) {
                    return Some(k);
                }
            },
            None => {},
        }
        k = k + 1;
    }
    None
}

/// The null flags of a series cast to each candidate type, in order.
pub open spec fn cast_masks(s: Series) -> Seq<Option<Seq<bool>>> {
    candidate_types().map_values(|t: ColumnType| cast_nulls(s, t))
}

/// A text column cast to the first candidate type that keeps exactly its nulls;
/// `None` for a column that is not text or has no such type.
fn type_infered_series(series: &Series) -> (r: Option<Series>)
    ensures
        r is Some <==> series_text(*series) && first_lossless(
            series_nulls(*series),
            cast_masks(*series),
            0,
        ) is Some,
        r is Some ==> series_nulls(r->0) == series_nulls(*series) && !series_text(r->0),
        r is Some ==> series_kind(r->0) == Some(
            candidate_types()[first_lossless(series_nulls(*series), cast_masks(*series), 0)->0],
        ),
        r is Some ==> series_label(r->0) == series_label(*series),
        r is Some ==> series_values(r->0).len() == series_values(*series).len(),
{
    if !series_is_text(series) {
        return None;
    }
    let orig = null_flags(series);
    let types = candidates();
    let mut casts: Vec<Option<Series>> = Vec::new();
    let mut masks: Vec<Option<Vec<bool>>> = Vec::new();
    let mut k: usize = 0;
    while k < types.len()
        invariant
            types@ == candidate_types(),
            k <= types.len(),
            casts.len() == k,
            masks.len() == k,
            mask_views(masks@) =~= cast_masks(*series).take(k as int),
            forall|j: int|
                0 <= j < k ==> ((#[trigger] casts@[j]) is Some <==> masks@[j] is Some),
            forall|j: int|
                0 <= j < k && (#[trigger] casts@[j]) is Some ==> series_nulls(casts@[j]->0)
                    == masks@[j]->0@ && !series_text(casts@[j]->0) && series_kind(casts@[j]->0)
                    == Some(candidate_types()[j]) && series_label(casts@[j]->0) == series_label(
                    *series,
                ) && series_values(casts@[j]->0).len() == series_values(*series).len(),
        decreases types.len() - k,
    {
        match cast_series(series, types[k]) {
            Ok(cast) => {
                masks.push(Some(null_flags(&cast)));
                casts.push(Some(cast));
            },
            Err(_) => {
                masks.push(None);
                casts.push(None);
            },
        }
        k = k + 1;
    }
    assert(mask_views(masks@) =~= cast_masks(*series));
    match lossless_choice(&orig, &masks) {
        Some(k) => {
            proof {
                lemma_choice_is_lossless(orig@, mask_views(masks@), 0);
            }
            casts.remove(k)
        },
        None => None,
    }
}

/// Promotes text columns to more specific types where no value is lost.
pub trait SafeInferSchema: Sized {
    /// `self` is what inference may make of `before`.
    spec fn inferred_from(&self, before: Self) -> bool;

    fn safe_infer_schema(&mut self)
        ensures
            final(self).inferred_from(*old(self)),
    ;
}

/// The first candidate type that column `j` of `df` casts to without losing a value.
pub open spec fn column_choice(df: DataFrame, j: int) -> Option<int> {
    first_lossless(frame_nulls(df)[j], frame_casts(df)[j], 0)
}

/// Column `j` of `df` is text and some candidate type keeps its values.
pub open spec fn promotable(df: DataFrame, j: int) -> bool {
    frame_text(df)[j] && column_choice(df, j) is Some
}

/// What inference makes of column `j`: a promotable text column takes the first
/// candidate type that keeps its nulls; any other column stays as it was.
pub open spec fn column_inferred(after: DataFrame, before: DataFrame, j: int) -> bool {
    if promotable(before, j) {
        &&& !frame_text(after)[j]
        &&& frame_kinds(after)[j] == Some(candidate_types()[column_choice(before, j)->0])
    } else {
        &&& frame_text(after)[j] == frame_text(before)[j]
        &&& frame_kinds(after)[j] == frame_kinds(before)[j]
        &&& frame_casts(after)[j] == frame_casts(before)[j]
        &&& frame_values(after)[j] == frame_values(before)[j]
    }
}

/// What inference does to a frame: it keeps the shape, the column names and
/// the null flags of every column, infers each column as above, and leaves a
/// frame without promotable columns exactly as it was.
pub open spec fn inference_keeps(after: DataFrame, before: DataFrame) -> bool {
    &&& frame_rows(after) == frame_rows(before)
    &&& frame_cols(after) == frame_cols(before)
    &&& frame_nulls(after) == frame_nulls(before)
    &&& frame_names(after) == frame_names(before)
    &&& frame_text(after).len() == frame_text(before).len()
    &&& frame_kinds(after).len() == frame_kinds(before).len()
    &&& frame_casts(after).len() == frame_casts(before).len()
    &&& forall|j: int| 0 <= j < frame_cols(before) ==> #[trigger] column_inferred(after, before, j)
    &&& (forall|j: int| 0 <= j < frame_cols(before) ==> !#[trigger] promotable(before, j))
        ==> after == before
}

/// A second inference pass changes nothing.
pub proof fn lemma_inference_idempotent(d0: DataFrame, d1: DataFrame, d2: DataFrame)
    requires
        frame_text(d0).len() == frame_cols(d0),
        frame_casts(d0).len() == frame_cols(d0),
        frame_nulls(d0).len() == frame_cols(d0),
        inference_keeps(d1, d0),
        inference_keeps(d2, d1),
    ensures
        d2 == d1,
{
    assert forall|j: int| 0 <= j < frame_cols(d1) implies !#[trigger] promotable(d1, j) by {
        assert(column_inferred(d1, d0, j));
    }
}

impl SafeInferSchema for DataFrame {
    open spec fn inferred_from(&self, before: DataFrame) -> bool {
        inference_keeps(*self, before)
    }

    fn safe_infer_schema(&mut self)
        ensures
            inference_keeps(*final(self), *old(self)),
    {
        let ghost before = *self;
        let width = frame_width(self);
        let mut i: usize = 0;
        while i < width
            invariant
                i <= width,
                width == frame_cols(before),
                frame_text(before).len() == width,
                frame_nulls(before).len() == width,
                frame_kinds(before).len() == width,
                frame_casts(before).len() == width,
                frame_names(before).len() == width,
                frame_values(before).len() == width,
                frame_rows(*self) == frame_rows(before),
                frame_cols(*self) == frame_cols(before),
                frame_nulls(*self) == frame_nulls(before),
                frame_names(*self) == frame_names(before),
                frame_text(*self).len() == width,
                frame_kinds(*self).len() == width,
                frame_casts(*self).len() == width,
                frame_values(*self).len() == width,
                forall|j: int| 0 <= j < i ==> #[trigger] column_inferred(*self, before, j),
                forall|j: int| i <= j < width ==> #[trigger] frame_text(*self)[j] == frame_text(before)[j],
                forall|j: int| i <= j < width ==> #[trigger] frame_kinds(*self)[j] == frame_kinds(before)[j],
                forall|j: int| i <= j < width ==> #[trigger] frame_casts(*self)[j] == frame_casts(before)[j],
                forall|j: int|
                    i <= j < width ==> #[trigger] frame_values(*self)[j] == frame_values(before)[j],
                (forall|j: int| 0 <= j < width ==> !#[trigger] promotable(before, j)) ==> *self
                    == before,
            decreases width - i,
        {
            let ghost current = *self;
            if let Some(column) = frame_column(self, i) {
                if let Some(typed) = type_infered_series(&column) {
                    let r = replace_column(self, i, typed);
                    assert(r is Ok);
                    assert(promotable(before, i as int));
                } else {
                    assert(!promotable(before, i as int));
                }
            }
            assert forall|j: int| 0 <= j < i + 1 implies #[trigger] column_inferred(*self, before, j) by {
                if j < i {
                    assert(column_inferred(current, before, j));
                }
            }
            i = i + 1;
        }
    }
}

/// A cast that the inference accepts keeps the nulls exactly: a value is null
/// after it if and only if it was null before.
pub proof fn lemma_choice_is_lossless(orig: Seq<bool>, casts: Seq<Option<Seq<bool>>>, k: int)
    requires
        0 <= k,
        first_lossless(orig, casts, k) is Some,
    ensures
        ({
            let c = first_lossless(orig, casts, k)->0;
            &&& k <= c < casts.len()
            &&& casts[c] == Some(orig)
            &&& forall|j: int| k <= j < c ==> casts[j] != Some(orig)
        }),
    decreases casts.len() - k,
{
    if k < casts.len() && casts[k] != Some(orig) {
        lemma_choice_is_lossless(orig, casts, k + 1);
    }
}

/// The first lossless cast from `k` on lies at or before any lossless cast `c`,
/// and is `c` itself when none lies between.
proof fn lemma_first_lossless_upto(orig: Seq<bool>, casts: Seq<Option<Seq<bool>>>, k: int, c: int)
    requires
        0 <= k <= c < casts.len(),
        casts[c] == Some(orig),
    ensures
        first_lossless(orig, casts, k) is Some,
        k <= first_lossless(orig, casts, k)->0 <= c,
        (forall|j: int| k <= j < c ==> casts[j] != Some(orig)) ==> first_lossless(orig, casts, k)->0
            == c,
    decreases c - k,
{
    if casts[k] != Some(orig) {
        lemma_first_lossless_upto(orig, casts, k + 1, c);
    }
}

/// On null masks: where the casts of a column seen again keep its nulls at the
/// type chosen before, the choice made again is never a later type, and is the
/// same one unless an earlier candidate keeps the nulls as well.
pub proof fn lemma_choice_stable(
    orig: Seq<bool>,
    casts: Seq<Option<Seq<bool>>>,
    typed_casts: Seq<Option<Seq<bool>>>,
)
    requires
        first_lossless(orig, casts, 0) is Some,
        first_lossless(orig, casts, 0)->0 < typed_casts.len(),
        typed_casts[first_lossless(orig, casts, 0)->0] == Some(orig),
    ensures
        ({
            let c = first_lossless(orig, casts, 0)->0;
            &&& casts[c] == Some(orig)
            &&& first_lossless(orig, typed_casts, 0) is Some
            &&& first_lossless(orig, typed_casts, 0)->0 <= c
            &&& (forall|j: int| 0 <= j < c ==> typed_casts[j] != Some(orig)) ==> first_lossless(
                orig,
                typed_casts,
                0,
            ) == Some(c)
        }),
{
    lemma_choice_is_lossless(orig, casts, 0);
    let c = first_lossless(orig, casts, 0)->0;
    lemma_first_lossless_upto(orig, typed_casts, 0, c);
}

} // verus!
