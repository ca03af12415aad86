use vstd::prelude::*;
use vstd::string::StringExecFns;

use fwf_rs::{Reader, ReaderError};
use polars::error::PolarsError;
use polars::frame::DataFrame;
use polars::prelude::{IntoColumn, NamedFrom};
use polars::series::Series;

use crate::args::{Args, InferSchema};
use crate::error::AppError;
use crate::history::texts;
use crate::frame::{frame_cols, frame_names, frame_text};
use crate::infer::SafeInferSchema;
use crate::number::{digits_value, decimal, parse_usize, parses_as_usize, unsigned_digits, usize_text};
use crate::text::{chars_of, is_space, string_of, trim, trimmed, whitespace_char};

verus! {

/// Column `i` holds whitespace in every line.
pub open spec fn blank_everywhere(lines: Seq<Seq<char>>, i: int) -> bool {
    forall|k: int|
        0 <= k < lines.len() ==> 0 <= i < (#[trigger] lines[k]).len() && whitespace_char(
            lines[k][i],
        )
}

/// Length of the longest line.
pub open spec fn max_len(lines: Seq<Seq<char>>) -> nat
    decreases lines.len(),
{
    if lines.len() == 0 {
        0
    } else {
        let m = max_len(lines.drop_last());
        if lines.last().len() > m {
            lines.last().len()
        } else {
            m
        }
    }
}

/// The columns below `n` that are blank in every line, in increasing order.
pub open spec fn blank_columns(lines: Seq<Seq<char>>, n: nat) -> Seq<int>
    decreases n,
{
    if n == 0 {
        Seq::empty()
    } else if blank_everywhere(lines, n - 1) {
        blank_columns(lines, (n - 1) as nat).push(n - 1)
    } else {
        blank_columns(lines, (n - 1) as nat)
    }
}

/// The candidate separator positions of a fixed-width text: its all-blank
/// columns, then the length of its longest line; nothing for no lines.
pub open spec fn separator_candidates(lines: Seq<Seq<char>>) -> Seq<int> {
    if lines.len() == 0 {
        Seq::empty()
    } else {
        blank_columns(lines, max_len(lines)).push(max_len(lines) as int)
    }
}

pub open spec fn strictly_increasing(s: Seq<usize>) -> bool {
    forall|i: int, j: int| 0 <= i < j < s.len() ==> s[i] < s[j]
}

/// Position `i` ends a run of consecutive candidate positions.
pub open spec fn run_end(s: Seq<usize>, i: int) -> bool {
    i == s.len() - 1 || s[i + 1] - s[i] > 1
}

/// The ends of the runs among the first `n` positions.
pub open spec fn run_ends(s: Seq<usize>, n: int) -> Seq<int>
    decreases n,
{
    if n <= 0 {
        Seq::empty()
    } else if run_end(s, n - 1) {
        run_ends(s, n - 1).push(s[n - 1] as int)
    } else {
        run_ends(s, n - 1)
    }
}

/// Column widths between boundaries: the first column runs from 0 to the first
/// boundary, each later one from just past the previous boundary to the next.
pub open spec fn widths_between(e: Seq<int>) -> Seq<int> {
    Seq::new(e.len(), |j: int| if j == 0 { e[0] } else { e[j] - e[j - 1] - 1 })
}

/// Whether character `i` of every line is whitespace.
fn blank_in_all(lines: &Vec<Vec<char>>, i: usize) -> (r: bool)
    ensures
        r == blank_everywhere(lines@.map_values(|l: Vec<char>| l@), i as int),
{
    let ghost ls = lines@.map_values(|l: Vec<char>| l@);
    let mut k: usize = 0;
    while k < lines.len()
        invariant
            k <= lines.len(),
            ls == lines@.map_values(|l: Vec<char>| l@),
            forall|m: int|
                0 <= m < k ==> 0 <= i < (#[trigger] ls[m]).len() && whitespace_char(ls[m][i as int]),
        decreases lines.len() - k,
    {
        assert(ls[k as int] == lines@[k as int]@);
        if i >= lines[k].len() || !is_space(lines[k][i]) {
            return false;
        }
        k = k + 1;
    }
    true
}

/// The candidate separator positions of the given lines.
pub fn common_space_indices(lines: &Vec<String>) -> (r: Vec<usize>)
    ensures
        r@.map_values(|x: usize| x as int) == separator_candidates(texts(lines@)),
        strictly_increasing(r@),
{
    let ghost ls = texts(lines@);
    let mut rows: Vec<Vec<char>> = Vec::new();
    let mut longest: usize = 0;
    let mut k: usize = 0;
    while k < lines.len()
        invariant
            k <= lines.len(),
            ls == texts(lines@),
            rows@.map_values(|l: Vec<char>| l@) =~= ls.take(k as int),
            longest == max_len(ls.take(k as int)),
        decreases lines.len() - k,
    {
        let row = chars_of(lines[k].as_str());
        assert(ls.take(k + 1).drop_last() =~= ls.take(k as int));
        if row.len() > longest {
            longest = row.len();
        }
        rows.push(row);
        k = k + 1;
    }
    assert(ls.take(lines.len() as int) =~= ls);
    let mut out: Vec<usize> = Vec::new();
    if lines.len() == 0 {
        assert(out@.map_values(|x: usize| x as int) =~= separator_candidates(ls));
        return out;
    }
    let mut i: usize = 0;
    while i < longest
        invariant
            i <= longest,
            longest == max_len(ls),
            rows@.map_values(|l: Vec<char>| l@) == ls,
            out@.map_values(|x: usize| x as int) =~= blank_columns(ls, i as nat),
            strictly_increasing(out@),
            forall|j: int| 0 <= j < out@.len() ==> out@[j] < i,
        decreases longest - i,
    {
        if blank_in_all(&rows, i) {
            out.push(i);
        }
        i = i + 1;
    }
    out.push(longest);
    out
}

/// Splits `s` at every `sep`, as `str::split` does: `k` separators give `k + 1` pieces.
pub open spec fn split_on(s: Seq<char>, sep: char) -> Seq<Seq<char>>
    decreases s.len(),
{
    if s.len() == 0 {
        seq![Seq::<char>::empty()]
    } else {
        let prev = split_on(s.drop_last(), sep);
        if s.last() == sep {
            prev.push(Seq::empty())
        } else {
            prev.update(prev.len() - 1, prev.last().push(s.last()))
        }
    }
}

proof fn lemma_split_nonempty(s: Seq<char>, sep: char)
    ensures
        split_on(s, sep).len() >= 1,
    decreases s.len(),
{
    if s.len() > 0 {
        lemma_split_nonempty(s.drop_last(), sep);
    }
}

/// The pieces of `s` between separators, each as characters.
fn split_chars(s: &str, sep: char) -> (r: Vec<Vec<char>>)
    ensures
        r@.map_values(|p: Vec<char>| p@) == split_on(s@, sep),
{
    let cs = chars_of(s);
    let mut pieces: Vec<Vec<char>> = Vec::new();
    let mut current: Vec<char> = Vec::new();
    let mut i: usize = 0;
    assert(cs@.take(0) =~= Seq::<char>::empty());
    while i < cs.len()
        invariant
            i <= cs.len(),
            pieces@.map_values(|p: Vec<char>| p@).push(current@) =~= split_on(
                cs@.take(i as int),
                sep,
            ),
        decreases cs.len() - i,
    {
        let ghost before = pieces@.map_values(|p: Vec<char>| p@).push(current@);
        assert(cs@.take(i + 1).drop_last() =~= cs@.take(i as int));
        proof {
            lemma_split_nonempty(cs@.take(i as int), sep);
        }
        if cs[i] == sep {
            let done = current;
            pieces.push(done);
            current = Vec::new();
            assert(pieces@.map_values(|p: Vec<char>| p@).push(current@) =~= before.push(
                Seq::empty(),
            ));
        } else {
            current.push(cs[i]);
            assert(pieces@.map_values(|p: Vec<char>| p@).push(current@) =~= before.update(
                before.len() - 1,
                before.last().push(cs@[i as int]),
            ));
        }
        i = i + 1;
    }
    assert(cs@.take(cs@.len() as int) =~= cs@);
    pieces.push(current);
    pieces
}

/// Every comma-separated piece of `s` is a number that fits in `usize`.
pub open spec fn widths_parse(s: Seq<char>) -> bool {
    forall|i: int|
        0 <= i < split_on(s, ',').len() ==> parses_as_usize(#[trigger] split_on(s, ',')[i])
}

/// The numbers that the comma-separated pieces of `s` write.
pub open spec fn parsed_widths(s: Seq<char>) -> Seq<int> {
    split_on(s, ',').map_values(|p: Seq<char>| digits_value(unsigned_digits(p)) as int)
}

/// Reads a comma-separated list of column widths.
pub fn parse_width(widths: &str) -> (r: Result<Vec<usize>, AppError>)
    ensures
        r is Ok <==> widths_parse(widths@),
        r is Err ==> r == Err::<Vec<usize>, AppError>(AppError::InvalidNumber),
        r is Ok ==> r->Ok_0@.map_values(|x: usize| x as int) == parsed_widths(widths@),
{
    let pieces = split_chars(widths, ',');
    let ghost ps = split_on(widths@, ',');
    let mut out: Vec<usize> = Vec::new();
    let mut i: usize = 0;
    while i < pieces.len()
        invariant
            pieces@.map_values(|p: Vec<char>| p@) == ps,
            ps == split_on(widths@, ','),
            i <= pieces.len(),
            out@.len() == i,
            forall|j: int| 0 <= j < i ==> parses_as_usize(#[trigger] ps[j]),
            forall|j: int|
                0 <= j < i ==> #[trigger] out@[j] == digits_value(unsigned_digits(ps[j])),
        decreases pieces.len() - i,
    {
        let text = string_of(&pieces[i]);
        assert(ps[i as int] == pieces@[i as int]@);
        match parse_usize(text.as_str()) {
            Some(w) => out.push(w),
            None => {
                return Err(AppError::InvalidNumber);
            },
        }
        i = i + 1;
    }
    assert(out@.map_values(|x: usize| x as int) =~= parsed_widths(widths@));
    Ok(out)
}

/// The name given to column `i` (counted from 0) of a file without a header.
pub open spec fn is_default_name(name: Seq<char>, i: nat) -> bool {
    name == "column_"@ + decimal(i + 1)
}

/// The views of an optional list of strings.
pub open spec fn opt_texts(v: Option<Vec<String>>) -> Option<Seq<Seq<char>>> {
    match v {
        Some(v) => Some(texts(v@)),
        None => None,
    }
}

/// The column names of a table read with or without a header.
pub open spec fn names_spec(has_header: bool, header: Option<Seq<Seq<char>>>, count: nat) -> Seq<
    Seq<char>,
> {
    if has_header && header is Some {
        header->0.map_values(|c: Seq<char>| trim(c))
    } else {
        Seq::new(count, |i: int| "column_"@ + decimal((i + 1) as nat))
    }
}

/// Column names: the header's cells without surrounding whitespace where a
/// header is used and was read, else `column_1`, `column_2` and so on for `count` columns.
pub fn column_names(has_header: bool, header: Option<Vec<String>>, count: usize) -> (r: Vec<
    String,
>)
    ensures
        has_header && header is Some ==> r@.len() == header->0@.len() && forall|i: int|
            0 <= i < r@.len() ==> (#[trigger] r@[i])@ == trim(header->0@[i]@),
        !(has_header && header is Some) ==> r@.len() == count && forall|i: int|
            0 <= i < count ==> is_default_name((#[trigger] r@[i])@, i as nat),
        texts(r@) == names_spec(has_header, opt_texts(header), count as nat),
{
    let ghost given = opt_texts(header);
    let mut out: Vec<String> = Vec::new();
    if has_header {
        if let Some(cells) = header {
            let mut i: usize = 0;
            while i < cells.len()
                invariant
                    i <= cells.len(),
                    out@.len() == i,
                    forall|j: int| 0 <= j < i ==> (#[trigger] out@[j])@ == trim(cells@[j]@),
                decreases cells.len() - i,
            {
                let t = trimmed(cells[i].as_str());
                out.push(string_of(&t));
                i = i + 1;
            }
            assert(texts(out@) =~= names_spec(has_header, given, count as nat));
            return out;
        }
    }
    let mut i: usize = 0;
    while i < count
        invariant
            i <= count,
            out@.len() == i,
            forall|j: int| 0 <= j < i ==> is_default_name((#[trigger] out@[j])@, j as nat),
        decreases count - i,
    {
        let mut name = String::from_str("column_");
        let number = usize_text(i + 1);
        name.append(number.as_str());
        out.push(name);
        i = i + 1;
    }
    assert(texts(out@) =~= names_spec(has_header, given, count as nat));
    out
}

/// fwf-rs' reading error, mapped to `AppError::Read`.
#[verifier::external_type_specification]
#[verifier::external_body]
pub struct ExReaderError(ReaderError);

/// Relies on `fwf_rs::Reader`: splits each line of `content` into the fields of
/// the given widths; the header line, when asked for, comes apart from the
/// records, and a record that does not split is `None`. The result depends on
/// the arguments alone. `Record::try_new` slices lines at byte offsets, so the
/// lines must split safely (see `line_splits_safely`).
#[verifier::external_body]
fn fwf_records(
    content: &str,
    widths: &Vec<usize>,
    separator_length: usize,
    flexible_width: bool,
    has_header: bool,
) -> (r: Result<(Option<Vec<String>>, Vec<Option<Vec<String>>>), ReaderError>)
    requires
        splits_safely(content@, widths@, separator_length),
    ensures
        r is Ok <==> fwf_split(content@, widths@, separator_length, flexible_width, has_header) is Some,
        r is Ok ==> (opt_texts(r->Ok_0.0), record_views(r->Ok_0.1@)) == fwf_split(
            content@,
            widths@,
            separator_length,
            flexible_width,
            has_header,
        )->0,
{
    let reader = Reader::new(content.as_bytes(), widths.clone(), separator_length, flexible_width, has_header)?;
    let header = reader.header().map(|record| record.iter().map(str::to_owned).collect());
    let records = reader
        .records()
        .map(|record| record.ok().map(|fields| fields.iter().map(str::to_owned).collect()))
        .collect();
    Ok((header, records))
}

/// Relies on `DataFrame::new` and `Series::new` of polars: a frame of text
/// columns with the given names; for columns of one length it fails exactly on
/// a repeated name.
#[verifier::external_body]
fn frame_of_columns(names: &Vec<String>, columns: Vec<Vec<String>>) -> (r: Result<DataFrame, PolarsError>)
    requires
        names@.len() == columns@.len(),
    ensures
        (forall|i: int|
            0 <= i < columns@.len() ==> (#[trigger] columns@[i])@.len() == columns@[0]@.len())
            ==> (r is Ok <==> distinct_names(texts(names@))),
        r is Ok ==> frame_cols(r->Ok_0) == names@.len(),
        r is Ok ==> frame_names(r->Ok_0) == texts(names@),
        r is Ok ==> forall|j: int| 0 <= j < names@.len() ==> #[trigger] frame_text(r->Ok_0)[j],
{
    DataFrame::new(
        names
            .iter()
            .zip(columns)
            .map(|(name, values)| Series::new(name.as_str().into(), values).into_column())
            .collect(),
    )
}

/// The lines of a text, as `str::lines` gives them: split at `\n`, without a
/// `\r` before it, and with no empty line after a final `\n`.
pub open spec fn text_lines(s: Seq<char>) -> Seq<Seq<char>> {
    let pieces = split_on(s, '\n');
    let kept = if s.len() > 0 && s.last() == '\n' || s.len() == 0 {
        pieces.drop_last()
    } else {
        pieces
    };
    Seq::new(
        kept.len(),
        |i: int|
            if i < kept.len() - 1 && kept[i].len() > 0 && kept[i].last() == '\r' {
                kept[i].drop_last()
            } else if i == kept.len() - 1 && s.last() == '\n' && kept[i].len() > 0 && kept[i].last()
                == '\r' {
                kept[i].drop_last()
            } else {
                kept[i]
            },
    )
}

/// Splits a text into its lines.
pub fn lines_of(content: &str) -> (r: Vec<String>)
    ensures
        texts(r@) == text_lines(content@),
{
    let pieces = split_chars(content, '\n');
    proof {
        lemma_split_nonempty(content@, '\n');
    }
    let n = pieces.len();
    let cs = content.unicode_len();
    let ends_with_newline = cs > 0 && content.get_char(cs - 1) == '\n';
    let kept = if cs == 0 || ends_with_newline {
        n - 1
    } else {
        n
    };
    let ghost ps = split_on(content@, '\n');
    let mut out: Vec<String> = Vec::new();
    let mut i: usize = 0;
    while i < kept
        invariant
            kept <= n,
            n == pieces@.len(),
            pieces@.map_values(|p: Vec<char>| p@) == ps,
            ps == split_on(content@, '\n'),
            kept == if content@.len() > 0 && content@.last() == '\n' || content@.len() == 0 {
                n - 1
            } else {
                n as int
            },
            i <= kept,
            ends_with_newline == (content@.len() > 0 && content@.last() == '\n'),
            out@.len() == i,
            forall|j: int| 0 <= j < i ==> (#[trigger] out@[j])@ == text_lines(content@)[j],
        decreases kept - i,
    {
        let piece = &pieces[i];
        assert(piece@ == ps[i as int]);
        let len = piece.len();
        let strip = len > 0 && piece[len - 1] == '\r' && (i + 1 < kept || ends_with_newline);
        let mut line: Vec<char> = Vec::new();
        let end = if strip {
            len - 1
        } else {
            len
        };
        let mut k: usize = 0;
        while k < end
            invariant
                k <= end,
                end <= piece@.len(),
                line@ =~= piece@.take(k as int),
            decreases end - k,
        {
            line.push(piece[k]);
            k = k + 1;
        }
        if strip {
            assert(line@ =~= piece@.drop_last());
        } else {
            assert(line@ =~= piece@);
        }
        proof {
            let s = content@;
            let kept_spec = if s.len() > 0 && s.last() == '\n' || s.len() == 0 {
                ps.drop_last()
            } else {
                ps
            };
            assert(kept_spec.len() == kept);
            assert(kept_spec[i as int] == ps[i as int]);
            assert(ends_with_newline == (s.len() > 0 && s.last() == '\n'));
            assert(text_lines(s)[i as int] == line@);
        }
        out.push(string_of(&line));
        i = i + 1;
    }
    assert(texts(out@) =~= text_lines(content@));
    out
}

/// Field `k` of each record that split, without surrounding whitespace; empty
/// where a record has no such field.
pub open spec fn column_of(records: Seq<Option<Seq<Seq<char>>>>, k: int) -> Seq<Seq<char>>
    decreases records.len(),
{
    if records.len() == 0 {
        Seq::empty()
    } else {
        let rest = column_of(records.drop_last(), k);
        match records.last() {
            None => rest,
            Some(fields) => rest.push(if 0 <= k < fields.len() { trim(fields[k]) } else { Seq::empty() }),
        }
    }
}

pub open spec fn record_views(records: Seq<Option<Vec<String>>>) -> Seq<Option<Seq<Seq<char>>>> {
    records.map_values(
        |r: Option<Vec<String>>|
            match r {
                Some(v) => Some(texts(v@)),
                None => None,
            },
    )
}

/// Turns the records that split into `count` columns.
pub fn records_to_columns(records: &Vec<Option<Vec<String>>>, count: usize) -> (r: Vec<Vec<String>>)
    ensures
        r@.len() == count,
        forall|k: int| 0 <= k < count ==> texts((#[trigger] r@[k])@) == column_of(record_views(records@), k),
{
    let ghost rv = record_views(records@);
    let mut out: Vec<Vec<String>> = Vec::new();
    let mut k: usize = 0;
    while k < count
        invariant
            k <= count,
            rv == record_views(records@),
            out@.len() == k,
            forall|j: int| 0 <= j < k ==> texts((#[trigger] out@[j])@) == column_of(rv, j),
        decreases count - k,
    {
        let mut column: Vec<String> = Vec::new();
        let mut i: usize = 0;
        while i < records.len()
            invariant
                i <= records.len(),
                rv == record_views(records@),
                texts(column@) == column_of(rv.take(i as int), k as int),
            decreases records.len() - i,
        {
            assert(rv.take(i + 1).drop_last() =~= rv.take(i as int));
            let ghost before = column@;
            match &records[i] {
                None => {},
                Some(fields) => {
                    assert(texts(fields@) == rv[i as int]->0);
                    if k < fields.len() {
                        let t = trimmed(fields[k].as_str());
                        column.push(string_of(&t));
                    } else {
                        column.push(String::new());
                    }
                    assert(texts(column@) =~= texts(before).push(texts(column@).last()));
                },
            }
            i = i + 1;
        }
        assert(rv.take(records.len() as int) =~= rv);
        out.push(column);
        k = k + 1;
    }
    out
}

/// `w` are the column widths for `lines`: parsed from `width_str`, or, where it
/// is empty, inferred from the columns that are blank in every line.
pub open spec fn widths_for(width_str: Seq<char>, lines: Seq<Seq<char>>, w: Seq<usize>) -> bool {
    if width_str.len() == 0 {
        exists|s: Seq<usize>|
            s.map_values(|x: usize| x as int) == separator_candidates(lines) && strictly_increasing(
                s,
            ) && w.map_values(|x: usize| x as int) == widths_between(run_ends(s, s.len() as int))
    } else {
        widths_parse(width_str) && w.map_values(|x: usize| x as int) == parsed_widths(width_str)
    }
}

/// A character that UTF-8 writes in one byte.
pub open spec fn is_ascii_char(c: char) -> bool {
    (c as u32) < 128
}

/// The fields of `line` from character `k` on, at widths `i` on, are cut at
/// character boundaries: where the rest of the line is no wider than the field,
/// the reader goes to the line's end (or stops); otherwise the field ends at
/// character `k + width`, and where another field follows, the `sep` characters
/// after it exist and are one byte each, so the next field starts at a
/// character boundary.
pub open spec fn fields_fit(line: Seq<char>, widths: Seq<usize>, sep: int, k: int, i: int) -> bool
    decreases widths.len() - i,
{
    if i < 0 || i >= widths.len() || line.len() - k <= widths[i] {
        true
    } else {
        let e = k + widths[i];
        if i + 1 >= widths.len() {
            true
        } else if e + sep <= line.len() && (forall|j: int| e <= j < e + sep ==> is_ascii_char(
            #[trigger] line[j],
        )) {
            fields_fit(line, widths, sep, e + sep, i + 1)
        } else {
            false
        }
    }
}

/// The fixed-width reader can split this line without slicing inside a
/// character: it is empty, or its fields fit as above.
pub open spec fn line_splits_safely(line: Seq<char>, widths: Seq<usize>, sep: usize) -> bool {
    line.len() == 0 || fields_fit(line, widths, sep as int, 0, 0)
}

pub open spec fn splits_safely(content: Seq<char>, widths: Seq<usize>, sep: usize) -> bool {
    forall|i: int|
        0 <= i < text_lines(content).len() ==> line_splits_safely(
            #[trigger] text_lines(content)[i],
            widths,
            sep,
        )
}

/// Whether one line splits safely.
fn line_is_safe(line: &str, widths: &Vec<usize>, sep: usize) -> (r: bool)
    ensures
        r == line_splits_safely(line@, widths@, sep),
{
    let cs = chars_of(line);
    if cs.len() == 0 {
        return true;
    }
    let len = cs.len();
    let mut k: usize = 0;
    let mut i: usize = 0;
    while i < widths.len()
        invariant
            i <= widths.len(),
            cs@ == line@,
            len == cs@.len(),
            len > 0,
            k <= len,
            fields_fit(cs@, widths@, sep as int, 0, 0) == fields_fit(
                cs@,
                widths@,
                sep as int,
                k as int,
                i as int,
            ),
        decreases widths.len() - i,
    {
        let w = widths[i];
        if len - k <= w {
            return true;
        }
        let e = k + w;
        if i + 1 >= widths.len() {
            return true;
        }
        if sep > len - e {
            return false;
        }
        let mut j: usize = e;
        while j < e + sep
            invariant
                e <= j <= e + sep,
                e + sep <= len,
                len == cs@.len(),
                len > 0,
                cs@ == line@,
                k <= len,
                i + 1 < widths@.len(),
                w == widths@[i as int],
                e == k + w,
                len - k > w,
                fields_fit(cs@, widths@, sep as int, 0, 0) == fields_fit(
                    cs@,
                    widths@,
                    sep as int,
                    k as int,
                    i as int,
                ),
                forall|m: int| e <= m < j ==> is_ascii_char(#[trigger] cs@[m]),
            decreases e + sep - j,
        {
            let c = cs[j];
            if (c as u32) >= 128 {
                assert(!is_ascii_char(cs@[j as int]));
                assert(!fields_fit(cs@, widths@, sep as int, k as int, i as int));
                return false;
            }
            j = j + 1;
        }
        k = e + sep;
        i = i + 1;
    }
    true
}

/// Whether every line of the text splits safely.
fn content_is_safe(lines: &Vec<String>, widths: &Vec<usize>, sep: usize) -> (r: bool)
    ensures
        r == (forall|i: int|
            0 <= i < lines@.len() ==> line_splits_safely(#[trigger] lines@[i]@, widths@, sep)),
{
    let mut i: usize = 0;
    while i < lines.len()
        invariant
            i <= lines.len(),
            forall|j: int| 0 <= j < i ==> line_splits_safely(#[trigger] lines@[j]@, widths@, sep),
        decreases lines.len() - i,
    {
        if !line_is_safe(lines[i].as_str(), widths, sep) {
            return false;
        }
        i = i + 1;
    }
    true
}

/// The outcome of splitting a text at fixed widths: the header cells, if asked
/// for, and each record's fields, `None` for a line that does not split.
pub uninterp spec fn fwf_split(
    content: Seq<char>,
    widths: Seq<usize>,
    sep: usize,
    flexible: bool,
    has_header: bool,
) -> Option<(Option<Seq<Seq<char>>>, Seq<Option<Seq<Seq<char>>>>)>;

pub open spec fn distinct_names(names: Seq<Seq<char>>) -> bool {
    forall|i: int, j: int| 0 <= i < j < names.len() ==> names[i] != names[j]
}

/// Each column gets one entry per record that split, whichever column it is.
proof fn lemma_column_len(records: Seq<Option<Seq<Seq<char>>>>, k1: int, k2: int)
    ensures
        column_of(records, k1).len() == column_of(records, k2).len(),
    decreases records.len(),
{
    if records.len() > 0 {
        lemma_column_len(records.drop_last(), k1, k2);
    }
}

proof fn lemma_int_view_injective(a: Seq<usize>, b: Seq<usize>)
    requires
        a.map_values(|x: usize| x as int) == b.map_values(|x: usize| x as int),
    ensures
        a == b,
{
    let fa = a.map_values(|x: usize| x as int);
    let fb = b.map_values(|x: usize| x as int);
    assert(a.len() == fa.len() && b.len() == fb.len());
    assert forall|i: int| 0 <= i < a.len() implies a[i] == b[i] by {
        assert(fa[i] == a[i] as int);
        assert(fb[i] == b[i] as int);
    }
    assert(a =~= b);
}

/// The widths for given lines are determined.
proof fn lemma_widths_unique(width_str: Seq<char>, lines: Seq<Seq<char>>, w1: Seq<usize>, w2: Seq<usize>)
    requires
        widths_for(width_str, lines, w1),
        widths_for(width_str, lines, w2),
    ensures
        w1 == w2,
{
    if width_str.len() == 0 {
        let s1 = choose|s: Seq<usize>|
            s.map_values(|x: usize| x as int) == separator_candidates(lines) && strictly_increasing(
                s,
            ) && w1.map_values(|x: usize| x as int) == widths_between(run_ends(s, s.len() as int));
        let s2 = choose|s: Seq<usize>|
            s.map_values(|x: usize| x as int) == separator_candidates(lines) && strictly_increasing(
                s,
            ) && w2.map_values(|x: usize| x as int) == widths_between(run_ends(s, s.len() as int));
        lemma_int_view_injective(s1, s2);
    }
    lemma_int_view_injective(w1, w2);
}

/// How a fixed-width text file is to be read.
pub struct ReadFwfToDataFrame {
    pub width_str: String,
    pub has_header: bool,
    pub separator_length: usize,
    pub flexible_width: bool,
    pub infer_schema: InferSchema,
}

impl ReadFwfToDataFrame {
    pub fn try_from_args(args: &Args) -> (r: Result<Self, AppError>)
        ensures
            r is Ok,
            r->Ok_0.width_str@ == args.widths@,
            r->Ok_0.has_header == !args.no_header,
            r->Ok_0.separator_length == args.separator_length,
            r->Ok_0.flexible_width == !args.no_flexible_width,
            r->Ok_0.infer_schema == args.infer_schema,
    {
        Ok(ReadFwfToDataFrame {
            width_str: args.widths.clone(),
            has_header: !args.no_header,
            separator_length: args.separator_length,
            flexible_width: !args.no_flexible_width,
            infer_schema: args.infer_schema,
        })
    }

    /// The column widths to read `lines` with: the ones given, or else the ones
    /// inferred from the columns that are blank in every line.
    pub fn widths(&self, lines: &Vec<String>) -> (r: Result<Vec<usize>, AppError>)
        ensures
            self.width_str@.len() == 0 ==> r is Ok && ({
                let c = separator_candidates(texts(lines@));
                exists|s: Seq<usize>|
                    s.map_values(|x: usize| x as int) == c && strictly_increasing(s)
                        && r->Ok_0@.map_values(|x: usize| x as int) == widths_between(
                        run_ends(s, s.len() as int),
                    )
            }),
            self.width_str@.len() > 0 ==> (r is Ok <==> widths_parse(self.width_str@)),
            self.width_str@.len() > 0 && r is Ok ==> r->Ok_0@.map_values(|x: usize| x as int)
                == parsed_widths(self.width_str@),
            r is Err ==> r == Err::<Vec<usize>, AppError>(AppError::InvalidNumber),
            r is Ok ==> widths_for(self.width_str@, texts(lines@), r->Ok_0@),
    {
        if self.width_str.as_str().unicode_len() == 0 {
            let candidates = common_space_indices(lines);
            let ghost s = candidates@;
            let w = infer_widths(candidates);
            assert(s.map_values(|x: usize| x as int) == separator_candidates(texts(lines@)));
            Ok(w)
        } else {
            parse_width(self.width_str.as_str())
        }
    }

    /// Reads the text of a fixed-width file into a table of text columns, typed
    /// afterwards where inference is asked for.
    pub fn read_text(&self, content: &str) -> (r: Result<DataFrame, AppError>)
        ensures
            (r == Err::<DataFrame, AppError>(AppError::InvalidNumber)) <==> (self.width_str@.len()
                > 0 && !widths_parse(self.width_str@)),
            r is Err ==> r->Err_0 == AppError::InvalidNumber || r->Err_0 == AppError::Read,
            forall|w: Seq<usize>|
                #[trigger] widths_for(self.width_str@, text_lines(content@), w) ==> (r is Ok <==> {
                    let split = fwf_split(
                        content@,
                        w,
                        self.separator_length,
                        self.flexible_width,
                        self.has_header,
                    );
                    let names = names_spec(self.has_header, (split->0).0, w.len());
                    &&& splits_safely(content@, w, self.separator_length)
                    &&& split is Some
                    &&& names.len() == w.len()
                    &&& distinct_names(names)
                }),
            r is Ok ==> exists|w: Seq<usize>|
                #[trigger] widths_for(self.width_str@, text_lines(content@), w) && frame_cols(
                    r->Ok_0,
                ) == w.len() && frame_names(r->Ok_0) == names_spec(
                    self.has_header,
                    (fwf_split(
                        content@,
                        w,
                        self.separator_length,
                        self.flexible_width,
                        self.has_header,
                    )->0).0,
                    w.len(),
                ),
    {
        let lines = lines_of(content);
        let widths = self.widths(&lines)?;
        proof {
            assert(texts(lines@) == text_lines(content@));
            assert forall|w: Seq<usize>| #[trigger]
                widths_for(self.width_str@, text_lines(content@), w) implies w == widths@ by {
                lemma_widths_unique(self.width_str@, text_lines(content@), w, widths@);
            }
        }
        let count = widths.len();
        if !content_is_safe(&lines, &widths, self.separator_length) {
            assert(!splits_safely(content@, widths@, self.separator_length)) by {
                let i = choose|i: int|
                    0 <= i < lines@.len() && !line_splits_safely(
                        #[trigger] lines@[i]@,
                        widths@,
                        self.separator_length,
                    );
                assert(text_lines(content@)[i] == lines@[i]@);
            }
            return Err(AppError::Read);
        }
        assert(splits_safely(content@, widths@, self.separator_length)) by {
            assert forall|i: int| 0 <= i < text_lines(content@).len() implies line_splits_safely(
                #[trigger] text_lines(content@)[i],
                widths@,
                self.separator_length,
            ) by {
                assert(text_lines(content@)[i] == lines@[i]@);
            }
        }
        let (header, records) = match fwf_records(
            content,
            &widths,
            self.separator_length,
            self.flexible_width,
            self.has_header,
        ) {
            Ok(parts) => parts,
            Err(_) => {
                return Err(AppError::Read);
            },
        };
        let names = column_names(self.has_header, header, count);
        if names.len() != count {
            return Err(AppError::Read);
        }
        let columns = records_to_columns(&records, count);
        proof {
            assert forall|k: int| 0 <= k < columns@.len() implies (#[trigger] columns@[k])@.len()
                == columns@[0]@.len() by {
                lemma_column_len(record_views(records@), k, 0);
            }
        }
        let mut df = match frame_of_columns(&names, columns) {
            Ok(df) => df,
            Err(_) => {
                return Err(AppError::Read);
            },
        };
        if self.wants_inference() {
            df.safe_infer_schema();
        }
        Ok(df)
    }

    /// Whether the loaded table should go through type inference.
    pub fn wants_inference(&self) -> (r: bool)
        ensures
            r == !(self.infer_schema is No),
    {
        match self.infer_schema {
            InferSchema::No => false,
            _ => true,
        }
    }
}

/// Column widths from the sorted candidate separator positions: a run of
/// adjacent positions is one separator and ends the column before it.
pub fn infer_widths(space_indices: Vec<usize>) -> (r: Vec<usize>)
    requires
        strictly_increasing(space_indices@),
    ensures
        r@.map_values(|x: usize| x as int) == widths_between(
            run_ends(space_indices@, space_indices@.len() as int),
        ),
{
    let ghost s = space_indices@;
    let mut indices: Vec<usize> = Vec::new();
    let mut start: usize = 0;
    let mut i: usize = 0;
    while i < space_indices.len()
        invariant
            s == space_indices@,
            strictly_increasing(s),
            i <= s.len(),
            indices@.map_values(|x: usize| x as int) =~= widths_between(run_ends(s, i as int)),
            run_ends(s, i as int).len() == 0 ==> start == 0,
            run_ends(s, i as int).len() > 0 ==> i > 0 && run_ends(s, i as int).last() <= s[i
                - 1],
            run_ends(s, i as int).len() > 0 && i < s.len() ==> start == run_ends(
                s,
                i as int,
            ).last() + 1,
        decreases s.len() - i,
    {
        let idx = space_indices[i];
        let ghost e = run_ends(s, i as int);
        let ghost old_ind = indices@;
        if i + 1 < space_indices.len() {
            let nidx = space_indices[i + 1];
            if nidx - idx > 1 {
                indices.push(idx - start);
                assert(indices@.map_values(|x: usize| x as int) =~= old_ind.map_values(
                    |x: usize| x as int,
                ).push((idx - start) as int));
                start = idx + 1;
                assert(run_ends(s, i + 1) == e.push(idx as int));
                assert(widths_between(e.push(idx as int)) =~= widths_between(e).push(
                    if e.len() == 0 { idx as int } else { idx - e.last() - 1 },
                ));
            } else {
                assert(run_ends(s, i + 1) == e);
            }
        } else {
            indices.push(idx - start);
            assert(run_ends(s, i + 1) == e.push(idx as int));
            assert(indices@.map_values(|x: usize| x as int) =~= old_ind.map_values(
                |x: usize| x as int,
            ).push((idx - start) as int));
            assert(widths_between(e.push(idx as int)) =~= widths_between(e).push(
                if e.len() == 0 { idx as int } else { idx - e.last() - 1 },
            ));
        }
        i = i + 1;
    }
    indices
}

/// After the first column, no inferred column is empty: a single blank column
/// between two fields is a separator, not a column of its own.
pub proof fn lemma_no_empty_inner_column(s: Seq<usize>, j: int)
    requires
        strictly_increasing(s),
        1 <= j < run_ends(s, s.len() as int).len(),
    ensures
        widths_between(run_ends(s, s.len() as int))[j] >= 1,
{
    lemma_run_ends_gapped(s, s.len() as int);
}

proof fn lemma_run_ends_gapped(s: Seq<usize>, n: int)
    requires
        strictly_increasing(s),
        0 <= n <= s.len(),
    ensures
        forall|j: int|
            1 <= j < run_ends(s, n).len() ==> #[trigger] run_ends(s, n)[j] >= run_ends(s, n)[j
                - 1] + 2,
        run_ends(s, n).len() > 0 ==> run_ends(s, n).last() <= s[n - 1],
        forall|j: int| 0 <= j < run_ends(s, n).len() ==> exists|k: int|
            0 <= k < n && run_end(s, k) && #[trigger] run_ends(s, n)[j] == s[k],
    decreases n,
{
    if n > 0 {
        lemma_run_ends_gapped(s, n - 1);
        let e = run_ends(s, n - 1);
        if run_end(s, n - 1) && e.len() > 0 {
            let k = choose|k: int| 0 <= k < n - 1 && run_end(s, k) && e.last() == s[k];
            assert(k + 1 <= n - 1);
            assert(s[k + 1] <= s[n - 1]) by {
                if k + 1 < n - 1 {
                }
            }
        }
        if !run_end(s, n - 1) && e.len() > 0 {
            assert(s[n - 2] < s[n - 1]);
        }
    }
}

/// Without any shared blank column the text is one column as wide as its longest line.
pub proof fn lemma_single_column(len: usize)
    ensures
        widths_between(run_ends(seq![len], 1)) == seq![len as int],
{
    assert(run_ends(seq![len], 0) =~= Seq::<int>::empty());
    assert(widths_between(run_ends(seq![len], 1)) =~= seq![len as int]);
}

} // verus!
