use vstd::prelude::*;

use polars::frame::DataFrame;
use polars::prelude::AnyValue;
use polars::series::Series;
use unicode_width::UnicodeWidthStr;

use crate::frame::{
    frame_cols, frame_column, frame_column_names, frame_height, frame_names, frame_rows,
    frame_values, frame_width, series_label, series_values,
};
use crate::fuzzy::is_subseq;
use crate::fwf::{lines_of, text_lines};
use crate::history::texts;
use crate::number::{decimal, usize_text};
use crate::text::{chars_of, string_of};

verus! {

/// One value of a table, as the viewer shows it.
#[derive(Debug, Clone, PartialEq, Eq)]
pub enum CellValue {
    Null,
    Text(String),
    Binary(Vec<u8>),
    /// Any other value, by its display text.
    Other(String),
}

/// Appends `extra` to `out`.
fn push_all(out: &mut Vec<char>, extra: &Vec<char>)
    ensures
        final(out)@ == old(out)@ + extra@,
{
    let mut i: usize = 0;
    while i < extra.len()
        invariant
            i <= extra.len(),
            out@ == old(out)@ + extra@.take(i as int),
        decreases extra.len() - i,
    {
        out.push(extra[i]);
        i = i + 1;
        assert(out@ =~= old(out)@ + extra@.take(i as int));
    }
    assert(extra@.take(extra.len() as int) =~= extra@);
}

/// The uppercase hexadecimal digit for `d < 16`.
pub open spec fn hex_digit(d: nat) -> char {
    "0123456789ABCDEF"@[d as int]
}

/// A byte as two hexadecimal digits.
pub open spec fn hex_byte(b: u8) -> Seq<char> {
    seq![hex_digit(b as nat / 16), hex_digit(b as nat % 16)]
}

/// Bytes as hexadecimal pairs separated by single spaces.
pub open spec fn hex_group(bs: Seq<u8>) -> Seq<char>
    decreases bs.len(),
{
    if bs.len() == 0 {
        Seq::empty()
    } else if bs.len() == 1 {
        hex_byte(bs[0])
    } else {
        hex_group(bs.drop_last()).push(' ') + hex_byte(bs.last())
    }
}

/// Up to 16 bytes of a dump line: two groups of eight, three spaces apart.
pub open spec fn hex_line_body(bs: Seq<u8>) -> Seq<char> {
    if bs.len() <= 8 {
        hex_group(bs)
    } else {
        hex_group(bs.take(8)) + "   "@ + hex_group(bs.skip(8))
    }
}

/// `n` in decimal, padded with zeros on the left to `w` characters.
pub open spec fn zero_padded(n: nat, w: nat) -> Seq<char> {
    let d = decimal(n);
    if d.len() < w {
        Seq::new((w - d.len()) as nat, |i: int| '0') + d
    } else {
        d
    }
}

/// Width of the line numbers of a dump of `len` bytes: the digits of `len / 16`,
/// rounded up to an even count.
pub open spec fn index_width(len: nat) -> nat {
    let w = decimal(len / 16).len();
    if w % 2 == 0 {
        w
    } else {
        w + 1
    }
}

/// Line `idx` of the dump: its number, then the bytes from `16 * idx` on.
pub open spec fn dump_line(bs: Seq<u8>, w: nat, idx: nat) -> Seq<char> {
    let start: int = 16 * idx as int;
    let end: int = if start + 16 < bs.len() {
        start + 16
    } else {
        bs.len() as int
    };
    zero_padded(idx, w) + ":  "@ + hex_line_body(bs.subrange(start, end))
}

/// The first `n` dump lines, joined by newlines.
pub open spec fn dump_lines(bs: Seq<u8>, w: nat, n: nat) -> Seq<char>
    decreases n,
{
    if n == 0 {
        Seq::empty()
    } else if n == 1 {
        dump_line(bs, w, 0)
    } else {
        dump_lines(bs, w, (n - 1) as nat).push('\n') + dump_line(bs, w, (n - 1) as nat)
    }
}

/// The size line of a binary value.
pub open spec fn blob_title(len: nat) -> Seq<char> {
    "Blob (Length: "@ + decimal(len) + ")"@
}

/// A binary value in full: its size, then a numbered hexadecimal dump, 16 bytes a line.
pub open spec fn blob_dump(bs: Seq<u8>) -> Seq<char> {
    blob_title(bs.len()) + "\n"@ + dump_lines(bs, index_width(bs.len()), ((bs.len() + 15) / 16) as nat)
}

fn hex_char(d: u8) -> (r: char)
    requires
        d < 16,
    ensures
        r == hex_digit(d as nat),
{
    let digits = "0123456789ABCDEF";
    proof {
        reveal_strlit("0123456789ABCDEF");
    }
    digits.get_char(d as usize)
}

/// Appends the bytes `bs[a..b]` as a hexadecimal group.
fn push_hex_group(out: &mut Vec<char>, bs: &Vec<u8>, a: usize, b: usize)
    requires
        a <= b <= bs.len(),
    ensures
        final(out)@ == old(out)@ + hex_group(bs@.subrange(a as int, b as int)),
{
    let mut j: usize = a;
    assert(bs@.subrange(a as int, a as int) =~= Seq::<u8>::empty());
    while j < b
        invariant
            a <= j <= b,
            b <= bs.len(),
            out@ == old(out)@ + hex_group(bs@.subrange(a as int, j as int)),
        decreases b - j,
    {
        let ghost before = out@;
        if j > a {
            out.push(' ');
        }
        let byte = bs[j];
        out.push(hex_char(byte / 16));
        out.push(hex_char(byte % 16));
        let ghost g = bs@.subrange(a as int, j + 1);
        assert(g.drop_last() =~= bs@.subrange(a as int, j as int));
        assert(g.last() == byte);
        if j > a {
            assert(out@ =~= old(out)@ + hex_group(g));
        } else {
            assert(g =~= seq![byte]);
            assert(out@ =~= old(out)@ + hex_group(g));
        }
        j = j + 1;
    }
}

/// Appends `n` in decimal, padded with zeros to `w` characters.
fn push_padded(out: &mut Vec<char>, n: usize, w: usize)
    ensures
        final(out)@ == old(out)@ + zero_padded(n as nat, w as nat),
{
    let d = chars_of(usize_text(n).as_str());
    let mut k: usize = d.len();
    while k < w
        invariant
            d.len() <= k <= w || (k == d.len() && k >= w),
            d@ == decimal(n as nat),
            out@ == old(out)@ + Seq::new((k - d.len()) as nat, |i: int| '0'),
        decreases w - k,
    {
        out.push('0');
        k = k + 1;
        assert(out@ =~= old(out)@ + Seq::new((k - d.len()) as nat, |i: int| '0'));
    }
    let ghost zeros = out@;
    push_all(out, &d);
    if d.len() < w {
        assert(out@ =~= old(out)@ + zero_padded(n as nat, w as nat));
    } else {
        assert(out@ =~= old(out)@ + zero_padded(n as nat, w as nat));
    }
}

/// Appends line `idx` of the dump of `buf`.
fn push_dump_line(out: &mut Vec<char>, buf: &Vec<u8>, width: usize, idx: usize)
    requires
        16 * idx < buf.len(),
    ensures
        final(out)@ == old(out)@ + dump_line(buf@, width as nat, idx as nat),
{
    let len = buf.len();
    push_padded(out, idx, width);
    let sep = chars_of(":  ");
    push_all(out, &sep);
    let start = 16 * idx;
    let end = if len - start > 16 {
        start + 16
    } else {
        len
    };
    let ghost bs = buf@.subrange(start as int, end as int);
    if end - start <= 8 {
        push_hex_group(out, buf, start, end);
        assert(out@ =~= old(out)@ + dump_line(buf@, width as nat, idx as nat));
    } else {
        push_hex_group(out, buf, start, start + 8);
        let gap = chars_of("   ");
        push_all(out, &gap);
        push_hex_group(out, buf, start + 8, end);
        assert(bs.take(8) =~= buf@.subrange(start as int, start + 8));
        assert(bs.skip(8) =~= buf@.subrange(start + 8, end as int));
        assert(out@ =~= old(out)@ + dump_line(buf@, width as nat, idx as nat));
    }
}

proof fn lemma_decimal_len(n: nat)
    ensures
        decimal(n).len() <= n + 1,
    decreases n,
{
    if n >= 10 {
        lemma_decimal_len(n / 10);
    }
}

/// A binary value as its size followed by a hexadecimal dump.
pub fn bytes_to_string(buf: &Vec<u8>) -> (r: String)
    ensures
        r@ == blob_dump(buf@),
{
    let len = buf.len();
    let digits = usize_text(len / 16).as_str().unicode_len();
    proof {
        lemma_decimal_len((len / 16) as nat);
    }
    let width = if digits % 2 == 0 {
        digits
    } else {
        digits + 1
    };
    let mut out = chars_of("Blob (Length: ");
    let number = chars_of(usize_text(len).as_str());
    push_all(&mut out, &number);
    let close = chars_of(")\n");
    push_all(&mut out, &close);
    proof {
        reveal_strlit(")\n");
        reveal_strlit(")");
        reveal_strlit("\n");
    }
    assert(out@ =~= blob_title(len as nat) + "\n"@);
    let ghost head = out@;
    let rows = len / 16 + if len % 16 == 0 { 0 } else { 1 };
    assert(rows == (len + 15) / 16);
    let mut idx: usize = 0;
    while idx < rows
        invariant
            idx <= rows,
            rows == (len + 15) / 16,
            len == buf@.len(),
            width == index_width(len as nat),
            out@ == head + dump_lines(buf@, width as nat, idx as nat),
        decreases rows - idx,
    {
        let ghost before = out@;
        if idx > 0 {
            out.push('\n');
        }
        assert(16 * idx < len) by (nonlinear_arith)
            requires
                idx < rows,
                rows == (len + 15) / 16,
        ;
        push_dump_line(&mut out, buf, width, idx);
        idx = idx + 1;
        assert(out@ =~= head + dump_lines(buf@, width as nat, idx as nat));
    }
    string_of(&out)
}

/// The text of a value on one line: binary data by its size only.
pub open spec fn single_line_text(v: CellValue) -> Seq<char> {
    match v {
        CellValue::Null => Seq::empty(),
        CellValue::Text(t) => t@,
        CellValue::Binary(b) => blob_title(b@.len()),
        CellValue::Other(t) => t@,
    }
}

/// The full text of a value: binary data with its hexadecimal dump.
pub open spec fn multi_line_text(v: CellValue) -> Seq<char> {
    match v {
        CellValue::Null => Seq::empty(),
        CellValue::Text(t) => t@,
        CellValue::Binary(b) => blob_dump(b@),
        CellValue::Other(t) => t@,
    }
}

/// Ways to show a value as text.
pub trait IntoString {
    fn into_single_line(self) -> String;

    fn into_multi_line(self) -> String;
}

impl CellValue {
    pub fn single_line(&self) -> (r: String)
        ensures
            r@ == single_line_text(*self),
    {
        match self {
            CellValue::Null => String::new(),
            CellValue::Text(t) => t.clone(),
            CellValue::Binary(b) => {
                let mut out = chars_of("Blob (Length: ");
                let number = chars_of(usize_text(b.len()).as_str());
                push_all(&mut out, &number);
                let close = chars_of(")");
                push_all(&mut out, &close);
                string_of(&out)
            },
            CellValue::Other(t) => t.clone(),
        }
    }

    pub fn multi_line(&self) -> (r: String)
        ensures
            r@ == multi_line_text(*self),
    {
        match self {
            CellValue::Binary(b) => bytes_to_string(b),
            _ => self.single_line(),
        }
    }
}

impl IntoString for CellValue {
    fn into_single_line(self) -> String {
        self.single_line()
    }

    fn into_multi_line(self) -> String {
        self.multi_line()
    }
}

/// The number of terminal columns a text takes.
pub uninterp spec fn display_width(s: Seq<char>) -> nat;

/// Relies on `UnicodeWidthStr::width` of unicode-width: the displayed width in
/// terminal columns, 0 for the empty string.
#[verifier::external_body]
fn text_width(s: &str) -> (r: usize)
    ensures
        r == display_width(s@),
        s@.len() == 0 ==> r == 0,
{
    s.width()
}

/// Terminal rows one line of display width `w` takes when wrapped at `width`
/// columns; an empty line, or no width, takes one.
pub open spec fn rows_for(w: nat, width: nat) -> nat {
    if width == 0 || w == 0 {
        1
    } else {
        w / width + if w % width == 0 { 0nat } else { 1nat }
    }
}

/// Terminal rows the lines take, wrapped at `width` columns.
pub open spec fn wrapped_rows(lines: Seq<Seq<char>>, width: nat) -> nat
    decreases lines.len(),
{
    if lines.len() == 0 {
        0
    } else {
        wrapped_rows(lines.drop_last(), width) + rows_for(display_width(lines.last()), width)
    }
}

/// Terminal rows a text takes wrapped at `width` columns: at least one, and
/// at most `usize::MAX`.
pub fn wrapped_line_count(text: &str, width: usize) -> (r: usize)
    ensures
        r == ({
            let total = wrapped_rows(text_lines(text@), width as nat);
            if total == 0 {
                1
            } else if total > usize::MAX {
                usize::MAX as nat
            } else {
                total
            }
        }),
{
    let lines = lines_of(text);
    let ghost ls = text_lines(text@);
    let mut acc: usize = 0;
    let mut k: usize = 0;
    while k < lines.len()
        invariant
            k <= lines.len(),
            texts(lines@) == ls,
            acc == if wrapped_rows(ls.take(k as int), width as nat) > usize::MAX {
                usize::MAX as nat
            } else {
                wrapped_rows(ls.take(k as int), width as nat)
            },
        decreases lines.len() - k,
    {
        assert(ls.take(k + 1).drop_last() =~= ls.take(k as int));
        assert(ls.take(k + 1).last() == lines@[k as int]@);
        let w = text_width(lines[k].as_str());
        let rows = if width == 0 || w == 0 {
            1
        } else {
            assert(w % width != 0 ==> w / width < usize::MAX) by (nonlinear_arith)
                requires
                    width > 0,
                    w <= usize::MAX,
            {
                assert(w == (w / width) * width + w % width);
                assert((w / width) * width >= w / width);
            }
            w / width + if w % width == 0 { 0 } else { 1 }
        };
        acc = if acc > usize::MAX - rows {
            usize::MAX
        } else {
            acc + rows
        };
        k = k + 1;
    }
    assert(ls.take(lines.len() as int) =~= ls);
    if acc == 0 {
        1
    } else {
        acc
    }
}

/// Index of the first newline at or after `i`, or the length.
pub open spec fn newline_from(s: Seq<char>, i: int) -> int
    decreases s.len() - i,
{
    if i < 0 || i >= s.len() {
        s.len() as int
    } else if s[i] == '\n' {
        i
    } else {
        newline_from(s, i + 1)
    }
}

/// The first line of a text, without its line ending (`\n` or `\r\n`).
pub open spec fn first_line(s: Seq<char>) -> Seq<char> {
    let p = newline_from(s, 0);
    let l = s.take(p);
    if p < s.len() && l.len() > 0 && l.last() == '\r' {
        l.drop_last()
    } else {
        l
    }
}

fn first_line_of(s: &str) -> (r: String)
    ensures
        r@ == first_line(s@),
{
    let cs = chars_of(s);
    let mut p: usize = 0;
    while p < cs.len() && cs[p] != '\n'
        invariant
            p <= cs.len(),
            newline_from(cs@, 0) == newline_from(cs@, p as int),
        decreases cs.len() - p,
    {
        p = p + 1;
    }
    let mut end = p;
    if p < cs.len() && p > 0 && cs[p - 1] == '\r' {
        end = p - 1;
    }
    let mut out: Vec<char> = Vec::new();
    let mut k: usize = 0;
    while k < end
        invariant
            k <= end,
            end <= cs.len(),
            out@ =~= cs@.take(k as int),
        decreases end - k,
    {
        out.push(cs[k]);
        k = k + 1;
    }
    assert(out@ =~= first_line(cs@));
    string_of(&out)
}

/// The widest first line among the values' full texts.
pub open spec fn widest_first_line(cells: Seq<CellValue>) -> nat
    decreases cells.len(),
{
    if cells.len() == 0 {
        0
    } else {
        let w = display_width(first_line(multi_line_text(cells.last())));
        let m = widest_first_line(cells.drop_last());
        if w > m {
            w
        } else {
            m
        }
    }
}

/// Columns needed to show a column: its widest first line, or its name if wider.
pub fn column_width(cells: &Vec<CellValue>, name: &str) -> (r: usize)
    ensures
        r == if widest_first_line(cells@) > display_width(name@) {
            widest_first_line(cells@)
        } else {
            display_width(name@)
        },
{
    let mut widest: usize = 0;
    let mut i: usize = 0;
    while i < cells.len()
        invariant
            i <= cells.len(),
            widest == widest_first_line(cells@.take(i as int)),
        decreases cells.len() - i,
    {
        assert(cells@.take(i + 1).drop_last() =~= cells@.take(i as int));
        let text = cells[i].multi_line();
        let line = first_line_of(text.as_str());
        let w = text_width(line.as_str());
        if w > widest {
            widest = w;
        }
        i = i + 1;
    }
    assert(cells@.take(cells.len() as int) =~= cells@);
    let own = text_width(name);
    if widest > own {
        widest
    } else {
        own
    }
}

/// Whether the query fuzzily matches a value; a null matches nothing.
pub open spec fn cell_matches(v: CellValue, query: Seq<char>) -> bool {
    match v {
        CellValue::Null => false,
        _ => is_subseq(query, multi_line_text(v)),
    }
}

pub trait FuzzyCmp: Sized {
    /// Whether `query` fuzzily matches the value.
    spec fn fuzzy_spec(self, query: Seq<char>) -> bool;

    fn fuzzy_cmp(self, other: &str) -> (r: bool)
        ensures
            r == self.fuzzy_spec(other@),
    ;
}

impl CellValue {
    pub fn fuzzy_matches(&self, other: &str) -> (r: bool)
        ensures
            r == cell_matches(*self, other@),
    {
        match self {
            CellValue::Null => false,
            CellValue::Text(t) => crate::fuzzy::matches(t.as_str(), other),
            _ => {
                let text = self.multi_line();
                crate::fuzzy::matches(text.as_str(), other)
            },
        }
    }
}

impl FuzzyCmp for CellValue {
    open spec fn fuzzy_spec(self, query: Seq<char>) -> bool {
        cell_matches(self, query)
    }

    fn fuzzy_cmp(self, other: &str) -> (r: bool) {
        self.fuzzy_matches(other)
    }
}

/// Relies on `Series::len`: the number of values.
#[verifier::external_body]
fn series_len(s: &Series) -> (r: usize)
    ensures
        r == series_values(*s).len(),
{
    s.len()
}

/// Relies on `Series::name`: the series' name.
#[verifier::external_body]
pub(crate) fn series_name(s: &Series) -> (r: String)
    ensures
        r@ == series_label(*s),
{
    s.name().to_string()
}

/// `seen` is what reading value `v` gives: `v` itself, except that of an
/// `Other` value only the kind is fixed, its text following display settings.
pub open spec fn reads_as(seen: CellValue, v: CellValue) -> bool {
    if v is Other {
        seen is Other
    } else {
        seen == v
    }
}

pub open spec fn column_reads_as(seen: Seq<CellValue>, vs: Seq<CellValue>) -> bool {
    seen.len() == vs.len() && forall|i: int| 0 <= i < vs.len() ==> reads_as(#[trigger] seen[i], vs[i])
}

pub open spec fn frame_reads_as(seen: Seq<Seq<CellValue>>, vs: Seq<Seq<CellValue>>) -> bool {
    seen.len() == vs.len() && forall|j: int|
        0 <= j < vs.len() ==> column_reads_as(#[trigger] seen[j], vs[j])
}

/// Relies on `Series::get` and, for values other than text and bytes, on the
/// `Display` of `AnyValue`: value `i` of the series; null where there is none.
#[verifier::external_body]
fn cell_at(s: &Series, i: usize) -> (r: CellValue)
    ensures
        i < series_values(*s).len() ==> reads_as(r, series_values(*s)[i as int]),
{
    match s.get(i) {
        Ok(AnyValue::Null) | Err(_) => CellValue::Null,
        Ok(AnyValue::String(v)) => CellValue::Text(v.to_owned()),
        Ok(AnyValue::StringOwned(v)) => CellValue::Text(v.to_string()),
        Ok(AnyValue::Binary(b)) => CellValue::Binary(b.to_vec()),
        Ok(AnyValue::BinaryOwned(b)) => CellValue::Binary(b),
        Ok(other) => CellValue::Other(other.to_string()),
    }
}

/// The values of a series, in order.
pub fn series_cells(s: &Series) -> (r: Vec<CellValue>)
    ensures
        column_reads_as(r@, series_values(*s)),
{
    let n = series_len(s);
    let mut out: Vec<CellValue> = Vec::new();
    let mut i: usize = 0;
    while i < n
        invariant
            i <= n,
            n == series_values(*s).len(),
            out@.len() == i,
            forall|j: int| 0 <= j < i ==> reads_as(#[trigger] out@[j], series_values(*s)[j]),
        decreases n - i,
    {
        out.push(cell_at(s, i));
        i = i + 1;
    }
    out
}

pub trait TuiWidths {
    /// How many widths `self` has: one per column.
    spec fn width_count(&self) -> nat;

    fn tui_widths(&self) -> (r: Vec<usize>)
        ensures
            r@.len() == self.width_count(),
    ;
}

impl TuiWidths for DataFrame {
    open spec fn width_count(&self) -> nat {
        frame_cols(*self)
    }

    /// The width each column needs on screen.
    fn tui_widths(&self) -> (r: Vec<usize>) {
        let width = frame_width(self);
        let mut out: Vec<usize> = Vec::new();
        let mut i: usize = 0;
        while i < width
            invariant
                i <= width,
                width == frame_cols(*self),
                out@.len() == i,
            decreases width - i,
        {
            if let Some(column) = frame_column(self, i) {
                let cells = series_cells(&column);
                let name = series_name(&column);
                out.push(column_width(&cells, name.as_str()));
            }
            i = i + 1;
        }
        out
    }
}

/// One field of the detail view: a column name and the row's value in full.
pub struct SheetSection {
    pub header: String,
    pub content: String,
}

/// The detail sections of a row: each header with the matching value's full
/// text, as many as there are both headers and values.
pub fn sheet_sections(headers: &Vec<String>, values: &Vec<CellValue>) -> (r: Vec<SheetSection>)
    ensures
        r@.len() == if headers@.len() < values@.len() {
            headers@.len()
        } else {
            values@.len()
        },
        forall|i: int|
            0 <= i < r@.len() ==> (#[trigger] r@[i]).header@ == headers@[i]@ && r@[i].content@
                == multi_line_text(values@[i]),
{
    let n = if headers.len() < values.len() {
        headers.len()
    } else {
        values.len()
    };
    let mut out: Vec<SheetSection> = Vec::new();
    let mut i: usize = 0;
    while i < n
        invariant
            i <= n,
            n <= headers.len(),
            n <= values.len(),
            out@.len() == i,
            forall|j: int|
                0 <= j < i ==> (#[trigger] out@[j]).header@ == headers@[j]@ && out@[j].content@
                    == multi_line_text(values@[j]),
        decreases n - i,
    {
        out.push(SheetSection { header: headers[i].clone(), content: values[i].multi_line() });
        i = i + 1;
    }
    out
}

pub trait GetSheetSections {
    /// `sections` are the detail sections of row `pos`.
    spec fn sections_of(&self, pos: usize, sections: Seq<SheetSection>) -> bool;

    fn get_sheet_sections(&self, pos: usize) -> (r: Vec<SheetSection>)
        ensures
            self.sections_of(pos, r@),
    ;
}

impl GetSheetSections for DataFrame {
    /// One section per column for a row of the table, in order: the column's
    /// name and the full text of its value; none past the last row.
    open spec fn sections_of(&self, pos: usize, sections: Seq<SheetSection>) -> bool {
        if pos < frame_rows(*self) {
            &&& sections.len() == frame_cols(*self)
            &&& forall|j: int|
                0 <= j < sections.len() ==> (#[trigger] sections[j]).header@ == frame_names(
                    *self,
                )[j] && exists|seen: CellValue|
                    reads_as(seen, frame_values(*self)[j][pos as int]) && sections[j].content@
                        == multi_line_text(seen)
        } else {
            sections.len() == 0
        }
    }

    /// The detail sections of row `pos`; none past the last row.
    fn get_sheet_sections(&self, pos: usize) -> (r: Vec<SheetSection>) {
        let headers = frame_column_names(self);
        let mut values: Vec<CellValue> = Vec::new();
        if pos < frame_height(self) {
            let width = frame_width(self);
            let mut i: usize = 0;
            while i < width
                invariant
                    i <= width,
                    width == frame_cols(*self),
                    pos < frame_rows(*self),
                    values@.len() == i,
                    forall|j: int|
                        0 <= j < i ==> reads_as(
                            #[trigger] values@[j],
                            frame_values(*self)[j][pos as int],
                        ),
                decreases width - i,
            {
                if let Some(column) = frame_column(self, i) {
                    values.push(cell_at(&column, pos));
                }
                i = i + 1;
            }
        }
        let r = sheet_sections(&headers, &values);
        proof {
            if pos < frame_rows(*self) {
                assert forall|j: int| 0 <= j < r@.len() implies (#[trigger] r@[j]).header@
                    == frame_names(*self)[j] && exists|seen: CellValue|
                    reads_as(seen, frame_values(*self)[j][pos as int]) && r@[j].content@
                        == multi_line_text(seen) by {
                    assert(headers@.map_values(|n: String| n@)[j] == headers@[j]@);
                    assert(reads_as(values@[j], frame_values(*self)[j][pos as int]));
                }
            }
        }
        r
    }
}

/// Row `i` has a value that the query fuzzily matches.
pub open spec fn row_matches(columns: Seq<Seq<CellValue>>, i: int, query: Seq<char>) -> bool {
    exists|c: int|
        0 <= c < columns.len() && 0 <= i < columns[c].len() && cell_matches(
            #[trigger] columns[c][i],
            query,
        )
}

/// The rows below `n` that the query matches, in order.
pub open spec fn rows_matching(columns: Seq<Seq<CellValue>>, query: Seq<char>, n: nat) -> Seq<
    usize,
>
    decreases n,
{
    if n == 0 {
        Seq::empty()
    } else if row_matches(columns, n - 1, query) {
        rows_matching(columns, query, (n - 1) as nat).push((n - 1) as usize)
    } else {
        rows_matching(columns, query, (n - 1) as nat)
    }
}

/// The views of a list of columns.
pub open spec fn column_views(columns: Seq<Vec<CellValue>>) -> Seq<Seq<CellValue>> {
    columns.map_values(|c: Vec<CellValue>| c@)
}

/// The rows, among the first `height`, that hold a value the query matches.
pub fn matching_rows(columns: &Vec<Vec<CellValue>>, height: usize, query: &str) -> (r: Vec<usize>)
    ensures
        r@ == rows_matching(column_views(columns@), query@, height as nat),
{
    let ghost cols = column_views(columns@);
    let mut out: Vec<usize> = Vec::new();
    let mut i: usize = 0;
    while i < height
        invariant
            i <= height,
            cols == column_views(columns@),
            out@ == rows_matching(cols, query@, i as nat),
        decreases height - i,
    {
        let mut found = false;
        let mut c: usize = 0;
        while c < columns.len() && !found
            invariant
                c <= columns.len(),
                cols == column_views(columns@),
                found ==> row_matches(cols, i as int, query@),
                !found ==> forall|d: int|
                    0 <= d < c ==> !(i < cols[d].len() && cell_matches(
                        #[trigger] cols[d][i as int],
                        query@,
                    )),
            decreases (columns.len() - c) as int + if found { 0int } else { 1int },
        {
            assert(cols[c as int] == columns@[c as int]@);
            if i < columns[c].len() && columns[c][i].fuzzy_matches(query) {
                found = true;
            } else {
                c = c + 1;
            }
        }
        if found {
            out.push(i);
        }
        i = i + 1;
    }
    out
}

/// The one-line texts of row `row`, column by column; empty past the last row.
pub fn row_texts(df: &DataFrame, row: usize) -> (r: Vec<String>) {
    let mut out: Vec<String> = Vec::new();
    if row < frame_height(df) {
        let width = frame_width(df);
        let mut i: usize = 0;
        while i < width
            invariant
                i <= width,
            decreases width - i,
        {
            if let Some(column) = frame_column(df, i) {
                out.push(cell_at(&column, row).single_line());
            }
            i = i + 1;
        }
    }
    out
}

/// All values of a table, column by column.
pub fn frame_cells(df: &DataFrame) -> (r: Vec<Vec<CellValue>>)
    ensures
        frame_reads_as(column_views(r@), frame_values(*df)),
{
    let width = frame_width(df);
    let mut out: Vec<Vec<CellValue>> = Vec::new();
    let mut i: usize = 0;
    while i < width
        invariant
            i <= width,
            width == frame_values(*df).len(),
            width == frame_cols(*df),
            out@.len() == i,
            forall|j: int|
                0 <= j < i ==> column_reads_as(#[trigger] column_views(out@)[j], frame_values(*df)[j]),
        decreases width - i,
    {
        let ghost before = out@;
        if let Some(column) = frame_column(df, i) {
            let cells = series_cells(&column);
            out.push(cells);
            assert forall|j: int| 0 <= j < i + 1 implies column_reads_as(
                #[trigger] column_views(out@)[j],
                frame_values(*df)[j],
            ) by {
                if j < i {
                    assert(column_views(out@)[j] == column_views(before)[j]);
                }
            }
        }
        i = i + 1;
    }
    out
}

} // verus!
