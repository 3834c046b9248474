//! Row layout: pure arithmetic mapping a prompt prefix width, a buffer
//! length, a cursor offset and a terminal column count to wrapped rows and
//! a (column, row) cursor coordinate.

use vstd::prelude::*;

verus! {

/// Total number of terminal rows occupied by a prompt of display width
/// `prefix` followed by `len` characters, at `width` columns per row:
/// `max(1, ceil((prefix + len) / width))`.
pub open spec fn row_count_spec(prefix: int, len: int, width: int) -> int
    recommends
        width >= 1,
{
    if prefix + len == 0 {
        1
    } else {
        (prefix + len + width - 1) / width
    }
}

/// Zero-based column of the absolute position `prefix + offset`.
pub open spec fn pos_col_spec(prefix: int, offset: int, width: int) -> int
    recommends
        width >= 1,
{
    (prefix + offset) % width
}

/// Zero-based row of the absolute position `prefix + offset`.
pub open spec fn pos_row_spec(prefix: int, offset: int, width: int) -> int
    recommends
        width >= 1,
{
    (prefix + offset) / width
}

/// Number of full row boundaries crossed by the content: the row that holds
/// the end-of-input position. The painted area is one more row than this.
pub open spec fn full_rows_spec(prefix: int, len: int, width: int) -> int
    recommends
        width >= 1,
{
    pos_row_spec(prefix, len, width)
}

/// The characters of row `line` of the wrapped input: row 0 holds the first
/// `width - prefix` characters (after the prompt), every later row holds
/// `width` characters, the last possibly fewer.
pub open spec fn line_content_spec(content: Seq<char>, prefix: int, width: int, line: int) -> Seq<
    char,
>
    recommends
        1 <= width,
        prefix <= width,
        0 <= line <= full_rows_spec(prefix, content.len() as int, width),
{
    let len = content.len() as int;
    if line == 0 {
        content.take(min_int(width - prefix, len))
    } else {
        let start = line * width - prefix;
        content.subrange(start, min_int(start + width, len))
    }
}

/// The smaller of two integers.
pub open spec fn min_int(a: int, b: int) -> int {
    if a <= b {
        a
    } else {
        b
    }
}

/// The larger of two integers.
pub open spec fn max_int(a: int, b: int) -> int {
    if a >= b {
        a
    } else {
        b
    }
}

/// Row count of the wrapped input, at least one row even when empty.
///
/// This is the number of rows that hold prompt or text. When the content
/// ends exactly at a row boundary the cursor parks on one further (empty)
/// row; compare [`full_rows`].
pub fn row_count(prefix: usize, len: usize, width: usize) -> (r: usize)
    requires
        width >= 1,
        prefix + len <= usize::MAX - width,
    ensures
        r == row_count_spec(prefix as int, len as int, width as int),
        r >= 1,
{
    proof {
        lemma_row_count_is_ceil(prefix as int, len as int, width as int);
    }
    let total = prefix + len;
    if total == 0 {
        1
    } else {
        (total + (width - 1)) / width
    }
}

/// The row-count formula equals `max(1, ceil((prefix + len) / width))`,
/// with `ceil` written as the least integer `c` with `c * width >= prefix + len`.
pub proof fn lemma_row_count_is_ceil(prefix: int, len: int, width: int)
    requires
        width >= 1,
        prefix >= 0,
        len >= 0,
    ensures
        row_count_spec(prefix, len, width) >= 1,
        row_count_spec(prefix, len, width) * width >= prefix + len,
        prefix + len >= 1 ==> (row_count_spec(prefix, len, width) - 1) * width < prefix + len,
{
    let t = prefix + len;
    if t == 0 {
        assert(row_count_spec(prefix, len, width) == 1);
        assert(1 * width >= 0);
    } else {
        let c = (t + width - 1) / width;
        vstd::arithmetic::div_mod::lemma_fundamental_div_mod(t + width - 1, width);
        vstd::arithmetic::div_mod::lemma_mod_bound(t + width - 1, width);
        assert(c * width >= t) by (nonlinear_arith)
            requires
                t + width - 1 == width * c + (t + width - 1) % width,
                0 <= (t + width - 1) % width < width,
        ;
        assert((c - 1) * width < t) by (nonlinear_arith)
            requires
                t + width - 1 == width * c + (t + width - 1) % width,
                0 <= (t + width - 1) % width < width,
        ;
        assert(c >= 1) by (nonlinear_arith)
            requires
                c * width >= t,
                t >= 1,
                width >= 1,
        ;
    }
}

/// Number of full row boundaries the content crosses; the painted input
/// area spans rows `0 ..= full_rows`.
pub fn full_rows(prefix: usize, len: usize, width: usize) -> (r: usize)
    requires
        width >= 1,
        prefix + len <= usize::MAX,
    ensures
        r == full_rows_spec(prefix as int, len as int, width as int),
{
    (prefix + len) / width
}

/// (column, row) coordinate of the absolute position `prefix + offset`.
pub fn pos_coord(prefix: usize, offset: usize, width: usize) -> (r: (usize, usize))
    requires
        width >= 1,
        prefix + offset <= usize::MAX,
    ensures
        r.0 == pos_col_spec(prefix as int, offset as int, width as int),
        r.1 == pos_row_spec(prefix as int, offset as int, width as int),
        r.0 < width,
{
    let abs = prefix + offset;
    (abs % width, abs / width)
}

} // verus!
