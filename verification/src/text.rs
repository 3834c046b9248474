//! Text helpers shared by the editor, the history and the command
//! dispatcher: whitespace trimming, whitespace tokenization and
//! conversions between `String` and `Vec<char>`.
//!
//! Whitespace here is the ASCII class (space and the control characters
//! tab through carriage return). The editor only ever admits single-unit
//! codepoints into a line, so on the shell's own content this agrees with
//! Unicode whitespace.

use vstd::prelude::*;
use vstd::string::*;

verus! {

/// ASCII whitespace: space, or one of the controls U+0009 ..= U+000D.
pub open spec fn is_space_char(c: char) -> bool {
    c == ' ' || (9 <= c as u32 && c as u32 <= 13)
}

/// Whether `c` is ASCII whitespace.
pub fn is_space(c: char) -> (r: bool)
    ensures
        r == is_space_char(c),
{
    let u = c as u32;
    u == 32 || (9 <= u && u <= 13)
}

/// Index of the first whitespace character at or after `i`, or the length
/// of `s` if there is none.
pub open spec fn first_space_at(s: Seq<char>, i: int) -> int
    recommends
        0 <= i <= s.len(),
    decreases s.len() - i when i <= s.len()
{
    if i >= s.len() {
        s.len() as int
    } else if is_space_char(s[i]) {
        i
    } else {
        first_space_at(s, i + 1)
    }
}

/// Index of the first non-whitespace character at or after `i`, or the
/// length of `s` if there is none.
pub open spec fn first_non_space_at(s: Seq<char>, i: int) -> int
    recommends
        0 <= i <= s.len(),
    decreases s.len() - i when i <= s.len()
{
    if i >= s.len() {
        s.len() as int
    } else if !is_space_char(s[i]) {
        i
    } else {
        first_non_space_at(s, i + 1)
    }
}

/// One past the last non-whitespace character strictly before `i`, or 0 if
/// every character before `i` is whitespace.
pub open spec fn last_end(s: Seq<char>, i: int) -> int
    recommends
        0 <= i <= s.len(),
    decreases i when i >= 0
{
    if i <= 0 {
        0
    } else if is_space_char(s[i - 1]) {
        last_end(s, i - 1)
    } else {
        i
    }
}

pub proof fn lemma_first_space_at(s: Seq<char>, i: int)
    requires
        0 <= i <= s.len(),
    ensures
        i <= first_space_at(s, i) <= s.len(),
        forall|m: int| i <= m < first_space_at(s, i) ==> !is_space_char(#[trigger] s[m]),
        first_space_at(s, i) < s.len() ==> is_space_char(s[first_space_at(s, i)]),
    decreases s.len() - i,
{
    if i < s.len() && !is_space_char(s[i]) {
        lemma_first_space_at(s, i + 1);
    }
}

pub proof fn lemma_first_space_at_pin(s: Seq<char>, i: int, j: int)
    requires
        0 <= i <= j <= s.len(),
        forall|m: int| i <= m < j ==> !is_space_char(#[trigger] s[m]),
        j < s.len() ==> is_space_char(s[j]),
    ensures
        first_space_at(s, i) == j,
    decreases j - i,
{
    if i < j {
        lemma_first_space_at_pin(s, i + 1, j);
    }
}

pub proof fn lemma_first_non_space_at(s: Seq<char>, i: int)
    requires
        0 <= i <= s.len(),
    ensures
        i <= first_non_space_at(s, i) <= s.len(),
        forall|m: int| i <= m < first_non_space_at(s, i) ==> is_space_char(#[trigger] s[m]),
        first_non_space_at(s, i) < s.len() ==> !is_space_char(s[first_non_space_at(s, i)]),
    decreases s.len() - i,
{
    if i < s.len() && is_space_char(s[i]) {
        lemma_first_non_space_at(s, i + 1);
    }
}

pub proof fn lemma_first_non_space_at_pin(s: Seq<char>, i: int, j: int)
    requires
        0 <= i <= j <= s.len(),
        forall|m: int| i <= m < j ==> is_space_char(#[trigger] s[m]),
        j < s.len() ==> !is_space_char(s[j]),
    ensures
        first_non_space_at(s, i) == j,
    decreases j - i,
{
    if i < j {
        lemma_first_non_space_at_pin(s, i + 1, j);
    }
}

pub proof fn lemma_last_end(s: Seq<char>, i: int)
    requires
        0 <= i <= s.len(),
    ensures
        0 <= last_end(s, i) <= i,
        forall|m: int| last_end(s, i) <= m < i ==> is_space_char(#[trigger] s[m]),
        last_end(s, i) > 0 ==> !is_space_char(s[last_end(s, i) - 1]),
    decreases i,
{
    if i > 0 && is_space_char(s[i - 1]) {
        lemma_last_end(s, i - 1);
    }
}

pub proof fn lemma_last_end_pin(s: Seq<char>, i: int, b: int)
    requires
        0 <= b <= i <= s.len(),
        forall|m: int| b <= m < i ==> is_space_char(#[trigger] s[m]),
        b > 0 ==> !is_space_char(s[b - 1]),
    ensures
        last_end(s, i) == b,
    decreases i - b,
{
    if b < i {
        lemma_last_end_pin(s, i - 1, b);
    }
}

/// `s` with leading and trailing ASCII whitespace removed.
pub open spec fn trim_spec(s: Seq<char>) -> Seq<char> {
    let a = first_non_space_at(s, 0);
    let b = last_end(s, s.len() as int);
    if a < s.len() {
        s.subrange(a, b)
    } else {
        Seq::empty()
    }
}

/// The start of a trimmed string is never whitespace, and its bounds are
/// consistent: it is a contiguous slice of the input.
pub proof fn lemma_trim_spec(s: Seq<char>)
    ensures
        trim_spec(s).len() <= s.len(),
        trim_spec(s).len() > 0 ==> !is_space_char(trim_spec(s)[0]),
{
    let a = first_non_space_at(s, 0);
    let b = last_end(s, s.len() as int);
    lemma_first_non_space_at(s, 0);
    lemma_last_end(s, s.len() as int);
    if a < s.len() {
        if b <= a {
            assert(is_space_char(s[a]));
            assert(false);
        }
        assert(trim_spec(s)[0] == s[a]);
    }
}

/// The tokens of `s` starting at index `i`: maximal runs of
/// non-whitespace characters, in order.
pub open spec fn tokens_from(s: Seq<char>, i: int) -> Seq<Seq<char>>
    recommends
        0 <= i <= s.len(),
    decreases s.len() - i when 0 <= i <= s.len()
        via tokens_from_dec
{
    if i >= s.len() {
        Seq::empty()
    } else if is_space_char(s[i]) {
        tokens_from(s, i + 1)
    } else {
        seq![s.subrange(i, first_space_at(s, i))] + tokens_from(s, first_space_at(s, i))
    }
}

#[via_fn]
proof fn tokens_from_dec(s: Seq<char>, i: int) {
    if 0 <= i < s.len() && !is_space_char(s[i]) {
        lemma_first_space_at(s, i);
        assert(first_space_at(s, i) > i);
    }
}

/// The whitespace tokens of `s`, in order.
pub open spec fn tokens_spec(s: Seq<char>) -> Seq<Seq<char>> {
    tokens_from(s, 0)
}

/// A string that does not start with whitespace and is not empty has at
/// least one token, and that token is its leading non-whitespace run.
pub proof fn lemma_tokens_nonempty(s: Seq<char>)
    requires
        s.len() > 0,
        !is_space_char(s[0]),
    ensures
        tokens_spec(s).len() > 0,
        tokens_spec(s)[0] == s.subrange(0, first_space_at(s, 0)),
{
}

/// Character-wise string equality.
pub fn str_eq(a: &str, b: &str) -> (r: bool)
    ensures
        r == (a@ == b@),
{
    let na = a.unicode_len();
    let nb = b.unicode_len();
    if na != nb {
        return false;
    }
    let mut i: usize = 0;
    while i < na
        invariant
            i <= na,
            na == a@.len(),
            nb == b@.len(),
            na == nb,
            forall|m: int| 0 <= m < i ==> a@[m] == b@[m],
        decreases na - i,
    {
        if a.get_char(i) != b.get_char(i) {
            return false;
        }
        i += 1;
    }
    proof {
        assert(a@ =~= b@);
    }
    true
}

/// `s` with leading and trailing ASCII whitespace removed.
pub fn trim(s: &str) -> (r: &str)
    ensures
        r@ == trim_spec(s@),
{
    let n = s.unicode_len();
    let mut a: usize = 0;
    while a < n && is_space(s.get_char(a))
        invariant
            a <= n,
            n == s@.len(),
            forall|m: int| 0 <= m < a ==> is_space_char(#[trigger] s@[m]),
        decreases n - a,
    {
        a += 1;
    }
    proof {
        lemma_first_non_space_at_pin(s@, 0, a as int);
    }
    if a == n {
        let r = s.substring_char(0, 0);
        proof {
            assert(r@ =~= trim_spec(s@));
        }
        return r;
    }
    let mut b: usize = n;
    while b > a && is_space(s.get_char(b - 1))
        invariant
            a <= b <= n,
            n == s@.len(),
            a < n,
            !is_space_char(s@[a as int]),
            forall|m: int| b <= m < n ==> is_space_char(#[trigger] s@[m]),
        decreases b,
    {
        b -= 1;
    }
    proof {
        assert(b > a);
        assert(!is_space_char(s@[b - 1]));
        lemma_last_end_pin(s@, n as int, b as int);
    }
    s.substring_char(a, b)
}

/// The whitespace tokens of `s`, in order, empty tokens discarded.
pub fn tokenize(s: &str) -> (tokens: Vec<String>)
    ensures
        tokens@.map_values(|t: String| t@) == tokens_spec(s@),
{
    let n = s.unicode_len();
    let mut tokens: Vec<String> = Vec::new();
    let mut i: usize = 0;
    while i < n
        invariant
            i <= n,
            n == s@.len(),
            tokens_spec(s@) == tokens@.map_values(|t: String| t@) + tokens_from(s@, i as int),
        decreases n - i,
    {
        if is_space(s.get_char(i)) {
            i += 1;
        } else {
            let start = i;
            let mut j = i + 1;
            while j < n && !is_space(s.get_char(j))
                invariant
                    start < j <= n,
                    n == s@.len(),
                    forall|m: int| start <= m < j ==> !is_space_char(#[trigger] s@[m]),
                decreases n - j,
            {
                j += 1;
            }
            proof {
                lemma_first_space_at_pin(s@, start as int, j as int);
            }
            let tok = String::from_str(s.substring_char(start, j));
            let ghost old_tokens = tokens@;
            tokens.push(tok);
            proof {
                assert(tokens@.map_values(|t: String| t@) =~= old_tokens.map_values(
                    |t: String| t@,
                ).push(tok@));
            }
            i = j;
        }
    }
    proof {
        assert(tokens@.map_values(|t: String| t@) =~= tokens_spec(s@));
    }
    tokens
}

/// The characters of `s` as a vector.
pub fn string_to_chars(s: &str) -> (r: Vec<char>)
    ensures
        r@ == s@,
{
    let n = s.unicode_len();
    let mut v: Vec<char> = Vec::new();
    let mut i: usize = 0;
    while i < n
        invariant
            i <= n,
            n == s@.len(),
            v@ == s@.take(i as int),
        decreases n - i,
    {
        v.push(s.get_char(i));
        proof {
            assert(v@ =~= s@.take(i + 1));
        }
        i += 1;
    }
    proof {
        assert(v@ =~= s@);
    }
    v
}

/// Relies on `String: FromIterator<char>`: collecting characters yields the
/// string of exactly those characters, in order.
#[verifier::external_body]
pub fn chars_to_string(v: &Vec<char>) -> (r: String)
    ensures
        r@ == v@,
{
    v.iter().collect()
}

} // verus!
