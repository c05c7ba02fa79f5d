//! The shape of a damage expression: where its terms end, which parentheses
//! wrap a whole term, what a numeric token is worth, and how a raw expression
//! from a catalog is cleaned before it is rolled.

use crate::text::to_chars;
use vstd::prelude::*;
use vstd::string::*;

verus! {

/// The nesting depth after reading `c` at depth `depth`. A closing
/// parenthesis that closes nothing leaves the depth at zero.
pub open spec fn depth_after(depth: int, c: char) -> int {
    if c == '(' {
        depth + 1
    } else if c == ')' && depth > 0 {
        depth - 1
    } else {
        depth
    }
}

/// The index of the first `+` or `-` outside all parentheses at or after
/// `from`, read at depth `depth`; the length of `s` if there is none.
pub open spec fn operator_at(s: Seq<char>, from: int, depth: int) -> int
    decreases s.len() - from,
{
    if from < 0 || from >= s.len() {
        s.len() as int
    } else if depth == 0 && (s[from] == '+' || s[from] == '-') {
        from
    } else {
        operator_at(s, from + 1, depth_after(depth, s[from]))
    }
}

/// Whether `s` holds a `+` or `-` outside all parentheses.
pub open spec fn has_operator(s: Seq<char>) -> bool {
    operator_at(s, 0, 0) < s.len()
}

/// The first top-level sign at or after `from` is found between `from` and
/// the end of `s`, and behind `from` where no sign stands there.
pub(crate) proof fn lemma_operator_at_bounds(s: Seq<char>, from: int, depth: int)
    requires
        0 <= from <= s.len(),
    ensures
        from <= operator_at(s, from, depth) <= s.len(),
        depth == 0 && from < s.len() && s[from] != '+' && s[from] != '-' ==> from < operator_at(
            s,
            from,
            depth,
        ),
    decreases s.len() - from,
{
    if from < s.len() && !(depth == 0 && (s[from] == '+' || s[from] == '-')) {
        lemma_operator_at_bounds(s, from + 1, depth_after(depth, s[from]));
    }
}

/// The first top-level operator of `chars[lo..hi]` at or after `from`.
pub(crate) fn find_operator(chars: &Vec<char>, lo: usize, hi: usize, from: usize) -> (at: usize)
    requires
        lo <= from <= hi <= chars.len(),
    ensures
        from <= at <= hi,
        at - lo == operator_at(chars@.subrange(lo as int, hi as int), from - lo, 0),
{
    let ghost s = chars@.subrange(lo as int, hi as int);
    let mut i: usize = from;
    let mut depth: usize = 0;
    while i < hi
        invariant
            lo <= from <= i <= hi <= chars.len(),
            s == chars@.subrange(lo as int, hi as int),
            depth <= i - from,
            operator_at(s, from - lo, 0) == operator_at(s, i - lo, depth as int),
        decreases hi - i,
    {
        let c = chars[i];
        assert(s[i - lo] == c);
        if depth == 0 && (c == '+' || c == '-') {
            return i;
        }
        if c == '(' {
            depth = depth + 1;
        } else if c == ')' && depth > 0 {
            depth = depth - 1;
        }
        i = i + 1;
    }
    i
}

/// Whether `s` holds a `+` or `-` outside all parentheses.
pub fn has_top_level_operator(s: &str) -> (found: bool)
    ensures
        found == has_operator(s@),
{
    let chars = to_chars(s);
    let n = chars.len();
    proof {
        assert(chars@.subrange(0, n as int) =~= s@);
    }
    find_operator(&chars, 0, n, 0) < n
}

/// Whether `s` holds a `+` or `-` outside all parentheses behind its first
/// character: a sign at the very start does not count, but a parenthesis
/// there opens a group as anywhere else.
pub open spec fn has_inner(s: Seq<char>) -> bool {
    s.len() > 0 && operator_at(s, 1, depth_after(0, s[0])) < s.len()
}

/// A `+` or `-` outside all parentheses behind the first character is one
/// outside all parentheses; and where the first character is no sign, the
/// two are the same.
pub proof fn lemma_inner_operator_is_operator(s: Seq<char>)
    ensures
        has_inner(s) ==> has_operator(s),
        s.len() > 0 && s[0] != '+' && s[0] != '-' ==> has_inner(s) == has_operator(s),
{
    if s.len() > 0 {
        lemma_operator_at_bounds(s, 0, 0);
    }
}

/// Whether `s` holds a `+` or `-` outside all parentheses behind its first
/// character.
pub fn has_inner_operator(s: &str) -> (found: bool)
    ensures
        found == has_inner(s@),
{
    let chars = to_chars(s);
    let n = chars.len();
    if n == 0 {
        return false;
    }
    let mut depth: usize = if chars[0] == '(' {
        1
    } else {
        0
    };
    let mut i: usize = 1;
    while i < n
        invariant
            1 <= i <= n,
            n == chars@.len(),
            chars@ == s@,
            depth <= i,
            operator_at(s@, 1, depth_after(0, s@[0])) == operator_at(s@, i as int, depth as int),
        decreases n - i,
    {
        let c = chars[i];
        if depth == 0 && (c == '+' || c == '-') {
            return true;
        }
        if c == '(' {
            depth = depth + 1;
        } else if c == ')' && depth > 0 {
            depth = depth - 1;
        }
        i = i + 1;
    }
    false
}

/// The index at which the nesting depth first returns to zero, reading from
/// `from` at depth `depth`; the length of `s` if it never does.
pub open spec fn closes_at(s: Seq<char>, from: int, depth: int) -> int
    decreases s.len() - from,
{
    if from < 0 || from >= s.len() {
        s.len() as int
    } else {
        let next = if s[from] == '(' {
            depth + 1
        } else if s[from] == ')' {
            depth - 1
        } else {
            depth
        };
        if next == 0 {
            from
        } else {
            closes_at(s, from + 1, next)
        }
    }
}

/// Whether `s` is one parenthesised group: it opens with `(`, and that
/// parenthesis is closed by the last character and not before.
pub open spec fn wrapped(s: Seq<char>) -> bool {
    &&& s.len() >= 2
    &&& s[0] == '('
    &&& s[s.len() - 1] == ')'
    &&& closes_at(s, 1, 1) == s.len() - 1
}

/// `s` without the parentheses that wrap the whole of it, however many pairs.
pub open spec fn stripped(s: Seq<char>) -> Seq<char>
    decreases s.len(),
{
    if wrapped(s) {
        stripped(s.subrange(1, s.len() - 1))
    } else {
        s
    }
}

/// Stripping shortens a wrapped text by two characters at least, and leaves
/// any other as it is.
pub(crate) proof fn lemma_stripped_len(s: Seq<char>)
    ensures
        stripped(s).len() <= s.len(),
        wrapped(s) ==> stripped(s).len() + 2 <= s.len(),
        !wrapped(s) ==> stripped(s) == s,
    decreases s.len(),
{
    if wrapped(s) {
        lemma_stripped_len(s.subrange(1, s.len() - 1));
    }
}

fn is_wrapped(chars: &Vec<char>, lo: usize, hi: usize) -> (yes: bool)
    requires
        lo <= hi <= chars.len(),
    ensures
        yes == wrapped(chars@.subrange(lo as int, hi as int)),
{
    let ghost s = chars@.subrange(lo as int, hi as int);
    if hi - lo < 2 {
        return false;
    }
    assert(s[0] == chars[lo as int]);
    assert(s[s.len() - 1] == chars[hi - 1]);
    if chars[lo] != '(' || chars[hi - 1] != ')' {
        return false;
    }
    let mut i: usize = lo + 1;
    let mut depth: usize = 1;
    while i < hi
        invariant
            lo < i <= hi <= chars.len(),
            s == chars@.subrange(lo as int, hi as int),
            1 <= depth <= i - lo,
            s[0] == '(',
            s[s.len() - 1] == ')',
            closes_at(s, 1, 1) == closes_at(s, i - lo, depth as int),
        decreases hi - i,
    {
        let c = chars[i];
        assert(s[i - lo] == c);
        if c == '(' {
            depth = depth + 1;
        } else if c == ')' {
            if depth == 1 {
                assert(closes_at(s, i - lo, 1) == i - lo);
                return i == hi - 1;
            }
            depth = depth - 1;
        }
        i = i + 1;
    }
    false
}

/// The bounds of `chars[lo..hi]` without the parentheses that wrap the whole
/// of it.
pub(crate) fn strip_range(chars: &Vec<char>, lo: usize, hi: usize) -> (inner: (usize, usize))
    requires
        lo <= hi <= chars.len(),
    ensures
        lo <= inner.0 <= inner.1 <= hi,
        chars@.subrange(inner.0 as int, inner.1 as int) == stripped(
            chars@.subrange(lo as int, hi as int),
        ),
        inner.0 - lo == hi - inner.1,
{
    let mut a: usize = lo;
    let mut b: usize = hi;
    while is_wrapped(chars, a, b)
        invariant
            lo <= a <= b <= hi <= chars.len(),
            a - lo == hi - b,
            stripped(chars@.subrange(a as int, b as int)) == stripped(
                chars@.subrange(lo as int, hi as int),
            ),
        decreases b - a,
    {
        proof {
            let s = chars@.subrange(a as int, b as int);
            assert(s.subrange(1, s.len() - 1) =~= chars@.subrange(a + 1, b - 1));
        }
        a = a + 1;
        b = b - 1;
    }
    (a, b)
}

/// `s` without the parentheses that wrap the whole of it, however many pairs.
pub fn strip_outer_parens(s: &str) -> (inner: &str)
    ensures
        inner@ == stripped(s@),
{
    let chars = to_chars(s);
    let n = chars.len();
    proof {
        assert(chars@.subrange(0, n as int) =~= s@);
    }
    let (a, b) = strip_range(&chars, 0, n);
    s.substring_char(a, b)
}

/// Whether `c` is an ASCII decimal digit.
pub open spec fn is_digit(c: char) -> bool {
    '0' <= c && c <= '9'
}

/// The value of the decimal digit `c`.
pub open spec fn digit_value(c: char) -> int {
    c as int - '0' as int
}

/// The value of a run of decimal digits; zero for the empty run.
pub open spec fn digits_value(s: Seq<char>) -> int
    decreases s.len(),
{
    if s.len() == 0 {
        0
    } else {
        digits_value(s.drop_last()) * 10 + digit_value(s.last())
    }
}

/// Whether every character of `s` is a decimal digit.
pub open spec fn all_digits(s: Seq<char>) -> bool {
    forall|i: int| 0 <= i < s.len() ==> is_digit(#[trigger] s[i])
}

/// What a numeric token is worth: an optional sign and at least one decimal
/// digit, with a value that fits in an `i32`. Anything else is no number.
pub open spec fn parse_int(s: Seq<char>) -> Option<int> {
    let signed = s.len() > 0 && (s[0] == '+' || s[0] == '-');
    let body = if signed {
        s.subrange(1, s.len() as int)
    } else {
        s
    };
    let value = if signed && s[0] == '-' {
        -digits_value(body)
    } else {
        digits_value(body)
    };
    if body.len() > 0 && all_digits(body) && i32::MIN <= value <= i32::MAX {
        Some(value)
    } else {
        None
    }
}

/// The worth of the numeric token `chars[lo..hi]`.
pub(crate) fn parse_range(chars: &Vec<char>, lo: usize, hi: usize) -> (value: Option<i32>)
    requires
        lo <= hi <= chars.len(),
    ensures
        match value {
            Some(v) => parse_int(chars@.subrange(lo as int, hi as int)) == Some(v as int),
            None => parse_int(chars@.subrange(lo as int, hi as int)) is None,
        },
{
    let ghost s = chars@.subrange(lo as int, hi as int);
    if lo == hi {
        return None;
    }
    assert(s[0] == chars[lo as int]);
    let first = chars[lo];
    let signed = first == '+' || first == '-';
    let negative = first == '-';
    let start: usize = if signed {
        lo + 1
    } else {
        lo
    };
    let ghost body = chars@.subrange(start as int, hi as int);
    proof {
        if signed {
            assert(s.subrange(1, s.len() as int) =~= body);
        } else {
            assert(s =~= body);
        }
    }
    if start == hi {
        return None;
    }
    // One more than `i32::MAX`: the largest magnitude a negative token may have.
    let limit: i64 = 2147483648;
    let mut acc: i64 = 0;
    let mut too_big = false;
    let mut i: usize = start;
    while i < hi
        invariant
            start <= i <= hi <= chars.len(),
            body == chars@.subrange(start as int, hi as int),
            s == chars@.subrange(lo as int, hi as int),
            s.len() > 0,
            signed == (s[0] == '+' || s[0] == '-'),
            negative == (s[0] == '-'),
            body == if signed {
                s.subrange(1, s.len() as int)
            } else {
                s
            },
            limit == 2147483648,
            all_digits(body.subrange(0, i - start)),
            0 <= acc <= limit,
            !too_big ==> acc == digits_value(body.subrange(0, i - start)),
            too_big ==> digits_value(body.subrange(0, i - start)) > limit,
        decreases hi - i,
    {
        let c = chars[i];
        let ghost before = body.subrange(0, i - start);
        let ghost now = body.subrange(0, i - start + 1);
        proof {
            assert(body[i - start] == c);
            assert(now.drop_last() =~= before);
            assert(now.last() == c);
        }
        if !(c >= '0' && c <= '9') {
            proof {
                assert(!is_digit(body[i - start]));
            }
            return None;
        }
        let d: i64 = (c as u32 - '0' as u32) as i64;
        if !too_big {
            acc = acc * 10 + d;
            if acc > limit {
                too_big = true;
                acc = limit;
            }
        }
        proof {
            assert forall|j: int| 0 <= j < now.len() implies is_digit(#[trigger] now[j]) by {
                if j < before.len() {
                    assert(before[j] == now[j]);
                }
            }
        }
        i = i + 1;
    }
    proof {
        assert(body.subrange(0, hi - start) =~= body);
    }
    if too_big {
        return None;
    }
    if negative {
        Some((-acc) as i32)
    } else if acc == limit {
        None
    } else {
        Some(acc as i32)
    }
}

/// The index of the first `c` in `s` at or after `from`; the length of `s` if
/// there is none.
pub open spec fn first_index(s: Seq<char>, c: char, from: int) -> int
    decreases s.len() - from,
{
    if from < 0 || from >= s.len() {
        s.len() as int
    } else if s[from] == c {
        from
    } else {
        first_index(s, c, from + 1)
    }
}

/// The first `c` in `chars[lo..hi]`, or `hi`.
pub(crate) fn find_char(chars: &Vec<char>, lo: usize, hi: usize, c: char) -> (at: usize)
    requires
        lo <= hi <= chars.len(),
    ensures
        lo <= at <= hi,
        at - lo == first_index(chars@.subrange(lo as int, hi as int), c, 0),
{
    let ghost s = chars@.subrange(lo as int, hi as int);
    let mut i: usize = lo;
    while i < hi
        invariant
            lo <= i <= hi <= chars.len(),
            s == chars@.subrange(lo as int, hi as int),
            first_index(s, c, 0) == first_index(s, c, i - lo),
        decreases hi - i,
    {
        assert(s[i - lo] == chars[i as int]);
        if chars[i] == c {
            return i;
        }
        i = i + 1;
    }
    i
}

/// The index of the first character of `s` at or after `from` that is no
/// decimal digit; the length of `s` if there is none.
pub open spec fn digits_end(s: Seq<char>, from: int) -> int
    decreases s.len() - from,
{
    if from < 0 || from >= s.len() {
        s.len() as int
    } else if !is_digit(s[from]) {
        from
    } else {
        digits_end(s, from + 1)
    }
}

/// The end of the run of digits that starts `chars[lo..hi]`.
pub(crate) fn find_digits_end(chars: &Vec<char>, lo: usize, hi: usize) -> (at: usize)
    requires
        lo <= hi <= chars.len(),
    ensures
        lo <= at <= hi,
        at - lo == digits_end(chars@.subrange(lo as int, hi as int), 0),
{
    let ghost s = chars@.subrange(lo as int, hi as int);
    let mut i: usize = lo;
    while i < hi
        invariant
            lo <= i <= hi <= chars.len(),
            s == chars@.subrange(lo as int, hi as int),
            digits_end(s, 0) == digits_end(s, i - lo),
        decreases hi - i,
    {
        assert(s[i - lo] == chars[i as int]);
        let c = chars[i];
        if !(c >= '0' && c <= '9') {
            return i;
        }
        i = i + 1;
    }
    i
}

/// Whether the separator ` and ` stands at index `i` of `s`.
pub open spec fn and_at(s: Seq<char>, i: int) -> bool {
    &&& 0 <= i
    &&& i + 5 <= s.len()
    &&& s[i] == ' '
    &&& s[i + 1] == 'a'
    &&& s[i + 2] == 'n'
    &&& s[i + 3] == 'd'
    &&& s[i + 4] == ' '
}

/// The index of the first ` and ` in `s` at or after `from`; the length of
/// `s` if there is none.
pub open spec fn first_and(s: Seq<char>, from: int) -> int
    decreases s.len() - from,
{
    if from < 0 || from + 5 > s.len() {
        s.len() as int
    } else if and_at(s, from) {
        from
    } else {
        first_and(s, from + 1)
    }
}

/// Whether the words `lower of`, in any mix of ASCII upper and lower case,
/// stand at index `i` of `s`.
pub open spec fn lower_of_at(s: Seq<char>, i: int) -> bool {
    &&& 0 <= i
    &&& i + 8 <= s.len()
    &&& (s[i] == 'l' || s[i] == 'L')
    &&& (s[i + 1] == 'o' || s[i + 1] == 'O')
    &&& (s[i + 2] == 'w' || s[i + 2] == 'W')
    &&& (s[i + 3] == 'e' || s[i + 3] == 'E')
    &&& (s[i + 4] == 'r' || s[i + 4] == 'R')
    &&& s[i + 5] == ' '
    &&& (s[i + 6] == 'o' || s[i + 6] == 'O')
    &&& (s[i + 7] == 'f' || s[i + 7] == 'F')
}

/// The index of the first `lower of` in `s` at or after `from`; the length of
/// `s` if there is none.
pub open spec fn first_lower_of(s: Seq<char>, from: int) -> int
    decreases s.len() - from,
{
    if from < 0 || from + 8 > s.len() {
        s.len() as int
    } else if lower_of_at(s, from) {
        from
    } else {
        first_lower_of(s, from + 1)
    }
}

/// The characters that cleaning keeps: ASCII letters and digits, the two
/// signs and the two parentheses.
pub open spec fn keeps(c: char) -> bool {
    ||| ('0' <= c && c <= '9')
    ||| ('a' <= c && c <= 'z')
    ||| ('A' <= c && c <= 'Z')
    ||| c == '+'
    ||| c == '-'
    ||| c == '('
    ||| c == ')'
}

/// The characters of `s` that cleaning keeps, in order.
pub open spec fn kept(s: Seq<char>) -> Seq<char>
    decreases s.len(),
{
    if s.len() == 0 {
        Seq::empty()
    } else if keeps(s.last()) {
        kept(s.drop_last()).push(s.last())
    } else {
        kept(s.drop_last())
    }
}

/// The part of a raw expression that is rolled: the first of the alternatives
/// that ` and ` separates; of that, what follows `lower of` if the words
/// occur; of that, what stands before the first `^`.
pub open spec fn rolled_part(expr: Seq<char>) -> Seq<char> {
    let first = expr.subrange(0, first_and(expr, 0));
    let words = first_lower_of(first, 0);
    let candidate = if words < first.len() {
        first.subrange(words + 8, first.len() as int)
    } else {
        first
    };
    candidate.subrange(0, first_index(candidate, '^', 0))
}

/// A raw expression made ready to roll: the kept characters of its rolled
/// part, or the default `d4p` where none is kept.
pub open spec fn cleaned(expr: Seq<char>) -> Seq<char> {
    let body = kept(rolled_part(expr));
    if body.len() == 0 {
        "d4p"@
    } else {
        body
    }
}

/// Where the words `lower of` are found, they fit into `s`.
proof fn lemma_first_lower_of_bounds(s: Seq<char>, from: int)
    requires
        0 <= from <= s.len(),
    ensures
        from <= first_lower_of(s, from) <= s.len(),
        first_lower_of(s, from) < s.len() ==> first_lower_of(s, from) + 8 <= s.len(),
    decreases s.len() - from,
{
    if from + 8 <= s.len() && !lower_of_at(s, from) {
        lemma_first_lower_of_bounds(s, from + 1);
    }
}

fn find_and(chars: &Vec<char>) -> (at: usize)
    ensures
        at <= chars.len(),
        at == first_and(chars@, 0),
{
    let n = chars.len();
    let mut i: usize = 0;
    while i < n && n - i >= 5
        invariant
            i <= n == chars.len(),
            first_and(chars@, 0) == first_and(chars@, i as int),
        decreases n - i,
    {
        if chars[i] == ' ' && chars[i + 1] == 'a' && chars[i + 2] == 'n' && chars[i + 3] == 'd'
            && chars[i + 4] == ' ' {
            return i;
        }
        i = i + 1;
    }
    n
}

fn find_lower_of(chars: &Vec<char>, hi: usize) -> (at: usize)
    requires
        hi <= chars.len(),
    ensures
        at <= hi,
        at == first_lower_of(chars@.subrange(0, hi as int), 0),
{
    let ghost s = chars@.subrange(0, hi as int);
    let mut i: usize = 0;
    while i < hi && hi - i >= 8
        invariant
            i <= hi <= chars.len(),
            s == chars@.subrange(0, hi as int),
            first_lower_of(s, 0) == first_lower_of(s, i as int),
        decreases hi - i,
    {
        proof {
            assert(s[i as int] == chars@[i as int]);
            assert(s[i + 1] == chars@[i + 1]);
            assert(s[i + 2] == chars@[i + 2]);
            assert(s[i + 3] == chars@[i + 3]);
            assert(s[i + 4] == chars@[i + 4]);
            assert(s[i + 5] == chars@[i + 5]);
            assert(s[i + 6] == chars@[i + 6]);
            assert(s[i + 7] == chars@[i + 7]);
        }
        if (chars[i] == 'l' || chars[i] == 'L') && (chars[i + 1] == 'o' || chars[i + 1] == 'O') && (
        chars[i + 2] == 'w' || chars[i + 2] == 'W') && (chars[i + 3] == 'e' || chars[i + 3] == 'E')
            && (chars[i + 4] == 'r' || chars[i + 4] == 'R') && chars[i + 5] == ' ' && (chars[i + 6]
            == 'o' || chars[i + 6] == 'O') && (chars[i + 7] == 'f' || chars[i + 7] == 'F') {
            return i;
        }
        i = i + 1;
    }
    hi
}

fn keeps_char(c: char) -> (yes: bool)
    ensures
        yes == keeps(c),
{
    (c >= '0' && c <= '9') || (c >= 'a' && c <= 'z') || (c >= 'A' && c <= 'Z') || c == '+' || c
        == '-' || c == '(' || c == ')'
}

/// Makes a raw damage expression ready to roll. Of alternatives joined by
/// ` and ` only the first is rolled; text up to and including `lower of` is
/// dropped; a tag that `^` introduces is dropped; of the rest only letters,
/// digits, signs and parentheses stay. Where nothing stays the result is the
/// default `d4p`.
pub fn clean_damage_expr(expr: &str) -> (ready: String)
    ensures
        ready@ == cleaned(expr@),
{
    let chars = to_chars(expr);
    let end = find_and(&chars);
    let words = find_lower_of(&chars, end);
    let start: usize = if words < end {
        proof {
            lemma_first_lower_of_bounds(chars@.subrange(0, end as int), 0);
        }
        words + 8
    } else {
        0
    };
    let caret = find_char(&chars, start, end, '^');
    let ghost first = expr@.subrange(0, end as int);
    let ghost candidate = chars@.subrange(start as int, end as int);
    let ghost body = chars@.subrange(start as int, caret as int);
    proof {
        if words < end {
            assert(first.subrange(words + 8, first.len() as int) =~= candidate);
        } else {
            assert(first =~= candidate);
        }
        assert(candidate.subrange(0, caret - start) =~= body);
        assert(rolled_part(expr@) == body);
    }
    let mut ready = String::new();
    let mut i: usize = start;
    while i < caret
        invariant
            start <= i <= caret <= chars.len(),
            body == chars@.subrange(start as int, caret as int),
            ready@ == kept(body.subrange(0, i - start)),
        decreases caret - i,
    {
        let c = chars[i];
        proof {
            let now = body.subrange(0, i - start + 1);
            assert(now.drop_last() =~= body.subrange(0, i - start));
            assert(now.last() == c);
        }
        if keeps_char(c) {
            ready.push(c);
        }
        i = i + 1;
    }
    proof {
        assert(body.subrange(0, caret - start) =~= body);
    }
    if ready.as_str().is_empty() {
        "d4p".to_owned()
    } else {
        ready
    }
}

} // verus!
