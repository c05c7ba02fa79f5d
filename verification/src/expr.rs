//! Rolling a damage expression: signed terms, each a constant, a group of
//! dice or a parenthesised expression. Every roll yields a total and a trace
//! of the dice that made it, and both are functions of the expression and of
//! the random source.

use crate::dice::{penetrating_roll, penetrating_total, standard_roll, standard_total};
use crate::dice::{DiceSource, DiceView};
use crate::grammar::{cleaned, clean_damage_expr};
use crate::grammar::{digits_end, find_char, find_digits_end, find_operator, first_index};
use crate::grammar::{has_operator, operator_at, parse_int, parse_range, strip_range, stripped};
use crate::grammar::{lemma_operator_at_bounds, lemma_stripped_len};
use crate::text::{decimal, push_decimal, to_chars};
use vstd::prelude::*;
use vstd::string::*;

verus! {

/// What a roll yields: the total, the trace, and the source after the roll.
pub struct Rolled {
    pub total: int,
    pub detail: Seq<char>,
    pub source: DiceView,
}

/// `v` moved into the range of `i32`.
pub open spec fn sat32(v: int) -> int {
    if v > i32::MAX {
        i32::MAX as int
    } else if v < i32::MIN {
        i32::MIN as int
    } else {
        v
    }
}

/// One die of a group: exploding or standard.
pub open spec fn one_roll(source: DiceView, sides: int, penetrating: bool) -> (int, DiceView) {
    if penetrating {
        penetrating_total(source, sides)
    } else {
        standard_total(source, sides)
    }
}

/// The rolls of a group of `count` dice, in the order made, and the source
/// after them. A count below one rolls nothing.
pub open spec fn group_rolls(source: DiceView, count: int, sides: int, penetrating: bool) -> (
    Seq<int>,
    DiceView,
)
    decreases count,
{
    if count <= 0 {
        (Seq::empty(), source)
    } else {
        let first = one_roll(source, sides, penetrating);
        let others = group_rolls(first.1, count - 1, sides, penetrating);
        (seq![first.0] + others.0, others.1)
    }
}

/// The sum of a group's rolls; it stays at `i32::MAX` once it has got there.
pub open spec fn rolls_sum(rolls: Seq<int>) -> int
    decreases rolls.len(),
{
    if rolls.len() == 0 {
        0
    } else {
        sat32(rolls_sum(rolls.drop_last()) + rolls.last())
    }
}

/// A group's rolls in decimal, joined by `+`.
pub open spec fn rolls_text(rolls: Seq<int>) -> Seq<char>
    decreases rolls.len(),
{
    if rolls.len() == 0 {
        Seq::empty()
    } else if rolls.len() == 1 {
        decimal(rolls.last())
    } else {
        rolls_text(rolls.drop_last()) + seq!['+'] + decimal(rolls.last())
    }
}

/// The number of dice in the group `s`, whose `d` stands at `d_pos`: one
/// where nothing stands before the `d`; else the token before it, which
/// counts for nothing where it is no number.
pub open spec fn group_count(s: Seq<char>, d_pos: int) -> int {
    if d_pos == 0 {
        1
    } else {
        match parse_int(s.subrange(0, d_pos)) {
            Some(v) => v,
            None => 0,
        }
    }
}

/// The faces of the dice in the group `s`: the digits after the `d`, or zero
/// where there are none or they are no number.
pub open spec fn group_sides(s: Seq<char>, d_pos: int) -> int {
    let after = s.subrange(d_pos + 1, s.len() as int);
    match parse_int(after.subrange(0, digits_end(after, 0))) {
        Some(v) => v,
        None => 0,
    }
}

/// Whether the dice of the group `s` explode: a `p` follows the faces.
pub open spec fn group_penetrating(s: Seq<char>, d_pos: int) -> bool {
    let after = s.subrange(d_pos + 1, s.len() as int);
    let end = digits_end(after, 0);
    end < after.len() && after[end] == 'p'
}

/// The roll of the die group `s`, whose `d` stands at `d_pos`. The trace
/// names the group and lists its rolls, as in `2d6=3+5`.
pub open spec fn group_value(s: Seq<char>, d_pos: int, source: DiceView) -> Rolled {
    let count = group_count(s, d_pos);
    let sides = group_sides(s, d_pos);
    let rolls = group_rolls(source, count, sides, group_penetrating(s, d_pos));
    Rolled {
        total: rolls_sum(rolls.0),
        detail: decimal(count) + seq!['d'] + decimal(sides) + seq!['='] + rolls_text(rolls.0),
        source: rolls.1,
    }
}

/// The worth of a constant term: the number it writes, or zero.
pub open spec fn constant_value(s: Seq<char>) -> int {
    match parse_int(s) {
        Some(v) => v,
        None => 0,
    }
}

/// The running result after one more term, which `negative` says is
/// subtracted. The total stays within `i32`; the trace joins terms with
/// ` + ` and ` - `, and opens with `-` where the first term is subtracted.
pub open spec fn add_term(acc: Rolled, negative: bool, term: Rolled) -> Rolled {
    Rolled {
        total: sat32(
            acc.total + if negative {
                -term.total
            } else {
                term.total
            },
        ),
        detail: if acc.detail.len() > 0 {
            acc.detail + seq![' ', if negative {
                '-'
            } else {
                '+'
            }, ' '] + term.detail
        } else if negative {
            seq!['-'] + term.detail
        } else {
            term.detail
        },
        source: term.source,
    }
}

/// What bounds the recursion on a term.
pub open spec fn term_measure(t: Seq<char>) -> int {
    2 * t.len() + if has_operator(t) {
        2int
    } else {
        0int
    }
}

/// The roll of one term. Parentheses that wrap the whole term are dropped;
/// what is left is an expression if it holds a top-level sign, a die group if
/// it holds a `d`, and a constant otherwise.
pub open spec fn term_value(t: Seq<char>, source: DiceView) -> Rolled
    decreases term_measure(t), 0int,
    via term_value_decreases
{
    let s = stripped(t);
    if has_operator(s) {
        expr_value(s, source)
    } else {
        let d_pos = first_index(s, 'd', 0);
        if d_pos < s.len() {
            group_value(s, d_pos, source)
        } else {
            Rolled { total: constant_value(s), detail: decimal(constant_value(s)), source }
        }
    }
}

/// The roll of an expression: its terms from left to right.
pub open spec fn expr_value(e: Seq<char>, source: DiceView) -> Rolled
    decreases 2 * e.len() + 1, e.len() + 1,
{
    expr_from(e, 0, Rolled { total: 0, detail: Seq::empty(), source })
}

/// The roll of the terms of `e` from index `idx` on, after the terms before
/// it have given `acc`. A term runs from behind its sign, if it has one, to
/// the next top-level sign; an empty term counts for nothing.
pub open spec fn expr_from(e: Seq<char>, idx: int, acc: Rolled) -> Rolled
    decreases 2 * e.len() + 1, e.len() - idx,
    via expr_from_decreases
{
    if idx < 0 || idx >= e.len() {
        acc
    } else {
        let negative = e[idx] == '-';
        let start = if e[idx] == '+' || e[idx] == '-' {
            idx + 1
        } else {
            idx
        };
        let end = operator_at(e, start, 0);
        if start < end {
            expr_from(
                e,
                end,
                add_term(acc, negative, term_value(e.subrange(start, end), acc.source)),
            )
        } else {
            expr_from(e, end, acc)
        }
    }
}

/// A term of an expression is smaller than the expression in the measure
/// that bounds the recursion.
proof fn lemma_term_smaller(e: Seq<char>, start: int, end: int)
    requires
        0 <= start <= end <= e.len(),
        end == operator_at(e, start, 0),
    ensures
        term_measure(e.subrange(start, end)) < 2 * e.len() + 1,
{
    if start == 0 && end == e.len() {
        assert(e.subrange(0, e.len() as int) =~= e);
    }
}

#[via_fn]
proof fn term_value_decreases(t: Seq<char>, source: DiceView) {
    lemma_stripped_len(t);
}

#[via_fn]
proof fn expr_from_decreases(e: Seq<char>, idx: int, acc: Rolled) {
    if 0 <= idx < e.len() {
        let start = if e[idx] == '+' || e[idx] == '-' {
            idx + 1
        } else {
            idx
        };
        lemma_operator_at_bounds(e, start, 0);
        lemma_term_smaller(e, start, operator_at(e, start, 0));
    }
}

/// Rolls a group of `count` dice, appending the rolls to the trace.
fn roll_group(
    count: i32,
    sides: i32,
    penetrating: bool,
    rng: &mut DiceSource,
    detail: &mut String,
) -> (total: i32)
    ensures
        total == rolls_sum(group_rolls(old(rng)@, count as int, sides as int, penetrating).0),
        final(detail)@ == old(detail)@ + rolls_text(
            group_rolls(old(rng)@, count as int, sides as int, penetrating).0,
        ),
        final(rng)@ == group_rolls(old(rng)@, count as int, sides as int, penetrating).1,
{
    let mut total: i32 = 0;
    let mut i: i32 = 0;
    let ghost mut done: Seq<int> = Seq::empty();
    proof {
        assert(done + group_rolls(rng@, count as int, sides as int, penetrating).0 =~= group_rolls(
            rng@,
            count as int,
            sides as int,
            penetrating,
        ).0);
        assert(detail@ + rolls_text(done) =~= detail@);
    }
    while i < count
        invariant
            0 <= i,
            count > 0 ==> i <= count,
            done.len() == i,
            0 <= total == rolls_sum(done),
            detail@ == old(detail)@ + rolls_text(done),
            group_rolls(old(rng)@, count as int, sides as int, penetrating).0 == done + group_rolls(
                rng@,
                count - i,
                sides as int,
                penetrating,
            ).0,
            group_rolls(old(rng)@, count as int, sides as int, penetrating).1 == group_rolls(
                rng@,
                count - i,
                sides as int,
                penetrating,
            ).1,
        decreases count - i,
    {
        let ghost before = rng@;
        let ghost text_before = detail@;
        let roll = if penetrating {
            penetrating_roll(sides, rng)
        } else {
            standard_roll(sides, rng)
        };
        if i > 0 {
            detail.push('+');
        }
        push_decimal(detail, roll as i64);
        let sum: i64 = total as i64 + roll as i64;
        total = if sum > i32::MAX as i64 {
            i32::MAX
        } else {
            sum as i32
        };
        proof {
            let next = done.push(roll as int);
            assert(next.drop_last() =~= done);
            assert(next.last() == roll);
            let others = group_rolls(rng@, count - i - 1, sides as int, penetrating);
            assert(one_roll(before, sides as int, penetrating) == (roll as int, rng@));
            assert(done + (seq![roll as int] + others.0) =~= next + others.0);
            if i > 0 {
                assert(detail@ =~= old(detail)@ + rolls_text(next));
            } else {
                assert(rolls_text(done) =~= Seq::<char>::empty());
                assert(detail@ =~= old(detail)@ + rolls_text(next));
            }
            done = next;
        }
        i = i + 1;
    }
    proof {
        assert(done + Seq::<int>::empty() =~= done);
    }
    total
}

/// Rolls the term `chars[lo..hi]`.
fn eval_term_range(chars: &Vec<char>, lo: usize, hi: usize, rng: &mut DiceSource) -> (r: (
    i32,
    String,
))
    requires
        lo <= hi <= chars.len(),
    ensures
        r.0 == term_value(chars@.subrange(lo as int, hi as int), old(rng)@).total,
        r.1@ == term_value(chars@.subrange(lo as int, hi as int), old(rng)@).detail,
        final(rng)@ == term_value(chars@.subrange(lo as int, hi as int), old(rng)@).source,
    decreases term_measure(chars@.subrange(lo as int, hi as int)), 0int,
{
    let ghost t = chars@.subrange(lo as int, hi as int);
    let (a, b) = strip_range(chars, lo, hi);
    let ghost s = chars@.subrange(a as int, b as int);
    let op = find_operator(chars, a, b, a);
    if op < b {
        proof {
            lemma_stripped_len(t);
        }
        return eval_expr_range(chars, a, b, rng);
    }
    let d = find_char(chars, a, b, 'd');
    if d < b {
        let ghost d_pos = d - a;
        let ghost after = s.subrange(d_pos + 1, s.len() as int);
        let count: i32 = if d == a {
            1
        } else {
            proof {
                assert(s.subrange(0, d_pos) =~= chars@.subrange(a as int, d as int));
            }
            match parse_range(chars, a, d) {
                Some(v) => v,
                None => 0,
            }
        };
        let digits_to = find_digits_end(chars, d + 1, b);
        proof {
            assert(after =~= chars@.subrange(d + 1, b as int));
            assert(after.subrange(0, digits_to - (d + 1)) =~= chars@.subrange(
                d + 1,
                digits_to as int,
            ));
            if digits_to < b {
                assert(after[digits_to - (d + 1)] == chars@[digits_to as int]);
            }
        }
        let sides: i32 = match parse_range(chars, d + 1, digits_to) {
            Some(v) => v,
            None => 0,
        };
        let penetrating = digits_to < b && chars[digits_to] == 'p';
        let mut detail = String::new();
        push_decimal(&mut detail, count as i64);
        detail.push('d');
        push_decimal(&mut detail, sides as i64);
        detail.push('=');
        let ghost head = detail@;
        let total = roll_group(count, sides, penetrating, rng, &mut detail);
        proof {
            assert(head =~= decimal(count as int) + seq!['d'] + decimal(sides as int) + seq!['=']);
            assert(detail@ =~= group_value(s, d_pos, old(rng)@).detail);
        }
        (total, detail)
    } else {
        let value: i32 = match parse_range(chars, a, b) {
            Some(v) => v,
            None => 0,
        };
        let mut detail = String::new();
        push_decimal(&mut detail, value as i64);
        proof {
            assert(detail@ =~= decimal(value as int));
        }
        (value, detail)
    }
}

/// Rolls the expression `chars[lo..hi]`.
fn eval_expr_range(chars: &Vec<char>, lo: usize, hi: usize, rng: &mut DiceSource) -> (r: (
    i32,
    String,
))
    requires
        lo <= hi <= chars.len(),
    ensures
        r.0 == expr_value(chars@.subrange(lo as int, hi as int), old(rng)@).total,
        r.1@ == expr_value(chars@.subrange(lo as int, hi as int), old(rng)@).detail,
        final(rng)@ == expr_value(chars@.subrange(lo as int, hi as int), old(rng)@).source,
    decreases 2 * (hi - lo) + 1, (hi - lo) + 1,
{
    let ghost e = chars@.subrange(lo as int, hi as int);
    let mut total: i32 = 0;
    let mut detail = String::new();
    let mut idx: usize = lo;
    while idx < hi
        invariant
            lo <= idx <= hi <= chars.len(),
            e == chars@.subrange(lo as int, hi as int),
            expr_value(e, old(rng)@) == expr_from(
                e,
                idx - lo,
                Rolled { total: total as int, detail: detail@, source: rng@ },
            ),
        decreases hi - idx,
    {
        let ghost acc = Rolled { total: total as int, detail: detail@, source: rng@ };
        let c = chars[idx];
        assert(e[idx - lo] == c);
        let negative = c == '-';
        let start: usize = if c == '+' || c == '-' {
            idx + 1
        } else {
            idx
        };
        let end = find_operator(chars, lo, hi, start);
        proof {
            lemma_operator_at_bounds(e, start - lo, 0);
            lemma_term_smaller(e, start - lo, end - lo);
            assert(e.subrange(start - lo, end - lo) =~= chars@.subrange(start as int, end as int));
        }
        if start < end {
            let (value, text) = eval_term_range(chars, start, end, rng);
            let ghost term = term_value(e.subrange(start - lo, end - lo), acc.source);
            let signed: i64 = if negative {
                -(value as i64)
            } else {
                value as i64
            };
            let sum: i64 = total as i64 + signed;
            total = if sum > i32::MAX as i64 {
                i32::MAX
            } else if sum < i32::MIN as i64 {
                i32::MIN
            } else {
                sum as i32
            };
            if !detail.as_str().is_empty() {
                detail.push(' ');
                detail.push(if negative {
                    '-'
                } else {
                    '+'
                });
                detail.push(' ');
            } else if negative {
                detail.push('-');
            }
            detail.append(text.as_str());
            proof {
                assert(detail@ =~= add_term(acc, negative, term).detail);
            }
        }
        idx = end;
    }
    (total, detail)
}

/// Rolls one term of a damage expression: a constant, a die group such as
/// `2d6p`, or an expression in parentheses. Returns the total and the trace.
/// A token that is no number counts for nothing, be it a count, the faces of
/// a die or a constant; a die group without a count is one die.
pub fn evaluate_term_with_detail(term: &str, rng: &mut DiceSource) -> (r: (i32, String))
    ensures
        r.0 == term_value(term@, old(rng)@).total,
        r.1@ == term_value(term@, old(rng)@).detail,
        final(rng)@ == term_value(term@, old(rng)@).source,
{
    let chars = to_chars(term);
    proof {
        assert(chars@.subrange(0, chars@.len() as int) =~= term@);
    }
    eval_term_range(&chars, 0, chars.len(), rng)
}

/// Rolls a damage expression: terms joined by `+` and `-`, with an optional
/// leading sign. Returns the total, kept within `i32`, and the trace of every
/// die group. An empty expression totals zero with an empty trace.
pub fn evaluate_expression_with_detail(expr: &str, rng: &mut DiceSource) -> (r: (i32, String))
    ensures
        r.0 == expr_value(expr@, old(rng)@).total,
        r.1@ == expr_value(expr@, old(rng)@).detail,
        final(rng)@ == expr_value(expr@, old(rng)@).source,
{
    let chars = to_chars(expr);
    proof {
        assert(chars@.subrange(0, chars@.len() as int) =~= expr@);
    }
    eval_expr_range(&chars, 0, chars.len(), rng)
}

/// `s` without its `p`s: a die group then rolls standard dice.
pub open spec fn without_p(s: Seq<char>) -> Seq<char>
    decreases s.len(),
{
    if s.len() == 0 {
        Seq::empty()
    } else if s.last() == 'p' {
        without_p(s.drop_last())
    } else {
        without_p(s.drop_last()).push(s.last())
    }
}

/// The roll of a raw damage expression from a catalog: the expression is
/// cleaned, loses its `p`s unless the dice may explode, and is rolled; the
/// trace stands in square brackets.
pub open spec fn damage_roll(expr: Seq<char>, source: DiceView, exploding: bool) -> Rolled {
    let ready = if exploding {
        cleaned(expr)
    } else {
        without_p(cleaned(expr))
    };
    let rolled = expr_value(ready, source);
    Rolled {
        total: rolled.total,
        detail: seq!['['] + rolled.detail + seq![']'],
        source: rolled.source,
    }
}

fn drop_p(chars: &Vec<char>) -> (rest: Vec<char>)
    ensures
        rest@ == without_p(chars@),
{
    let mut rest: Vec<char> = Vec::new();
    let mut i: usize = 0;
    while i < chars.len()
        invariant
            i <= chars.len(),
            rest@ == without_p(chars@.subrange(0, i as int)),
        decreases chars.len() - i,
    {
        proof {
            let now = chars@.subrange(0, i + 1);
            assert(now.drop_last() =~= chars@.subrange(0, i as int));
        }
        if chars[i] != 'p' {
            rest.push(chars[i]);
        }
        i = i + 1;
    }
    proof {
        assert(chars@.subrange(0, chars@.len() as int) =~= chars@);
    }
    rest
}

fn roll_ready(chars: &Vec<char>, rng: &mut DiceSource) -> (r: (i32, String))
    ensures
        r.0 == expr_value(chars@, old(rng)@).total,
        r.1@ == seq!['['] + expr_value(chars@, old(rng)@).detail + seq![']'],
        final(rng)@ == expr_value(chars@, old(rng)@).source,
{
    proof {
        assert(chars@.subrange(0, chars@.len() as int) =~= chars@);
    }
    let (total, trace) = eval_expr_range(chars, 0, chars.len(), rng);
    let mut detail = String::new();
    detail.push('[');
    detail.append(trace.as_str());
    detail.push(']');
    proof {
        assert(detail@ =~= seq!['['] + trace@ + seq![']']);
    }
    (total, detail)
}

/// Rolls a raw damage expression with exploding dice where it asks for them.
/// Returns the total and the trace in square brackets.
pub fn roll_damage_expr_with_detail(expr: &str, rng: &mut DiceSource) -> (r: (i32, String))
    ensures
        r.0 == damage_roll(expr@, old(rng)@, true).total,
        r.1@ == damage_roll(expr@, old(rng)@, true).detail,
        final(rng)@ == damage_roll(expr@, old(rng)@, true).source,
{
    let ready = clean_damage_expr(expr);
    let chars = to_chars(ready.as_str());
    roll_ready(&chars, rng)
}

/// Rolls a raw damage expression with standard dice only. Returns the total
/// and the trace in square brackets.
pub fn roll_damage_expr_with_detail_nonpenetrating(expr: &str, rng: &mut DiceSource) -> (r: (
    i32,
    String,
))
    ensures
        r.0 == damage_roll(expr@, old(rng)@, false).total,
        r.1@ == damage_roll(expr@, old(rng)@, false).detail,
        final(rng)@ == damage_roll(expr@, old(rng)@, false).source,
{
    let ready = clean_damage_expr(expr);
    let chars = drop_p(&to_chars(ready.as_str()));
    roll_ready(&chars, rng)
}

} // verus!
