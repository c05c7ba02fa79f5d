//! The random source and the two kinds of die roll.
//!
//! A [`DiceSource`] is either a seeded generator or a script of faces. Every
//! roll is stated over the source's view, so that a run of rolls is a
//! function of the source it started from.

use rand::rngs::StdRng;
use rand::Rng;
use rand::SeedableRng;
use vstd::prelude::*;

verus! {

/// `rand::rngs::StdRng`, the generator of the crate `rand`. The library sees
/// nothing inside it.
#[verifier::external_type_specification]
#[verifier::external_body]
pub struct ExStdRng(StdRng);

/// The generator that `StdRng::seed_from_u64` makes from `seed`. `StdRng` is
/// a deterministic generator: it is seeded from the number alone, by a fixed
/// procedure.
pub uninterp spec fn seeded_generator(seed: u64) -> StdRng;

/// What `Rng::gen_range(1..=sides)` does to a `StdRng` in the state `rng`: the
/// number it returns, and the state it leaves the generator in. The
/// generator takes nothing from outside, so both depend on its state and on
/// the range alone.
pub uninterp spec fn uniform_draw(rng: StdRng, sides: i32) -> (i32, StdRng);

/// Calls `StdRng::seed_from_u64`. Taken on trust: the generator that comes
/// back is the one that the seed determines.
#[verifier::external_body]
fn generator_from_seed(seed: u64) -> (rng: StdRng)
    ensures
        rng == seeded_generator(seed),
{
    StdRng::seed_from_u64(seed)
}

/// Calls `Rng::gen_range` on `1..=sides`. Taken on trust: the number that
/// comes back lies in the range, and both it and the state in which the
/// generator is left are those that the generator's state and `sides`
/// determine. `gen_range` panics on an empty range, so `sides` is at least 1.
#[verifier::external_body]
fn generator_draw(rng: &mut StdRng, sides: i32) -> (face: i32)
    requires
        sides >= 1,
    ensures
        1 <= face <= sides,
        face == uniform_draw(*old(rng), sides).0,
        *final(rng) == uniform_draw(*old(rng), sides).1,
{
    rng.gen_range(1..=sides)
}

/// `StdRng::clone`. Taken on trust: the copy is in the state of the generator
/// it was made from.
pub assume_specification[ <StdRng as Clone>::clone ](rng: &StdRng) -> (copy: StdRng)
    ensures
        copy == *rng,
;

/// What a [`DiceSource`] stands for: a generator in some state, or the faces
/// of a script that are still to come.
pub enum DiceView {
    Seeded(StdRng),
    Scripted(Seq<i32>),
}

/// `raw` moved into `1..=sides`.
pub open spec fn clamp_face(raw: int, sides: int) -> int {
    if raw < 1 {
        1
    } else if raw > sides {
        sides
    } else {
        raw
    }
}

impl DiceView {
    /// The face that the next roll of a die with `sides` faces shows. A script
    /// that has run out shows 1; a scripted face outside the die is moved to
    /// the nearest face.
    pub open spec fn face(self, sides: int) -> int {
        match self {
            DiceView::Seeded(rng) => clamp_face(uniform_draw(rng, sides as i32).0 as int, sides),
            DiceView::Scripted(faces) => if faces.len() > 0 {
                clamp_face(faces[0] as int, sides)
            } else {
                clamp_face(1, sides)
            },
        }
    }

    /// The source after the next roll of a die with `sides` faces.
    pub open spec fn rest(self, sides: int) -> DiceView {
        match self {
            DiceView::Seeded(rng) => DiceView::Seeded(uniform_draw(rng, sides as i32).1),
            DiceView::Scripted(faces) => if faces.len() > 0 {
                DiceView::Scripted(faces.drop_first())
            } else {
                self
            },
        }
    }

    /// The source after `n` rolls of a die with `sides` faces.
    pub open spec fn after(self, sides: int, n: nat) -> DiceView
        decreases n,
    {
        if n == 0 {
            self
        } else {
            self.rest(sides).after(sides, (n - 1) as nat)
        }
    }
}

/// Where die rolls come from.
#[derive(Debug)]
pub enum DiceSource {
    /// A deterministic generator, made from a seed.
    Seeded(StdRng),
    /// The faces `rolls[next..]` in turn, then 1 for ever.
    Scripted { rolls: Vec<i32>, next: usize },
}

impl View for DiceSource {
    type V = DiceView;

    open spec fn view(&self) -> DiceView {
        match self {
            DiceSource::Seeded(rng) => DiceView::Seeded(*rng),
            DiceSource::Scripted { rolls, next } => if *next <= rolls@.len() {
                DiceView::Scripted(rolls@.subrange(*next as int, rolls@.len() as int))
            } else {
                DiceView::Scripted(Seq::empty())
            },
        }
    }
}

impl Clone for DiceSource {
    /// A copy of the source: it rolls what the source rolls.
    fn clone(&self) -> (copy: DiceSource)
        ensures
            copy@ == self@,
    {
        match self {
            DiceSource::Seeded(rng) => DiceSource::Seeded(rng.clone()),
            DiceSource::Scripted { rolls, next } => DiceSource::Scripted {
                rolls: rolls.clone(),
                next: *next,
            },
        }
    }
}

impl DiceSource {
    /// A generator seeded with `seed`: equal seeds give equal sources.
    pub fn seeded(seed: u64) -> (source: DiceSource)
        ensures
            source@ == DiceView::Seeded(seeded_generator(seed)),
    {
        DiceSource::Seeded(generator_from_seed(seed))
    }

    /// A source that shows the faces of `rolls` in turn, then 1 for ever.
    pub fn scripted(rolls: Vec<i32>) -> (source: DiceSource)
        ensures
            source@ == DiceView::Scripted(rolls@),
    {
        proof {
            assert(rolls@.subrange(0, rolls@.len() as int) =~= rolls@);
        }
        DiceSource::Scripted { rolls, next: 0 }
    }

    /// Rolls a die with `sides` faces once.
    pub(crate) fn draw(&mut self, sides: i32) -> (face: i32)
        requires
            sides >= 1,
        ensures
            face == old(self)@.face(sides as int),
            final(self)@ == old(self)@.rest(sides as int),
            1 <= face <= sides,
    {
        match self {
            DiceSource::Seeded(rng) => generator_draw(rng, sides),
            DiceSource::Scripted { rolls, next } => {
                if *next < rolls.len() {
                    let raw = rolls[*next];
                    proof {
                        let len = rolls@.len() as int;
                        assert(rolls@.subrange(*next as int, len)[0] == raw);
                        assert(rolls@.subrange(*next as int, len).drop_first() =~= rolls@.subrange(
                            *next + 1,
                            len,
                        ));
                    }
                    *next = *next + 1;
                    if raw < 1 {
                        1
                    } else if raw > sides {
                        sides
                    } else {
                        raw
                    }
                } else {
                    proof {
                        let len = rolls@.len() as int;
                        if *next == len {
                            assert(rolls@.subrange(*next as int, len) =~= Seq::<i32>::empty());
                        }
                    }
                    1
                }
            },
        }
    }
}

/// A degenerate die, one with at most one face, shows this without a roll.
pub open spec fn degenerate_face(sides: int) -> int {
    if sides < 0 {
        0
    } else {
        sides
    }
}

/// One roll of a standard die: the total and the source after it.
pub open spec fn standard_total(source: DiceView, sides: int) -> (int, DiceView) {
    if sides <= 1 {
        (degenerate_face(sides), source)
    } else {
        (source.face(sides), source.rest(sides))
    }
}

/// The continuation of an exploding roll whose last face was the maximum and
/// whose running total is `total`: every further roll adds its face less one,
/// and the roll goes on while the maximum is shown. A total that no longer
/// fits in an `i32` stays at `i32::MAX` and ends the roll; one that just fits
/// is a total like any other.
pub open spec fn explode(source: DiceView, sides: int, total: int) -> (int, DiceView)
    decreases i32::MAX - total,
{
    if sides < 2 {
        (total, source)
    } else {
        let face = source.face(sides);
        let next = total + face - 1;
        if next > i32::MAX {
            (i32::MAX as int, source.rest(sides))
        } else if face == sides {
            explode(source.rest(sides), sides, next)
        } else {
            (next, source.rest(sides))
        }
    }
}

/// One roll of an exploding die: the total and the source after it. The first
/// face counts in full.
pub open spec fn penetrating_total(source: DiceView, sides: int) -> (int, DiceView) {
    if sides <= 1 {
        (degenerate_face(sides), source)
    } else {
        let face = source.face(sides);
        if face == sides {
            explode(source.rest(sides), sides, face)
        } else {
            (face, source.rest(sides))
        }
    }
}

/// Rolls a standard die: one face in `1..=sides`. A die with at most one face
/// is not rolled.
pub fn standard_roll(sides: i32, source: &mut DiceSource) -> (total: i32)
    ensures
        (total as int, final(source)@) == standard_total(old(source)@, sides as int),
        sides >= 1 ==> 1 <= total <= sides,
        sides < 1 ==> total == 0,
{
    if sides <= 1 {
        return if sides < 0 {
            0
        } else {
            sides
        };
    }
    source.draw(sides)
}

/// Rolls an exploding die from `source`. A die with at most one face is not
/// rolled.
pub fn penetrating_roll_with(sides: i32, source: &mut DiceSource) -> (total: i32)
    ensures
        (total as int, final(source)@) == penetrating_total(old(source)@, sides as int),
        sides >= 1 ==> total >= 1,
        sides < 1 ==> total == 0,
{
    if sides <= 1 {
        return if sides < 0 {
            0
        } else {
            sides
        };
    }
    let first = source.draw(sides);
    let mut total: i32 = first;
    let mut exploding = first == sides;
    while exploding
        invariant
            sides >= 2,
            1 <= total,
            penetrating_total(old(source)@, sides as int) == if exploding {
                explode(source@, sides as int, total as int)
            } else {
                (total as int, source@)
            },
        decreases i32::MAX - total, (if exploding { 1int } else { 0int }),
    {
        let face = source.draw(sides);
        let next: i64 = total as i64 + face as i64 - 1;
        if next > i32::MAX as i64 {
            total = i32::MAX;
            exploding = false;
        } else {
            total = next as i32;
            exploding = face == sides;
        }
    }
    total
}

/// Rolls an exploding die.
pub fn penetrating_roll(sides: i32, source: &mut DiceSource) -> (total: i32)
    ensures
        (total as int, final(source)@) == penetrating_total(old(source)@, sides as int),
        sides >= 1 ==> total >= 1,
        sides < 1 ==> total == 0,
{
    penetrating_roll_with(sides, source)
}

/// An exploding die whose first face is not the maximum totals that face.
pub proof fn lemma_no_explosion(source: DiceView, sides: int)
    requires
        sides >= 2,
        source.face(sides) != sides,
    ensures
        penetrating_total(source, sides) == (source.face(sides), source.rest(sides)),
{
}

proof fn lemma_explode_run(source: DiceView, sides: int, total: int, k: nat, v: int)
    requires
        sides >= 2,
        total >= 1,
        forall|i: int| 0 <= i < k ==> #[trigger] source.after(sides, i as nat).face(sides) == sides,
        source.after(sides, k).face(sides) == v,
        v != sides,
        total + (sides - 1) * k + (v - 1) <= i32::MAX,
    ensures
        explode(source, sides, total) == (
            total + (sides - 1) * k + (v - 1),
            source.after(sides, (k + 1) as nat),
        ),
    decreases k,
{
    assert(source.after(sides, 0) == source);
    assert(source.after(sides, (k + 1) as nat) == source.rest(sides).after(sides, k));
    if k == 0 {
        assert(1 <= v <= sides);
        assert((sides - 1) * 0 == 0);
        assert(source.rest(sides).after(sides, 0) == source.rest(sides));
    } else {
        let next = source.rest(sides);
        assert(source.after(sides, 0int as nat).face(sides) == sides);
        assert forall|i: int| 0 <= i < k - 1 implies #[trigger] next.after(sides, i as nat).face(
            sides,
        ) == sides by {
            assert(source.after(sides, (i + 1) as nat) == next.after(sides, i as nat));
        }
        assert(source.after(sides, k) == next.after(sides, (k - 1) as nat));
        let v1 = next.after(sides, (k - 1) as nat).face(sides);
        assert(1 <= v1 <= sides);
        assert((sides - 1) * k == (sides - 1) * (k - 1) + (sides - 1)) by (nonlinear_arith);
        assert((sides - 1) * (k - 1) >= 0) by (nonlinear_arith)
            requires
                sides >= 2,
                k >= 1,
        ;
        lemma_explode_run(next, sides, total + sides - 1, (k - 1) as nat, v);
    }
}

/// An exploding die that shows its maximum `k` times in a row and then the
/// face `v` totals `sides + (sides - 1) * (k - 1) + (v - 1)`, as long as that
/// fits in an `i32`, and takes exactly those `k + 1` faces from the source.
pub proof fn lemma_explosion_run(source: DiceView, sides: int, k: nat, v: int)
    requires
        sides >= 2,
        k >= 1,
        forall|i: int| 0 <= i < k ==> #[trigger] source.after(sides, i as nat).face(sides) == sides,
        source.after(sides, k).face(sides) == v,
        v != sides,
        sides + (sides - 1) * (k - 1) + (v - 1) <= i32::MAX,
    ensures
        penetrating_total(source, sides).0 == sides + (sides - 1) * (k - 1) + (v - 1),
        penetrating_total(source, sides).1 == source.after(sides, (k + 1) as nat),
{
    let next = source.rest(sides);
    assert(source.after(sides, 0) == source);
    assert(source.after(sides, 0int as nat).face(sides) == sides);
    assert forall|i: int| 0 <= i < k - 1 implies #[trigger] next.after(sides, i as nat).face(sides)
        == sides by {
        assert(source.after(sides, (i + 1) as nat) == next.after(sides, i as nat));
    }
    assert(source.after(sides, k) == next.after(sides, (k - 1) as nat));
    assert(source.after(sides, (k + 1) as nat) == next.after(sides, k));
    lemma_explode_run(next, sides, sides, (k - 1) as nat, v);
}

} // verus!
