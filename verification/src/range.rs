//! The range bands of the ranged weapons. A weapon that the table does not
//! name is a melee weapon.

use crate::text::str_eq;
use crate::units::{max_of, Milli, MILLI};
use vstd::prelude::*;

verus! {

/// The four distance bands of a ranged weapon, in thousandths of a foot: up
/// to `band_0` a shot has no penalty, up to `band_4` a penalty of 4, up to
/// `band_6` of 6, up to `band_8` of 8. A band of zero cannot be used.
#[derive(Clone, Copy, Debug, PartialEq, Eq, Structural)]
pub struct RangeBands {
    pub band_0: Milli,
    pub band_4: Milli,
    pub band_6: Milli,
    pub band_8: Milli,
}

/// Bands given in whole feet.
pub open spec fn bands_ft(band_0: int, band_4: int, band_6: int, band_8: int) -> RangeBands {
    RangeBands {
        band_0: (band_0 * MILLI) as i64,
        band_4: (band_4 * MILLI) as i64,
        band_6: (band_6 * MILLI) as i64,
        band_8: (band_8 * MILLI) as i64,
    }
}

/// The table of ranged weapons.
#[verifier::opaque]
pub open spec fn bands_of(name: Seq<char>) -> Option<RangeBands> {
    if name == "Shortbow"@ || name == "Recurve bow"@ {
        Some(bands_ft(50, 80, 120, 150))
    } else if name == "Longbow"@ {
        Some(bands_ft(60, 120, 160, 210))
    } else if name == "Warbow"@ {
        Some(bands_ft(80, 160, 230, 300))
    } else if name == "Light crossbow"@ {
        Some(bands_ft(60, 100, 140, 180))
    } else if name == "Heavy crossbow"@ {
        Some(bands_ft(80, 140, 190, 250))
    } else if name == "Hand crossbow"@ {
        Some(bands_ft(40, 70, 100, 120))
    } else if name == "Arbalest"@ {
        Some(bands_ft(120, 220, 320, 400))
    } else if name == "Sling"@ {
        Some(bands_ft(40, 80, 120, 160))
    } else if name == "Throwing axe"@ {
        Some(bands_ft(20, 30, 40, 60))
    } else if name == "Throwing knife"@ {
        Some(bands_ft(20, 30, 40, 50))
    } else if name == "Dart"@ {
        Some(bands_ft(10, 20, 30, 40))
    } else if name == "Javelin"@ {
        Some(bands_ft(30, 50, 70, 100))
    } else if name == "Pilum"@ {
        Some(bands_ft(30, 40, 60, 80))
    } else if name == "Bola"@ || name == "Lasso"@ {
        Some(bands_ft(10, 20, 30, 50))
    } else if name == "Net"@ {
        Some(bands_ft(10, 15, 0, 0))
    } else {
        None
    }
}

impl RangeBands {
    /// The attack penalty at `distance`: 0, -4, -6 or -8 by the first band
    /// that reaches so far, and none where no usable band does.
    pub open spec fn penalty_at(self, distance: int) -> Option<int> {
        if distance <= self.band_0 {
            Some(0)
        } else if distance <= self.band_4 {
            Some(-4)
        } else if distance <= self.band_6 && self.band_6 > 0 {
            Some(-6)
        } else if distance <= self.band_8 && self.band_8 > 0 {
            Some(-8)
        } else {
            None
        }
    }

    /// The largest of the four bands.
    pub open spec fn reach(self) -> int {
        max_of(
            max_of(max_of(self.band_8 as int, self.band_6 as int), self.band_4 as int),
            self.band_0 as int,
        )
    }

    /// The attack penalty at `distance`, or `None` out of range.
    pub fn penalty(&self, distance: Milli) -> (penalty: Option<i32>)
        ensures
            match penalty {
                Some(p) => self.penalty_at(distance as int) == Some(p as int),
                None => self.penalty_at(distance as int) is None,
            },
    {
        if distance <= self.band_0 {
            Some(0)
        } else if distance <= self.band_4 {
            Some(-4)
        } else if distance <= self.band_6 && self.band_6 > 0 {
            Some(-6)
        } else if distance <= self.band_8 && self.band_8 > 0 {
            Some(-8)
        } else {
            None
        }
    }

    /// The largest distance at which the weapon can be used.
    pub fn max_range(&self) -> (range: Milli)
        ensures
            range == self.reach(),
    {
        let mut range = self.band_8;
        if self.band_6 > range {
            range = self.band_6;
        }
        if self.band_4 > range {
            range = self.band_4;
        }
        if self.band_0 > range {
            range = self.band_0;
        }
        range
    }
}

fn in_feet(band_0: i64, band_4: i64, band_6: i64, band_8: i64) -> (bands: RangeBands)
    requires
        0 <= band_0 <= 1000,
        0 <= band_4 <= 1000,
        0 <= band_6 <= 1000,
        0 <= band_8 <= 1000,
    ensures
        bands == bands_ft(band_0 as int, band_4 as int, band_6 as int, band_8 as int),
{
    RangeBands {
        band_0: band_0 * MILLI,
        band_4: band_4 * MILLI,
        band_6: band_6 * MILLI,
        band_8: band_8 * MILLI,
    }
}

/// The bands of the weapon called `name`, or `None` for a melee weapon.
pub fn ranged_bands_for_weapon(name: &str) -> (bands: Option<RangeBands>)
    ensures
        bands == bands_of(name@),
{
    reveal(bands_of);
    if str_eq(name, "Shortbow") || str_eq(name, "Recurve bow") {
        Some(in_feet(50, 80, 120, 150))
    } else if str_eq(name, "Longbow") {
        Some(in_feet(60, 120, 160, 210))
    } else if str_eq(name, "Warbow") {
        Some(in_feet(80, 160, 230, 300))
    } else if str_eq(name, "Light crossbow") {
        Some(in_feet(60, 100, 140, 180))
    } else if str_eq(name, "Heavy crossbow") {
        Some(in_feet(80, 140, 190, 250))
    } else if str_eq(name, "Hand crossbow") {
        Some(in_feet(40, 70, 100, 120))
    } else if str_eq(name, "Arbalest") {
        Some(in_feet(120, 220, 320, 400))
    } else if str_eq(name, "Sling") {
        Some(in_feet(40, 80, 120, 160))
    } else if str_eq(name, "Throwing axe") {
        Some(in_feet(20, 30, 40, 60))
    } else if str_eq(name, "Throwing knife") {
        Some(in_feet(20, 30, 40, 50))
    } else if str_eq(name, "Dart") {
        Some(in_feet(10, 20, 30, 40))
    } else if str_eq(name, "Javelin") {
        Some(in_feet(30, 50, 70, 100))
    } else if str_eq(name, "Pilum") {
        Some(in_feet(30, 40, 60, 80))
    } else if str_eq(name, "Bola") || str_eq(name, "Lasso") {
        Some(in_feet(10, 20, 30, 50))
    } else if str_eq(name, "Net") {
        Some(in_feet(10, 15, 0, 0))
    } else {
        None
    }
}

/// The attack penalty of the weapon called `name` at `distance`.
pub open spec fn range_modifier(name: Seq<char>, distance: int) -> Option<int> {
    match bands_of(name) {
        Some(bands) => bands.penalty_at(distance),
        None => None,
    }
}

/// The largest distance at which the weapon called `name` can be used.
pub open spec fn max_range(name: Seq<char>) -> Option<int> {
    match bands_of(name) {
        Some(bands) => Some(bands.reach()),
        None => None,
    }
}

/// Whether the table names the weapon.
pub open spec fn is_ranged(name: Seq<char>) -> bool {
    bands_of(name) is Some
}

/// The attack penalty of the weapon called `name` at `distance`: 0, -4, -6 or
/// -8. `None` for a melee weapon and for a distance out of range.
pub fn range_modifier_for_weapon(name: &str, distance: Milli) -> (penalty: Option<i32>)
    ensures
        match penalty {
            Some(p) => range_modifier(name@, distance as int) == Some(p as int),
            None => range_modifier(name@, distance as int) is None,
        },
{
    match ranged_bands_for_weapon(name) {
        Some(bands) => bands.penalty(distance),
        None => None,
    }
}

/// The largest distance at which the weapon called `name` can be used, or
/// `None` for a melee weapon.
pub fn max_range_for_weapon(name: &str) -> (range: Option<Milli>)
    ensures
        match range {
            Some(r) => max_range(name@) == Some(r as int),
            None => max_range(name@) is None,
        },
{
    match ranged_bands_for_weapon(name) {
        Some(bands) => Some(bands.max_range()),
        None => None,
    }
}

/// Whether the weapon called `name` is a ranged weapon.
pub fn is_ranged_weapon(name: &str) -> (ranged: bool)
    ensures
        ranged == is_ranged(name@),
{
    ranged_bands_for_weapon(name).is_some()
}

} // verus!
