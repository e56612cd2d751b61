//! The spell-slot engine: caster classification and the three static
//! progression tables, plus the spell statistics (attack bonus, save DC)
//! and the bucket organizer.
//!
//! A slot "row" is the nine per-spell-level counts a progression table
//! holds for one character level; a slot mapping is the ascending list of
//! (spell level, count) pairs with positive counts only — an absent spell
//! level means zero slots.

use vstd::prelude::*;
use crate::character_model::{ability_modifier, AbilityScores, CharacterData, Spell, Spells};
use crate::character_model::modifier_of_score;
use crate::text::{eq_ignore_ascii_case, lower_chars};

verus! {

/// Caster archetype: which spell-slot progression table applies.
#[derive(Debug, Clone, Copy, PartialEq, Eq, Structural)]
pub enum CasterType {
    Full,
    Half,
    Third,
    NonCaster,
}

/// The spell-slot engine and spell statistics.
#[derive(Debug, Clone, Copy)]
pub struct SpellSystem;

/// Slots per spell level (index + 1) for full casters at each character level.
pub open spec fn full_caster_row(level: int) -> Seq<u8> {
    if level == 1 {
        seq![2, 0, 0, 0, 0, 0, 0, 0, 0]
    } else if level == 2 {
        seq![3, 0, 0, 0, 0, 0, 0, 0, 0]
    } else if level == 3 {
        seq![4, 2, 0, 0, 0, 0, 0, 0, 0]
    } else if level == 4 {
        seq![4, 3, 0, 0, 0, 0, 0, 0, 0]
    } else if level == 5 {
        seq![4, 3, 2, 0, 0, 0, 0, 0, 0]
    } else if level == 6 {
        seq![4, 3, 3, 0, 0, 0, 0, 0, 0]
    } else if level == 7 {
        seq![4, 3, 3, 1, 0, 0, 0, 0, 0]
    } else if level == 8 {
        seq![4, 3, 3, 2, 0, 0, 0, 0, 0]
    } else if level == 9 {
        seq![4, 3, 3, 3, 1, 0, 0, 0, 0]
    } else if level == 10 {
        seq![4, 3, 3, 3, 2, 0, 0, 0, 0]
    } else if level == 11 {
        seq![4, 3, 3, 3, 2, 1, 0, 0, 0]
    } else if level == 12 {
        seq![4, 3, 3, 3, 2, 1, 0, 0, 0]
    } else if level == 13 {
        seq![4, 3, 3, 3, 2, 1, 1, 0, 0]
    } else if level == 14 {
        seq![4, 3, 3, 3, 2, 1, 1, 0, 0]
    } else if level == 15 {
        seq![4, 3, 3, 3, 2, 1, 1, 1, 0]
    } else if level == 16 {
        seq![4, 3, 3, 3, 2, 1, 1, 1, 0]
    } else if level == 17 {
        seq![4, 3, 3, 3, 2, 1, 1, 1, 1]
    } else if level == 18 {
        seq![4, 3, 3, 3, 3, 1, 1, 1, 1]
    } else if level == 19 {
        seq![4, 3, 3, 3, 3, 2, 1, 1, 1]
    } else if level == 20 {
        seq![4, 3, 3, 3, 3, 2, 2, 1, 1]
    } else {
        seq![0, 0, 0, 0, 0, 0, 0, 0, 0]
    }
}

/// Slots per spell level (index + 1) for half casters at each character level.
pub open spec fn half_caster_row(level: int) -> Seq<u8> {
    if level == 1 {
        seq![0, 0, 0, 0, 0, 0, 0, 0, 0]
    } else if level == 2 {
        seq![2, 0, 0, 0, 0, 0, 0, 0, 0]
    } else if level == 3 {
        seq![3, 0, 0, 0, 0, 0, 0, 0, 0]
    } else if level == 4 {
        seq![3, 0, 0, 0, 0, 0, 0, 0, 0]
    } else if level == 5 {
        seq![4, 2, 0, 0, 0, 0, 0, 0, 0]
    } else if level == 6 {
        seq![4, 2, 0, 0, 0, 0, 0, 0, 0]
    } else if level == 7 {
        seq![4, 3, 0, 0, 0, 0, 0, 0, 0]
    } else if level == 8 {
        seq![4, 3, 0, 0, 0, 0, 0, 0, 0]
    } else if level == 9 {
        seq![4, 3, 2, 0, 0, 0, 0, 0, 0]
    } else if level == 10 {
        seq![4, 3, 2, 0, 0, 0, 0, 0, 0]
    } else if level == 11 {
        seq![4, 3, 3, 0, 0, 0, 0, 0, 0]
    } else if level == 12 {
        seq![4, 3, 3, 0, 0, 0, 0, 0, 0]
    } else if level == 13 {
        seq![4, 3, 3, 1, 0, 0, 0, 0, 0]
    } else if level == 14 {
        seq![4, 3, 3, 1, 0, 0, 0, 0, 0]
    } else if level == 15 {
        seq![4, 3, 3, 2, 0, 0, 0, 0, 0]
    } else if level == 16 {
        seq![4, 3, 3, 2, 0, 0, 0, 0, 0]
    } else if level == 17 {
        seq![4, 3, 3, 3, 1, 0, 0, 0, 0]
    } else if level == 18 {
        seq![4, 3, 3, 3, 1, 0, 0, 0, 0]
    } else if level == 19 {
        seq![4, 3, 3, 3, 2, 0, 0, 0, 0]
    } else if level == 20 {
        seq![4, 3, 3, 3, 2, 0, 0, 0, 0]
    } else {
        seq![0, 0, 0, 0, 0, 0, 0, 0, 0]
    }
}

/// Slots per spell level (index + 1) for third casters at each character level.
pub open spec fn third_caster_row(level: int) -> Seq<u8> {
    if level == 1 {
        seq![0, 0, 0, 0, 0, 0, 0, 0, 0]
    } else if level == 2 {
        seq![0, 0, 0, 0, 0, 0, 0, 0, 0]
    } else if level == 3 {
        seq![2, 0, 0, 0, 0, 0, 0, 0, 0]
    } else if level == 4 {
        seq![3, 0, 0, 0, 0, 0, 0, 0, 0]
    } else if level == 5 {
        seq![3, 0, 0, 0, 0, 0, 0, 0, 0]
    } else if level == 6 {
        seq![3, 0, 0, 0, 0, 0, 0, 0, 0]
    } else if level == 7 {
        seq![4, 2, 0, 0, 0, 0, 0, 0, 0]
    } else if level == 8 {
        seq![4, 2, 0, 0, 0, 0, 0, 0, 0]
    } else if level == 9 {
        seq![4, 2, 0, 0, 0, 0, 0, 0, 0]
    } else if level == 10 {
        seq![4, 3, 0, 0, 0, 0, 0, 0, 0]
    } else if level == 11 {
        seq![4, 3, 0, 0, 0, 0, 0, 0, 0]
    } else if level == 12 {
        seq![4, 3, 0, 0, 0, 0, 0, 0, 0]
    } else if level == 13 {
        seq![4, 3, 2, 0, 0, 0, 0, 0, 0]
    } else if level == 14 {
        seq![4, 3, 2, 0, 0, 0, 0, 0, 0]
    } else if level == 15 {
        seq![4, 3, 2, 0, 0, 0, 0, 0, 0]
    } else if level == 16 {
        seq![4, 3, 3, 0, 0, 0, 0, 0, 0]
    } else if level == 17 {
        seq![4, 3, 3, 0, 0, 0, 0, 0, 0]
    } else if level == 18 {
        seq![4, 3, 3, 0, 0, 0, 0, 0, 0]
    } else if level == 19 {
        seq![4, 3, 3, 1, 0, 0, 0, 0, 0]
    } else if level == 20 {
        seq![4, 3, 3, 1, 0, 0, 0, 0, 0]
    } else {
        seq![0, 0, 0, 0, 0, 0, 0, 0, 0]
    }
}

/// The full-caster slot row; levels outside 1..=20 yield the zero row.
fn full_caster_slots_row(level: u8) -> (r: Vec<u8>)
    ensures
        r@ == full_caster_row(level as int),
{
    if level == 1 {
        let v: Vec<u8> = vec![2, 0, 0, 0, 0, 0, 0, 0, 0];
        proof {
            assert(v@ =~= full_caster_row(1));
        }
        v
    } else if level == 2 {
        let v: Vec<u8> = vec![3, 0, 0, 0, 0, 0, 0, 0, 0];
        proof {
            assert(v@ =~= full_caster_row(2));
        }
        v
    } else if level == 3 {
        let v: Vec<u8> = vec![4, 2, 0, 0, 0, 0, 0, 0, 0];
        proof {
            assert(v@ =~= full_caster_row(3));
        }
        v
    } else if level == 4 {
        let v: Vec<u8> = vec![4, 3, 0, 0, 0, 0, 0, 0, 0];
        proof {
            assert(v@ =~= full_caster_row(4));
        }
        v
    } else if level == 5 {
        let v: Vec<u8> = vec![4, 3, 2, 0, 0, 0, 0, 0, 0];
        proof {
            assert(v@ =~= full_caster_row(5));
        }
        v
    } else if level == 6 {
        let v: Vec<u8> = vec![4, 3, 3, 0, 0, 0, 0, 0, 0];
        proof {
            assert(v@ =~= full_caster_row(6));
        }
        v
    } else if level == 7 {
        let v: Vec<u8> = vec![4, 3, 3, 1, 0, 0, 0, 0, 0];
        proof {
            assert(v@ =~= full_caster_row(7));
        }
        v
    } else if level == 8 {
        let v: Vec<u8> = vec![4, 3, 3, 2, 0, 0, 0, 0, 0];
        proof {
            assert(v@ =~= full_caster_row(8));
        }
        v
    } else if level == 9 {
        let v: Vec<u8> = vec![4, 3, 3, 3, 1, 0, 0, 0, 0];
        proof {
            assert(v@ =~= full_caster_row(9));
        }
        v
    } else if level == 10 {
        let v: Vec<u8> = vec![4, 3, 3, 3, 2, 0, 0, 0, 0];
        proof {
            assert(v@ =~= full_caster_row(10));
        }
        v
    } else if level == 11 {
        let v: Vec<u8> = vec![4, 3, 3, 3, 2, 1, 0, 0, 0];
        proof {
            assert(v@ =~= full_caster_row(11));
        }
        v
    } else if level == 12 {
        let v: Vec<u8> = vec![4, 3, 3, 3, 2, 1, 0, 0, 0];
        proof {
            assert(v@ =~= full_caster_row(12));
        }
        v
    } else if level == 13 {
        let v: Vec<u8> = vec![4, 3, 3, 3, 2, 1, 1, 0, 0];
        proof {
            assert(v@ =~= full_caster_row(13));
        }
        v
    } else if level == 14 {
        let v: Vec<u8> = vec![4, 3, 3, 3, 2, 1, 1, 0, 0];
        proof {
            assert(v@ =~= full_caster_row(14));
        }
        v
    } else if level == 15 {
        let v: Vec<u8> = vec![4, 3, 3, 3, 2, 1, 1, 1, 0];
        proof {
            assert(v@ =~= full_caster_row(15));
        }
        v
    } else if level == 16 {
        let v: Vec<u8> = vec![4, 3, 3, 3, 2, 1, 1, 1, 0];
        proof {
            assert(v@ =~= full_caster_row(16));
        }
        v
    } else if level == 17 {
        let v: Vec<u8> = vec![4, 3, 3, 3, 2, 1, 1, 1, 1];
        proof {
            assert(v@ =~= full_caster_row(17));
        }
        v
    } else if level == 18 {
        let v: Vec<u8> = vec![4, 3, 3, 3, 3, 1, 1, 1, 1];
        proof {
            assert(v@ =~= full_caster_row(18));
        }
        v
    } else if level == 19 {
        let v: Vec<u8> = vec![4, 3, 3, 3, 3, 2, 1, 1, 1];
        proof {
            assert(v@ =~= full_caster_row(19));
        }
        v
    } else if level == 20 {
        let v: Vec<u8> = vec![4, 3, 3, 3, 3, 2, 2, 1, 1];
        proof {
            assert(v@ =~= full_caster_row(20));
        }
        v
    } else {
        let v: Vec<u8> = vec![0, 0, 0, 0, 0, 0, 0, 0, 0];
        proof {
            assert(v@ =~= full_caster_row(level as int));
        }
        v
    }
}

/// The half-caster slot row; levels outside 1..=20 yield the zero row.
fn half_caster_slots_row(level: u8) -> (r: Vec<u8>)
    ensures
        r@ == half_caster_row(level as int),
{
    if level == 1 {
        let v: Vec<u8> = vec![0, 0, 0, 0, 0, 0, 0, 0, 0];
        proof {
            assert(v@ =~= half_caster_row(1));
        }
        v
    } else if level == 2 {
        let v: Vec<u8> = vec![2, 0, 0, 0, 0, 0, 0, 0, 0];
        proof {
            assert(v@ =~= half_caster_row(2));
        }
        v
    } else if level == 3 {
        let v: Vec<u8> = vec![3, 0, 0, 0, 0, 0, 0, 0, 0];
        proof {
            assert(v@ =~= half_caster_row(3));
        }
        v
    } else if level == 4 {
        let v: Vec<u8> = vec![3, 0, 0, 0, 0, 0, 0, 0, 0];
        proof {
            assert(v@ =~= half_caster_row(4));
        }
        v
    } else if level == 5 {
        let v: Vec<u8> = vec![4, 2, 0, 0, 0, 0, 0, 0, 0];
        proof {
            assert(v@ =~= half_caster_row(5));
        }
        v
    } else if level == 6 {
        let v: Vec<u8> = vec![4, 2, 0, 0, 0, 0, 0, 0, 0];
        proof {
            assert(v@ =~= half_caster_row(6));
        }
        v
    } else if level == 7 {
        let v: Vec<u8> = vec![4, 3, 0, 0, 0, 0, 0, 0, 0];
        proof {
            assert(v@ =~= half_caster_row(7));
        }
        v
    } else if level == 8 {
        let v: Vec<u8> = vec![4, 3, 0, 0, 0, 0, 0, 0, 0];
        proof {
            assert(v@ =~= half_caster_row(8));
        }
        v
    } else if level == 9 {
        let v: Vec<u8> = vec![4, 3, 2, 0, 0, 0, 0, 0, 0];
        proof {
            assert(v@ =~= half_caster_row(9));
        }
        v
    } else if level == 10 {
        let v: Vec<u8> = vec![4, 3, 2, 0, 0, 0, 0, 0, 0];
        proof {
            assert(v@ =~= half_caster_row(10));
        }
        v
    } else if level == 11 {
        let v: Vec<u8> = vec![4, 3, 3, 0, 0, 0, 0, 0, 0];
        proof {
            assert(v@ =~= half_caster_row(11));
        }
        v
    } else if level == 12 {
        let v: Vec<u8> = vec![4, 3, 3, 0, 0, 0, 0, 0, 0];
        proof {
            assert(v@ =~= half_caster_row(12));
        }
        v
    } else if level == 13 {
        let v: Vec<u8> = vec![4, 3, 3, 1, 0, 0, 0, 0, 0];
        proof {
            assert(v@ =~= half_caster_row(13));
        }
        v
    } else if level == 14 {
        let v: Vec<u8> = vec![4, 3, 3, 1, 0, 0, 0, 0, 0];
        proof {
            assert(v@ =~= half_caster_row(14));
        }
        v
    } else if level == 15 {
        let v: Vec<u8> = vec![4, 3, 3, 2, 0, 0, 0, 0, 0];
        proof {
            assert(v@ =~= half_caster_row(15));
        }
        v
    } else if level == 16 {
        let v: Vec<u8> = vec![4, 3, 3, 2, 0, 0, 0, 0, 0];
        proof {
            assert(v@ =~= half_caster_row(16));
        }
        v
    } else if level == 17 {
        let v: Vec<u8> = vec![4, 3, 3, 3, 1, 0, 0, 0, 0];
        proof {
            assert(v@ =~= half_caster_row(17));
        }
        v
    } else if level == 18 {
        let v: Vec<u8> = vec![4, 3, 3, 3, 1, 0, 0, 0, 0];
        proof {
            assert(v@ =~= half_caster_row(18));
        }
        v
    } else if level == 19 {
        let v: Vec<u8> = vec![4, 3, 3, 3, 2, 0, 0, 0, 0];
        proof {
            assert(v@ =~= half_caster_row(19));
        }
        v
    } else if level == 20 {
        let v: Vec<u8> = vec![4, 3, 3, 3, 2, 0, 0, 0, 0];
        proof {
            assert(v@ =~= half_caster_row(20));
        }
        v
    } else {
        let v: Vec<u8> = vec![0, 0, 0, 0, 0, 0, 0, 0, 0];
        proof {
            assert(v@ =~= half_caster_row(level as int));
        }
        v
    }
}

/// The third-caster slot row; levels outside 1..=20 yield the zero row.
fn third_caster_slots_row(level: u8) -> (r: Vec<u8>)
    ensures
        r@ == third_caster_row(level as int),
{
    if level == 1 {
        let v: Vec<u8> = vec![0, 0, 0, 0, 0, 0, 0, 0, 0];
        proof {
            assert(v@ =~= third_caster_row(1));
        }
        v
    } else if level == 2 {
        let v: Vec<u8> = vec![0, 0, 0, 0, 0, 0, 0, 0, 0];
        proof {
            assert(v@ =~= third_caster_row(2));
        }
        v
    } else if level == 3 {
        let v: Vec<u8> = vec![2, 0, 0, 0, 0, 0, 0, 0, 0];
        proof {
            assert(v@ =~= third_caster_row(3));
        }
        v
    } else if level == 4 {
        let v: Vec<u8> = vec![3, 0, 0, 0, 0, 0, 0, 0, 0];
        proof {
            assert(v@ =~= third_caster_row(4));
        }
        v
    } else if level == 5 {
        let v: Vec<u8> = vec![3, 0, 0, 0, 0, 0, 0, 0, 0];
        proof {
            assert(v@ =~= third_caster_row(5));
        }
        v
    } else if level == 6 {
        let v: Vec<u8> = vec![3, 0, 0, 0, 0, 0, 0, 0, 0];
        proof {
            assert(v@ =~= third_caster_row(6));
        }
        v
    } else if level == 7 {
        let v: Vec<u8> = vec![4, 2, 0, 0, 0, 0, 0, 0, 0];
        proof {
            assert(v@ =~= third_caster_row(7));
        }
        v
    } else if level == 8 {
        let v: Vec<u8> = vec![4, 2, 0, 0, 0, 0, 0, 0, 0];
        proof {
            assert(v@ =~= third_caster_row(8));
        }
        v
    } else if level == 9 {
        let v: Vec<u8> = vec![4, 2, 0, 0, 0, 0, 0, 0, 0];
        proof {
            assert(v@ =~= third_caster_row(9));
        }
        v
    } else if level == 10 {
        let v: Vec<u8> = vec![4, 3, 0, 0, 0, 0, 0, 0, 0];
        proof {
            assert(v@ =~= third_caster_row(10));
        }
        v
    } else if level == 11 {
        let v: Vec<u8> = vec![4, 3, 0, 0, 0, 0, 0, 0, 0];
        proof {
            assert(v@ =~= third_caster_row(11));
        }
        v
    } else if level == 12 {
        let v: Vec<u8> = vec![4, 3, 0, 0, 0, 0, 0, 0, 0];
        proof {
            assert(v@ =~= third_caster_row(12));
        }
        v
    } else if level == 13 {
        let v: Vec<u8> = vec![4, 3, 2, 0, 0, 0, 0, 0, 0];
        proof {
            assert(v@ =~= third_caster_row(13));
        }
        v
    } else if level == 14 {
        let v: Vec<u8> = vec![4, 3, 2, 0, 0, 0, 0, 0, 0];
        proof {
            assert(v@ =~= third_caster_row(14));
        }
        v
    } else if level == 15 {
        let v: Vec<u8> = vec![4, 3, 2, 0, 0, 0, 0, 0, 0];
        proof {
            assert(v@ =~= third_caster_row(15));
        }
        v
    } else if level == 16 {
        let v: Vec<u8> = vec![4, 3, 3, 0, 0, 0, 0, 0, 0];
        proof {
            assert(v@ =~= third_caster_row(16));
        }
        v
    } else if level == 17 {
        let v: Vec<u8> = vec![4, 3, 3, 0, 0, 0, 0, 0, 0];
        proof {
            assert(v@ =~= third_caster_row(17));
        }
        v
    } else if level == 18 {
        let v: Vec<u8> = vec![4, 3, 3, 0, 0, 0, 0, 0, 0];
        proof {
            assert(v@ =~= third_caster_row(18));
        }
        v
    } else if level == 19 {
        let v: Vec<u8> = vec![4, 3, 3, 1, 0, 0, 0, 0, 0];
        proof {
            assert(v@ =~= third_caster_row(19));
        }
        v
    } else if level == 20 {
        let v: Vec<u8> = vec![4, 3, 3, 1, 0, 0, 0, 0, 0];
        proof {
            assert(v@ =~= third_caster_row(20));
        }
        v
    } else {
        let v: Vec<u8> = vec![0, 0, 0, 0, 0, 0, 0, 0, 0];
        proof {
            assert(v@ =~= third_caster_row(level as int));
        }
        v
    }
}


/// The all-zero row of a non-caster.
pub open spec fn zero_row() -> Seq<u8> {
    seq![0, 0, 0, 0, 0, 0, 0, 0, 0]
}

/// The slot row of an archetype at a character level.
pub open spec fn caster_row(ct: CasterType, level: int) -> Seq<u8> {
    match ct {
        CasterType::Full => full_caster_row(level),
        CasterType::Half => half_caster_row(level),
        CasterType::Third => third_caster_row(level),
        CasterType::NonCaster => zero_row(),
    }
}

/// Levels outside 1..=20 are clamped to the nearest bound.
pub open spec fn clamp_level(level: int) -> int {
    if level < 1 {
        1
    } else if level > 20 {
        20
    } else {
        level
    }
}

/// The (spell level, count) pairs with positive counts among the first `n`
/// entries of a row, ascending by spell level.
pub open spec fn positive_slots_upto(row: Seq<u8>, n: int) -> Seq<(u8, u8)>
    decreases n,
{
    if n <= 0 {
        Seq::empty()
    } else {
        positive_slots_upto(row, n - 1) + if row[n - 1] > 0 {
            seq![(n as u8, row[n - 1])]
        } else {
            Seq::empty()
        }
    }
}

/// The positive (spell level, count) pairs of a whole row.
pub open spec fn positive_slots(row: Seq<u8>) -> Seq<(u8, u8)> {
    positive_slots_upto(row, 9)
}

/// The slot mapping of an archetype at a (clamped) character level.
pub open spec fn slots_for_class(ct: CasterType, level: int) -> Seq<(u8, u8)> {
    positive_slots(caster_row(ct, clamp_level(level)))
}

/// Caster archetype by class name, compared without regard to ASCII case.
pub open spec fn caster_type_of(class: Seq<char>) -> CasterType {
    let c = lower_chars(class);
    if c == "wizard"@ || c == "sorcerer"@ || c == "cleric"@ || c == "druid"@ || c == "bard"@ {
        CasterType::Full
    } else if c == "paladin"@ || c == "ranger"@ {
        CasterType::Half
    } else if c == "fighter"@ || c == "rogue"@ {
        CasterType::Third
    } else {
        CasterType::NonCaster
    }
}

/// Whether a class name is a known non-spellcaster (as opposed to a name
/// the engine does not recognize at all).
pub open spec fn known_non_caster(class: Seq<char>) -> bool {
    let c = lower_chars(class);
    c == "barbarian"@ || c == "monk"@ || c == "fighter"@ || c == "rogue"@ || c == "artificer"@
        || c == "blood hunter"@
}

/// The slot mapping a whole character record yields.
pub open spec fn spell_slots_model(class: Seq<char>, level: u8) -> Seq<(u8, u8)> {
    slots_for_class(caster_type_of(class), level as int)
}

/// The spellcasting modifier for a named ability: wisdom, intelligence and
/// charisma (in any ASCII case) take their modifier, anything else is 0.
pub open spec fn spellcasting_modifier(ability: Seq<char>, a: AbilityScores) -> int {
    let c = lower_chars(ability);
    if c == "wisdom"@ {
        ability_modifier(a.wisdom as int)
    } else if c == "intelligence"@ {
        ability_modifier(a.intelligence as int)
    } else if c == "charisma"@ {
        ability_modifier(a.charisma as int)
    } else {
        0
    }
}

/// One bucket's contribution to the organized spell list: present only
/// when non-empty.
pub open spec fn bucket_entry(level: u8, list: Seq<Spell>) -> Seq<(u8, Seq<Spell>)> {
    if list.len() > 0 {
        seq![(level, list)]
    } else {
        Seq::empty()
    }
}

/// The non-empty buckets of a spell aggregate, in level order.
pub open spec fn organized_spells(s: Spells) -> Seq<(u8, Seq<Spell>)> {
    bucket_entry(0, s.cantrips@) + bucket_entry(1, s.first_level@) + bucket_entry(
        2,
        s.second_level@,
    ) + bucket_entry(3, s.third_level@) + bucket_entry(4, s.fourth_level@) + bucket_entry(
        5,
        s.fifth_level@,
    ) + bucket_entry(6, s.sixth_level@) + bucket_entry(7, s.seventh_level@) + bucket_entry(
        8,
        s.eighth_level@,
    ) + bucket_entry(9, s.ninth_level@)
}

/// The abstract value of an organized spell list.
pub open spec fn org_pairs_view(v: Seq<(u8, Vec<Spell>)>) -> Seq<(u8, Seq<Spell>)> {
    v.map_values(|p: (u8, Vec<Spell>)| (p.0, p.1@))
}

/// Copies a spell list element for element.
fn clone_spell_list(v: &Vec<Spell>) -> (r: Vec<Spell>)
    ensures
        r@ == v@,
{
    let mut r: Vec<Spell> = Vec::new();
    let mut i: usize = 0;
    while i < v.len()
        invariant
            0 <= i <= v@.len(),
            r@ == v@.take(i as int),
        decreases v@.len() - i,
    {
        r.push(v[i].clone());
        proof {
            assert(r@ =~= v@.take(i + 1));
        }
        i = i + 1;
    }
    proof {
        assert(v@.take(v@.len() as int) =~= v@);
    }
    r
}

/// The positive (spell level, count) pairs of a nine-entry row.
fn positive_entries(row: &Vec<u8>) -> (r: Vec<(u8, u8)>)
    requires
        row@.len() == 9,
    ensures
        r@ == positive_slots(row@),
{
    let mut r: Vec<(u8, u8)> = Vec::new();
    let mut i: usize = 0;
    while i < 9
        invariant
            0 <= i <= 9,
            row@.len() == 9,
            r@ == positive_slots_upto(row@, i as int),
        decreases 9 - i,
    {
        if row[i] > 0 {
            r.push(((i + 1) as u8, row[i]));
        }
        proof {
            assert(r@ =~= positive_slots_upto(row@, i + 1));
        }
        i = i + 1;
    }
    r
}

/// Appends one bucket's entry (nothing, when the bucket is empty).
fn push_bucket(out: &mut Vec<(u8, Vec<Spell>)>, level: u8, list: &Vec<Spell>)
    ensures
        org_pairs_view(final(out)@) == org_pairs_view(old(out)@) + bucket_entry(level, list@),
{
    if list.len() > 0 {
        out.push((level, clone_spell_list(list)));
    }
    proof {
        assert(org_pairs_view(out@) =~= org_pairs_view(old(out)@) + bucket_entry(level, list@));
    }
}

impl SpellSystem {
    /// The non-empty spell buckets in level order, each with a copy of its
    /// spells.
    pub fn organize_spells_by_level(spells: &Spells) -> (r: Vec<(u8, Vec<Spell>)>)
        ensures
            org_pairs_view(r@) == organized_spells(*spells),
    {
        let mut organized: Vec<(u8, Vec<Spell>)> = Vec::new();
        push_bucket(&mut organized, 0, &spells.cantrips);
        push_bucket(&mut organized, 1, &spells.first_level);
        push_bucket(&mut organized, 2, &spells.second_level);
        push_bucket(&mut organized, 3, &spells.third_level);
        push_bucket(&mut organized, 4, &spells.fourth_level);
        push_bucket(&mut organized, 5, &spells.fifth_level);
        push_bucket(&mut organized, 6, &spells.sixth_level);
        push_bucket(&mut organized, 7, &spells.seventh_level);
        push_bucket(&mut organized, 8, &spells.eighth_level);
        push_bucket(&mut organized, 9, &spells.ninth_level);
        proof {
            assert(org_pairs_view(Seq::<(u8, Vec<Spell>)>::empty()) =~= Seq::<
                (u8, Seq<Spell>),
            >::empty());
            assert(Seq::<(u8, Seq<Spell>)>::empty() + bucket_entry(0, spells.cantrips@)
                =~= bucket_entry(0, spells.cantrips@));
            assert(org_pairs_view(organized@) == organized_spells(*spells));
        }
        organized
    }

    /// Spell attack bonus: the spellcasting ability modifier plus the
    /// proficiency bonus.
    pub fn calculate_spell_attack_bonus(
        spellcasting_ability_modifier: i8,
        proficiency_bonus: u8,
    ) -> (r: i8)
        requires
            proficiency_bonus <= i8::MAX,
            spellcasting_ability_modifier + proficiency_bonus <= i8::MAX,
        ensures
            r as int == spellcasting_ability_modifier + proficiency_bonus,
    {
        spellcasting_ability_modifier + (proficiency_bonus as i8)
    }

    /// Spell save DC: 8 plus the spellcasting ability modifier plus the
    /// proficiency bonus.
    pub fn calculate_spell_save_dc(
        spellcasting_ability_modifier: i8,
        proficiency_bonus: u8,
    ) -> (r: u8)
        requires
            0 <= 8 + spellcasting_ability_modifier + proficiency_bonus <= u8::MAX,
        ensures
            r as int == 8 + spellcasting_ability_modifier + proficiency_bonus,
    {
        let v: i32 = 8 + (spellcasting_ability_modifier as i32) + (proficiency_bonus as i32);
        v as u8
    }

    /// The modifier of the named spellcasting ability; 0 for a name
    /// outside wisdom, intelligence and charisma.
    pub fn get_spellcasting_ability_modifier(ability: &str, abilities: &AbilityScores) -> (m: i8)
        ensures
            m as int == spellcasting_modifier(ability@, *abilities),
    {
        proof {
            reveal_strlit("wisdom");
            reveal_strlit("intelligence");
            reveal_strlit("charisma");
            assert(lower_chars("wisdom"@) =~= "wisdom"@);
            assert(lower_chars("intelligence"@) =~= "intelligence"@);
            assert(lower_chars("charisma"@) =~= "charisma"@);
        }
        if eq_ignore_ascii_case(ability, "wisdom") {
            modifier_of_score(abilities.wisdom)
        } else if eq_ignore_ascii_case(ability, "intelligence") {
            modifier_of_score(abilities.intelligence)
        } else if eq_ignore_ascii_case(ability, "charisma") {
            modifier_of_score(abilities.charisma)
        } else {
            0
        }
    }

    /// Classifies a class name into its caster archetype, without regard
    /// to ASCII case.
    pub fn get_caster_type(class: &str) -> (r: CasterType)
        ensures
            r == caster_type_of(class@),
    {
        proof {
            reveal_strlit("wizard");
            reveal_strlit("sorcerer");
            reveal_strlit("cleric");
            reveal_strlit("druid");
            reveal_strlit("bard");
            reveal_strlit("paladin");
            reveal_strlit("ranger");
            reveal_strlit("fighter");
            reveal_strlit("rogue");
            assert(lower_chars("wizard"@) =~= "wizard"@);
            assert(lower_chars("sorcerer"@) =~= "sorcerer"@);
            assert(lower_chars("cleric"@) =~= "cleric"@);
            assert(lower_chars("druid"@) =~= "druid"@);
            assert(lower_chars("bard"@) =~= "bard"@);
            assert(lower_chars("paladin"@) =~= "paladin"@);
            assert(lower_chars("ranger"@) =~= "ranger"@);
            assert(lower_chars("fighter"@) =~= "fighter"@);
            assert(lower_chars("rogue"@) =~= "rogue"@);
        }
        if eq_ignore_ascii_case(class, "wizard") || eq_ignore_ascii_case(class, "sorcerer")
            || eq_ignore_ascii_case(class, "cleric") || eq_ignore_ascii_case(class, "druid")
            || eq_ignore_ascii_case(class, "bard") {
            CasterType::Full
        } else if eq_ignore_ascii_case(class, "paladin") || eq_ignore_ascii_case(class, "ranger") {
            CasterType::Half
        } else if eq_ignore_ascii_case(class, "fighter") || eq_ignore_ascii_case(class, "rogue") {
            CasterType::Third
        } else {
            CasterType::NonCaster
        }
    }

    /// Whether a class name is a known non-spellcaster; a false result for
    /// a non-caster classification means the name was not recognized at
    /// all, which callers may surface as an advisory.
    pub fn is_known_non_caster(class: &str) -> (r: bool)
        ensures
            r == known_non_caster(class@),
    {
        proof {
            reveal_strlit("barbarian");
            reveal_strlit("monk");
            reveal_strlit("fighter");
            reveal_strlit("rogue");
            reveal_strlit("artificer");
            reveal_strlit("blood hunter");
            assert(lower_chars("barbarian"@) =~= "barbarian"@);
            assert(lower_chars("monk"@) =~= "monk"@);
            assert(lower_chars("fighter"@) =~= "fighter"@);
            assert(lower_chars("rogue"@) =~= "rogue"@);
            assert(lower_chars("artificer"@) =~= "artificer"@);
            assert(lower_chars("blood hunter"@) =~= "blood hunter"@);
        }
        eq_ignore_ascii_case(class, "barbarian") || eq_ignore_ascii_case(class, "monk")
            || eq_ignore_ascii_case(class, "fighter") || eq_ignore_ascii_case(class, "rogue")
            || eq_ignore_ascii_case(class, "artificer") || eq_ignore_ascii_case(
            class,
            "blood hunter",
        )
    }

    /// The slot mapping for a whole character record: classify the class,
    /// clamp the level, read the table, and keep the positive counts.
    /// The result never carries a zero count, and its spell levels are
    /// ascending within 1..=9.
    pub fn calculate_spell_slots(character: &CharacterData) -> (r: Vec<(u8, u8)>)
        ensures
            r@ == spell_slots_model(character.character.class@, character.character.level),
            forall|i: int| 0 <= i < r@.len() ==> (#[trigger] r@[i]).1 > 0,
            forall|i: int| 0 <= i < r@.len() ==> 1 <= (#[trigger] r@[i]).0 <= 9,
    {
        let caster_type = Self::get_caster_type(character.character.class.as_str());
        let r = Self::get_spell_slots_for_single_class(character.character.level, caster_type);
        proof {
            let row = caster_row(caster_type, clamp_level(character.character.level as int));
            assert(row.len() == 9);
            lemma_positive_slots_facts(row, 9);
        }
        r
    }

    /// The slot mapping for a level and an archetype; levels outside
    /// 1..=20 are clamped to the nearest bound.
    pub fn get_spell_slots_for_single_class(level: u8, caster_type: CasterType) -> (r: Vec<
        (u8, u8),
    >)
        ensures
            r@ == slots_for_class(caster_type, level as int),
    {
        let clamped: u8 = if level < 1 {
            1
        } else if level > 20 {
            20
        } else {
            level
        };
        let row = match caster_type {
            CasterType::Full => Self::get_full_caster_spell_slots(clamped),
            CasterType::Half => Self::get_half_caster_spell_slots(clamped),
            CasterType::Third => Self::get_third_caster_spell_slots(clamped),
            CasterType::NonCaster => {
                let v: Vec<u8> = vec![0, 0, 0, 0, 0, 0, 0, 0, 0];
                proof {
                    assert(v@ =~= zero_row());
                }
                v
            },
        };
        positive_entries(&row)
    }

    /// The full-caster slot row; levels outside 1..=20 yield the zero row.
    pub fn get_full_caster_spell_slots(level: u8) -> (r: Vec<u8>)
        ensures
            r@ == full_caster_row(level as int),
    {
        full_caster_slots_row(level)
    }

    /// The half-caster slot row; levels outside 1..=20 yield the zero row.
    pub fn get_half_caster_spell_slots(level: u8) -> (r: Vec<u8>)
        ensures
            r@ == half_caster_row(level as int),
    {
        half_caster_slots_row(level)
    }

    /// The third-caster slot row; levels outside 1..=20 yield the zero row.
    pub fn get_third_caster_spell_slots(level: u8) -> (r: Vec<u8>)
        ensures
            r@ == third_caster_row(level as int),
    {
        third_caster_slots_row(level)
    }
}

/// Every entry of a slot mapping prefix has a positive count, a spell
/// level between 1 and the prefix bound, the count the row holds for that
/// spell level, and the spell levels are strictly ascending.
pub proof fn lemma_positive_slots_facts(row: Seq<u8>, n: int)
    requires
        row.len() == 9,
        0 <= n <= 9,
    ensures
        forall|i: int| 0 <= i < positive_slots_upto(row, n).len() ==> 1 <= (
        #[trigger] positive_slots_upto(row, n)[i]).0 <= n,
        forall|i: int| 0 <= i < positive_slots_upto(row, n).len() ==> (
        #[trigger] positive_slots_upto(row, n)[i]).1 > 0,
        forall|i: int| 0 <= i < positive_slots_upto(row, n).len() ==> (
        #[trigger] positive_slots_upto(row, n)[i]).1 == row[positive_slots_upto(row, n)[i].0 - 1],
        forall|i: int, j: int|
            0 <= i < j < positive_slots_upto(row, n).len() ==> (#[trigger] positive_slots_upto(
                row,
                n,
            )[i]).0 < (#[trigger] positive_slots_upto(row, n)[j]).0,
    decreases n,
{
    if n > 0 {
        lemma_positive_slots_facts(row, n - 1);
        let prev = positive_slots_upto(row, n - 1);
        let cur = positive_slots_upto(row, n);
        assert(forall|i: int| 0 <= i < prev.len() ==> #[trigger] cur[i] == prev[i]);
        if row[n - 1] > 0 {
            assert(cur.len() == prev.len() + 1);
            assert(cur[cur.len() - 1] == (n as u8, row[n - 1]));
        } else {
            assert(cur =~= prev);
        }
    }
}

/// Law: the spell-slot computation is deterministic — two slot mappings
/// computed from the same class and level are identical — and a slot
/// mapping never carries a zero-count entry: its keys are distinct spell
/// levels in 1..=9, in strictly ascending order.
pub proof fn lemma_spell_slots_idempotent(
    class: Seq<char>,
    level: u8,
    a: Seq<(u8, u8)>,
    b: Seq<(u8, u8)>,
)
    requires
        a == spell_slots_model(class, level),
        b == spell_slots_model(class, level),
    ensures
        a == b,
        forall|i: int| 0 <= i < a.len() ==> (#[trigger] a[i]).1 > 0,
        forall|i: int| 0 <= i < a.len() ==> 1 <= (#[trigger] a[i]).0 <= 9,
        forall|i: int, j: int| 0 <= i < j < a.len() ==> a[i].0 < a[j].0,
{
    let row = caster_row(caster_type_of(class), clamp_level(level as int));
    assert(row.len() == 9);
    lemma_positive_slots_facts(row, 9);
}

} // verus!
