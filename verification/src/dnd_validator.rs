//! The rule validator: checks a character record against the game-rule
//! invariants, in strict or permissive mode.  All checks are evaluated; the
//! result is the exact ordered union of every violation found.

use vstd::prelude::*;
use crate::character_model::{Ability, AbilityScores, CharacterData, Spell, Spells};
use crate::character_model::proficiency_bonus_for;
use crate::errors::ValidationError;

verus! {

/// The violation an out-of-range score for one ability contributes.
pub open spec fn ability_entry(name: Ability, value: u8) -> Seq<ValidationError> {
    if value < 1 || value > 20 {
        seq![ValidationError::AbilityScore { ability: name, value }]
    } else {
        Seq::empty()
    }
}

/// The violations of the six ability-score range checks, in ability order.
pub open spec fn ability_violations(a: AbilityScores) -> Seq<ValidationError> {
    ability_entry(Ability::Strength, a.strength) + ability_entry(Ability::Dexterity, a.dexterity)
        + ability_entry(Ability::Constitution, a.constitution)
        + ability_entry(Ability::Intelligence, a.intelligence)
        + ability_entry(Ability::Wisdom, a.wisdom) + ability_entry(Ability::Charisma, a.charisma)
}

/// The violation of the level range check.
pub open spec fn level_violations(level: u8) -> Seq<ValidationError> {
    if level < 1 || level > 20 {
        seq![ValidationError::Level { level }]
    } else {
        Seq::empty()
    }
}

/// The minimum experience points required for a level, from the standard
/// 20-row level-to-XP table.
pub open spec fn xp_threshold(level: int) -> u32 {
    if level == 1 {
        0
    } else if level == 2 {
        300
    } else if level == 3 {
        900
    } else if level == 4 {
        2700
    } else if level == 5 {
        6500
    } else if level == 6 {
        14000
    } else if level == 7 {
        23000
    } else if level == 8 {
        34000
    } else if level == 9 {
        48000
    } else if level == 10 {
        64000
    } else if level == 11 {
        85000
    } else if level == 12 {
        100000
    } else if level == 13 {
        120000
    } else if level == 14 {
        140000
    } else if level == 15 {
        165000
    } else if level == 16 {
        195000
    } else if level == 17 {
        225000
    } else if level == 18 {
        265000
    } else if level == 19 {
        305000
    } else if level == 20 {
        355000
    } else {
        0
    }
}

/// The violation of the experience-point check: for a level inside 1..=20,
/// stated experience below the level's threshold is a violation; outside
/// that range the check does not apply (the level check reports instead).
pub open spec fn xp_violations(xp: u32, level: u8) -> Seq<ValidationError> {
    if 1 <= level && level <= 20 && (xp as int) < xp_threshold(level as int) {
        seq![
            ValidationError::ExperiencePoints {
                xp,
                level,
                required: xp_threshold(level as int),
            },
        ]
    } else {
        Seq::empty()
    }
}

/// The violations of one spell bucket: one entry, in list order, for every
/// spell whose stored level differs from the bucket's level.
pub open spec fn spell_list_violations(list: Seq<Spell>, expected: u8) -> Seq<ValidationError>
    decreases list.len(),
{
    if list.len() == 0 {
        Seq::empty()
    } else {
        spell_list_violations(list.drop_last(), expected) + (
        if list.last().level != expected {
            seq![
                ValidationError::Spell {
                    spell: list.last().name,
                    level: list.last().level,
                    expected_level: expected,
                },
            ]
        } else {
            Seq::empty()
        })
    }
}

/// The violations of the whole spell aggregate, bucket by bucket from
/// cantrips up to ninth level.
pub open spec fn spells_violations(s: Spells) -> Seq<ValidationError> {
    spell_list_violations(s.cantrips@, 0) + spell_list_violations(s.first_level@, 1)
        + spell_list_violations(s.second_level@, 2) + spell_list_violations(s.third_level@, 3)
        + spell_list_violations(s.fourth_level@, 4) + spell_list_violations(s.fifth_level@, 5)
        + spell_list_violations(s.sixth_level@, 6) + spell_list_violations(s.seventh_level@, 7)
        + spell_list_violations(s.eighth_level@, 8) + spell_list_violations(s.ninth_level@, 9)
}

/// Every violation a character record holds, in check order: ability
/// scores, level, experience points (when stated), spells (when present).
pub open spec fn all_violations(d: CharacterData) -> Seq<ValidationError> {
    ability_violations(d.abilities) + level_violations(d.character.level) + (
    match d.character.experience_points {
        Option::Some(xp) => xp_violations(xp, d.character.level),
        Option::None => Seq::empty(),
    }) + (match d.spells {
        Option::Some(s) => spells_violations(s),
        Option::None => Seq::empty(),
    })
}

/// The rule validator; `allow_rule_violations` selects permissive mode.
#[derive(Debug, Clone)]
pub struct DndValidator {
    pub allow_rule_violations: bool,
}

impl DndValidator {
    /// A validator in the given mode.
    pub fn new(allow_rule_violations: bool) -> (v: Self)
        ensures
            v.allow_rule_violations == allow_rule_violations,
    {
        Self { allow_rule_violations }
    }

    /// Checks the record against every rule.  In permissive mode any
    /// violations come back as warnings with `Ok`; in strict mode a
    /// non-empty violation set is the `Err` value, and `Ok` carries an
    /// empty list.
    pub fn validate(&self, character: &CharacterData) -> (r: Result<
        Vec<ValidationError>,
        Vec<ValidationError>,
    >)
        ensures
            match r {
                Result::Ok(warnings) => warnings@ == all_violations(*character) && (warnings@.len()
                    == 0 || self.allow_rule_violations),
                Result::Err(errors) => errors@ == all_violations(*character) && errors@.len() > 0
                    && !self.allow_rule_violations,
            },
    {
        let mut errors: Vec<ValidationError> = Vec::new();

        self.validate_ability_scores(&character.abilities, &mut errors);
        self.validate_level(character.character.level, &mut errors);
        if let Option::Some(xp) = character.character.experience_points {
            self.validate_experience_points(xp, character.character.level, &mut errors);
        }
        if let Option::Some(spells) = &character.spells {
            self.validate_spells(spells, &mut errors);
        }
        proof {
            assert(errors@ =~= all_violations(*character));
        }
        if errors.len() == 0 || self.allow_rule_violations {
            Result::Ok(errors)
        } else {
            Result::Err(errors)
        }
    }

    /// Appends the out-of-range violations of the six ability scores.
    fn validate_ability_scores(&self, abilities: &AbilityScores, errors: &mut Vec<ValidationError>)
        ensures
            final(errors)@ == old(errors)@ + ability_violations(*abilities),
    {
        if abilities.strength < 1 || abilities.strength > 20 {
            errors.push(
                ValidationError::AbilityScore {
                    ability: Ability::Strength,
                    value: abilities.strength,
                },
            );
        }
        if abilities.dexterity < 1 || abilities.dexterity > 20 {
            errors.push(
                ValidationError::AbilityScore {
                    ability: Ability::Dexterity,
                    value: abilities.dexterity,
                },
            );
        }
        if abilities.constitution < 1 || abilities.constitution > 20 {
            errors.push(
                ValidationError::AbilityScore {
                    ability: Ability::Constitution,
                    value: abilities.constitution,
                },
            );
        }
        if abilities.intelligence < 1 || abilities.intelligence > 20 {
            errors.push(
                ValidationError::AbilityScore {
                    ability: Ability::Intelligence,
                    value: abilities.intelligence,
                },
            );
        }
        if abilities.wisdom < 1 || abilities.wisdom > 20 {
            errors.push(
                ValidationError::AbilityScore { ability: Ability::Wisdom, value: abilities.wisdom },
            );
        }
        if abilities.charisma < 1 || abilities.charisma > 20 {
            errors.push(
                ValidationError::AbilityScore {
                    ability: Ability::Charisma,
                    value: abilities.charisma,
                },
            );
        }
        proof {
            assert(errors@ =~= old(errors)@ + ability_violations(*abilities));
        }
    }

    /// Appends the level range violation, if any.
    fn validate_level(&self, level: u8, errors: &mut Vec<ValidationError>)
        ensures
            final(errors)@ == old(errors)@ + level_violations(level),
    {
        if level < 1 || level > 20 {
            errors.push(ValidationError::Level { level });
        }
        proof {
            assert(errors@ =~= old(errors)@ + level_violations(level));
        }
    }

    /// Appends the experience-point violation, if any.
    fn validate_experience_points(&self, xp: u32, level: u8, errors: &mut Vec<ValidationError>)
        ensures
            final(errors)@ == old(errors)@ + xp_violations(xp, level),
    {
        if 1 <= level && level <= 20 {
            let required = required_xp(level);
            if xp < required {
                errors.push(ValidationError::ExperiencePoints { xp, level, required });
            }
        }
        proof {
            assert(errors@ =~= old(errors)@ + xp_violations(xp, level));
        }
    }

    /// Appends every spell-level mismatch, bucket by bucket.
    fn validate_spells(&self, spells: &Spells, errors: &mut Vec<ValidationError>)
        ensures
            final(errors)@ == old(errors)@ + spells_violations(*spells),
    {
        check_spell_list(&spells.cantrips, 0, errors);
        check_spell_list(&spells.first_level, 1, errors);
        check_spell_list(&spells.second_level, 2, errors);
        check_spell_list(&spells.third_level, 3, errors);
        check_spell_list(&spells.fourth_level, 4, errors);
        check_spell_list(&spells.fifth_level, 5, errors);
        check_spell_list(&spells.sixth_level, 6, errors);
        check_spell_list(&spells.seventh_level, 7, errors);
        check_spell_list(&spells.eighth_level, 8, errors);
        check_spell_list(&spells.ninth_level, 9, errors);
        proof {
            assert(errors@ =~= old(errors)@ + spells_violations(*spells));
        }
    }

    /// The level-banded proficiency bonus.
    pub fn proficiency_bonus(level: u8) -> (b: u8)
        ensures
            b as int == proficiency_bonus_for(level as int),
    {
        crate::character_model::get_proficiency_bonus(level)
    }
}

/// The XP threshold of a level inside 1..=20.
fn required_xp(level: u8) -> (r: u32)
    requires
        1 <= level <= 20,
    ensures
        r == xp_threshold(level as int),
{
    if level == 1 {
        0
    } else if level == 2 {
        300
    } else if level == 3 {
        900
    } else if level == 4 {
        2700
    } else if level == 5 {
        6500
    } else if level == 6 {
        14000
    } else if level == 7 {
        23000
    } else if level == 8 {
        34000
    } else if level == 9 {
        48000
    } else if level == 10 {
        64000
    } else if level == 11 {
        85000
    } else if level == 12 {
        100000
    } else if level == 13 {
        120000
    } else if level == 14 {
        140000
    } else if level == 15 {
        165000
    } else if level == 16 {
        195000
    } else if level == 17 {
        225000
    } else if level == 18 {
        265000
    } else if level == 19 {
        305000
    } else {
        355000
    }
}

/// Appends the mismatch violations of one spell bucket, in list order.
fn check_spell_list(list: &Vec<Spell>, expected: u8, errors: &mut Vec<ValidationError>)
    ensures
        final(errors)@ == old(errors)@ + spell_list_violations(list@, expected),
{
    let mut i: usize = 0;
    while i < list.len()
        invariant
            0 <= i <= list@.len(),
            errors@ == old(errors)@ + spell_list_violations(list@.take(i as int), expected),
        decreases list@.len() - i,
    {
        proof {
            assert(list@.take(i + 1).drop_last() =~= list@.take(i as int));
            assert(list@.take(i + 1).last() == list@[i as int]);
        }
        if list[i].level != expected {
            let err = ValidationError::Spell {
                spell: list[i].name.clone(),
                level: list[i].level,
                expected_level: expected,
            };
            errors.push(err);
        }
        proof {
            assert(errors@ =~= old(errors)@ + spell_list_violations(
                list@.take(i + 1),
                expected,
            ));
        }
        i = i + 1;
    }
    proof {
        assert(list@.take(list@.len() as int) =~= list@);
    }
}

} // verus!
