//! The character data model and the basic derived-stat calculations:
//! ability modifiers, the proficiency bonus, saving-throw and skill bonuses,
//! and the closed skill-to-ability vocabulary.

use vstd::prelude::*;
use crate::text::str_eq;

verus! {

/// The six abilities, a closed vocabulary.
#[derive(Debug, Clone, Copy, PartialEq, Eq, Structural)]
pub enum Ability {
    Strength,
    Dexterity,
    Constitution,
    Intelligence,
    Wisdom,
    Charisma,
}

/// Identity and narrative header of a character.
#[derive(Debug, Clone)]
pub struct Character {
    pub name: String,
    pub class: String,
    pub level: u8,
    pub race: String,
    pub background: Option<String>,
    pub player_name: Option<String>,
    pub alignment: Option<String>,
    pub experience_points: Option<u32>,
}

/// The six raw ability scores, each intended to lie in 1..=20.
#[derive(Debug, Clone, Copy, PartialEq, Eq, Structural)]
pub struct AbilityScores {
    pub strength: u8,
    pub dexterity: u8,
    pub constitution: u8,
    pub intelligence: u8,
    pub wisdom: u8,
    pub charisma: u8,
}

/// The ability modifier: floor((score - 10) / 2).  `/` on `int` rounds
/// toward negative infinity for this positive divisor, so this is the floor,
/// not truncation: ability_modifier(1) == -5, not -4.
pub open spec fn ability_modifier(score: int) -> int {
    (score - 10) / 2
}

/// Computes floor((score - 10) / 2) in executable code, which must round
/// toward negative infinity where Rust's `/` would round toward zero.
pub fn modifier_of_score(score: u8) -> (m: i8)
    ensures
        m as int == ability_modifier(score as int),
{
    if score >= 10 {
        ((score - 10) / 2) as i8
    } else {
        let d: u8 = 10 - score;
        -(((d + 1) / 2) as i8)
    }
}

/// The score a set of ability scores holds for the named ability;
/// unknown names read as the neutral score 10.
pub open spec fn spec_ability_score(a: AbilityScores, ability: Seq<char>) -> u8 {
    if ability == "strength"@ {
        a.strength
    } else if ability == "dexterity"@ {
        a.dexterity
    } else if ability == "constitution"@ {
        a.constitution
    } else if ability == "intelligence"@ {
        a.intelligence
    } else if ability == "wisdom"@ {
        a.wisdom
    } else if ability == "charisma"@ {
        a.charisma
    } else {
        10
    }
}

/// The modifier the named ability contributes; unknown names contribute 0.
pub open spec fn spec_modifier(a: AbilityScores, ability: Seq<char>) -> int {
    if ability == "strength"@ {
        ability_modifier(a.strength as int)
    } else if ability == "dexterity"@ {
        ability_modifier(a.dexterity as int)
    } else if ability == "constitution"@ {
        ability_modifier(a.constitution as int)
    } else if ability == "intelligence"@ {
        ability_modifier(a.intelligence as int)
    } else if ability == "wisdom"@ {
        ability_modifier(a.wisdom as int)
    } else if ability == "charisma"@ {
        ability_modifier(a.charisma as int)
    } else {
        0
    }
}

impl AbilityScores {
    /// The floor modifier of the ability named by `ability`
    /// ("strength" .. "charisma"); 0 for any other name.
    pub fn modifier(&self, ability: &str) -> (m: i8)
        ensures
            m as int == spec_modifier(*self, ability@),
    {
        if str_eq(ability, "strength") {
            modifier_of_score(self.strength)
        } else if str_eq(ability, "dexterity") {
            modifier_of_score(self.dexterity)
        } else if str_eq(ability, "constitution") {
            modifier_of_score(self.constitution)
        } else if str_eq(ability, "intelligence") {
            modifier_of_score(self.intelligence)
        } else if str_eq(ability, "wisdom") {
            modifier_of_score(self.wisdom)
        } else if str_eq(ability, "charisma") {
            modifier_of_score(self.charisma)
        } else {
            0
        }
    }

    /// The raw score of the ability named by `ability`; 10 for any other
    /// name.
    pub fn get_ability_score(&self, ability: &str) -> (s: u8)
        ensures
            s == spec_ability_score(*self, ability@),
    {
        if str_eq(ability, "strength") {
            self.strength
        } else if str_eq(ability, "dexterity") {
            self.dexterity
        } else if str_eq(ability, "constitution") {
            self.constitution
        } else if str_eq(ability, "intelligence") {
            self.intelligence
        } else if str_eq(ability, "wisdom") {
            self.wisdom
        } else if str_eq(ability, "charisma") {
            self.charisma
        } else {
            10
        }
    }
}

/// The proficiency bonus by character level: +2 for levels 1-4, +3 for 5-8,
/// +4 for 9-12, +5 for 13-16, +6 for 17-20, and the defensive default +2
/// for levels outside 1..=20.
pub open spec fn proficiency_bonus_for(level: int) -> int {
    if 1 <= level && level <= 4 {
        2
    } else if 5 <= level && level <= 8 {
        3
    } else if 9 <= level && level <= 12 {
        4
    } else if 13 <= level && level <= 16 {
        5
    } else if 17 <= level && level <= 20 {
        6
    } else {
        2
    }
}

/// The level-banded proficiency bonus.
pub fn get_proficiency_bonus(level: u8) -> (b: u8)
    ensures
        b as int == proficiency_bonus_for(level as int),
{
    if 1 <= level && level <= 4 {
        2
    } else if 5 <= level && level <= 8 {
        3
    } else if 9 <= level && level <= 12 {
        4
    } else if 13 <= level && level <= 16 {
        5
    } else if 17 <= level && level <= 20 {
        6
    } else {
        2
    }
}

/// Saving-throw (and skill) bonus: the ability modifier, plus the
/// proficiency bonus when proficient.
pub open spec fn saving_throw_bonus(score: int, level: int, proficient: bool) -> int {
    ability_modifier(score) + if proficient {
        proficiency_bonus_for(level)
    } else {
        0
    }
}

/// The saving-throw bonus for a raw score, a level, and a proficiency flag.
pub fn calculate_saving_throw_bonus(ability_score: u8, level: u8, is_proficient: bool) -> (b: i8)
    requires
        saving_throw_bonus(ability_score as int, level as int, is_proficient) <= i8::MAX,
    ensures
        b as int == saving_throw_bonus(ability_score as int, level as int, is_proficient),
{
    let m = modifier_of_score(ability_score);
    if is_proficient {
        let p = get_proficiency_bonus(level);
        m + (p as i8)
    } else {
        m
    }
}

/// The skill bonus: the same formula as the saving throw, parameterized by
/// the ability backing the skill.
pub fn calculate_skill_bonus(ability_score: u8, level: u8, is_proficient: bool) -> (b: i8)
    requires
        saving_throw_bonus(ability_score as int, level as int, is_proficient) <= i8::MAX,
    ensures
        b as int == saving_throw_bonus(ability_score as int, level as int, is_proficient),
{
    calculate_saving_throw_bonus(ability_score, level, is_proficient)
}

/// The ability that backs each of the eighteen skills; any name outside the
/// closed vocabulary falls back to "intelligence".
pub open spec fn skill_backing_ability(skill: Seq<char>) -> Seq<char> {
    if skill == "athletics"@ {
        "strength"@
    } else if skill == "acrobatics"@ || skill == "sleight_of_hand"@ || skill == "stealth"@ {
        "dexterity"@
    } else if skill == "arcana"@ || skill == "history"@ || skill == "investigation"@
        || skill == "nature"@ || skill == "religion"@ {
        "intelligence"@
    } else if skill == "animal_handling"@ || skill == "insight"@ || skill == "medicine"@
        || skill == "perception"@ || skill == "survival"@ {
        "wisdom"@
    } else if skill == "deception"@ || skill == "intimidation"@ || skill == "performance"@
        || skill == "persuasion"@ {
        "charisma"@
    } else {
        "intelligence"@
    }
}

/// The standard skill-to-ability mapping.
pub fn get_skill_ability(skill: &str) -> (a: &'static str)
    ensures
        a@ == skill_backing_ability(skill@),
{
    if str_eq(skill, "athletics") {
        "strength"
    } else if str_eq(skill, "acrobatics") || str_eq(skill, "sleight_of_hand")
        || str_eq(skill, "stealth") {
        "dexterity"
    } else if str_eq(skill, "arcana") || str_eq(skill, "history")
        || str_eq(skill, "investigation") || str_eq(skill, "nature")
        || str_eq(skill, "religion") {
        "intelligence"
    } else if str_eq(skill, "animal_handling") || str_eq(skill, "insight")
        || str_eq(skill, "medicine") || str_eq(skill, "perception")
        || str_eq(skill, "survival") {
        "wisdom"
    } else if str_eq(skill, "deception") || str_eq(skill, "intimidation")
        || str_eq(skill, "performance") || str_eq(skill, "persuasion") {
        "charisma"
    } else {
        "intelligence"
    }
}

/// Law: for every score from 1 to 20 the ability modifier is the floor of
/// (score - 10) / 2 — the unique m with 2m <= score - 10 < 2m + 2 — and the
/// spot values fall out of it.
pub proof fn lemma_ability_modifier_is_floor(score: int)
    requires
        1 <= score <= 20,
    ensures
        2 * ability_modifier(score) <= score - 10 < 2 * ability_modifier(score) + 2,
        ability_modifier(10) == 0,
        ability_modifier(16) == 3,
        ability_modifier(8) == -1,
        ability_modifier(1) == -5,
        ability_modifier(20) == 5,
{
}

/// Law: across levels 1 to 20 the proficiency bonus is the non-decreasing
/// step function 2 + (level - 1) / 4, whose exactly five plateaus 2, 3, 4,
/// 5, 6 begin at levels 1, 5, 9, 13 and 17.
pub proof fn lemma_proficiency_bonus_steps(l1: int, l2: int)
    requires
        1 <= l1 <= 20,
        1 <= l2 <= 20,
    ensures
        proficiency_bonus_for(l1) == 2 + (l1 - 1) / 4,
        l1 <= l2 ==> proficiency_bonus_for(l1) <= proficiency_bonus_for(l2),
        2 <= proficiency_bonus_for(l1) <= 6,
        proficiency_bonus_for(1) == 2 && proficiency_bonus_for(4) == 2,
        proficiency_bonus_for(5) == 3 && proficiency_bonus_for(8) == 3,
        proficiency_bonus_for(9) == 4 && proficiency_bonus_for(12) == 4,
        proficiency_bonus_for(13) == 5 && proficiency_bonus_for(16) == 5,
        proficiency_bonus_for(17) == 6 && proficiency_bonus_for(20) == 6,
{
}

/// Skill proficiency lists carried alongside a character.
#[derive(Debug, Clone)]
pub struct Skills {
    pub proficient_skills: Vec<String>,
    pub expertise_skills: Vec<String>,
}

/// Optional combat block; all pass-through data.
#[derive(Debug, Clone)]
pub struct Combat {
    pub armor_class: Option<u8>,
    pub initiative: Option<i8>,
    pub speed: Option<u8>,
    pub hit_point_maximum: Option<u16>,
    pub current_hit_points: Option<u16>,
    pub temporary_hit_points: Option<u16>,
    pub hit_dice: Option<String>,
    pub hit_dice_total: Option<u8>,
}

/// One spell: its name, its level, and whether it is prepared.
#[derive(Debug)]
pub struct Spell {
    pub name: String,
    pub level: u8,
    pub prepared: bool,
}

impl Clone for Spell {
    /// A field-for-field copy.
    fn clone(&self) -> (r: Self)
        ensures
            r == *self,
    {
        Spell { name: self.name.clone(), level: self.level, prepared: self.prepared }
    }
}

/// The spellcasting aggregate: header fields and nine ordered buckets, one
/// per spell level 0 (cantrips) through 9.  The intended invariant, checked
/// by the validator, is that every spell's stored level equals the index of
/// the bucket holding it.
#[derive(Debug, Clone)]
pub struct Spells {
    pub spellcasting_class: Option<String>,
    pub spellcasting_ability: Option<String>,
    pub cantrips: Vec<Spell>,
    pub first_level: Vec<Spell>,
    pub second_level: Vec<Spell>,
    pub third_level: Vec<Spell>,
    pub fourth_level: Vec<Spell>,
    pub fifth_level: Vec<Spell>,
    pub sixth_level: Vec<Spell>,
    pub seventh_level: Vec<Spell>,
    pub eighth_level: Vec<Spell>,
    pub ninth_level: Vec<Spell>,
}

/// Names of saving throws and skills the character is proficient in.
#[derive(Debug, Clone)]
pub struct Proficiencies {
    pub saving_throws: Vec<String>,
    pub skills: Vec<String>,
}

/// Optional equipment block.
#[derive(Debug, Clone)]
pub struct Equipment {
    pub currency: Option<Currency>,
    pub items: Option<String>,
}

/// Coin counts by denomination.
#[derive(Debug, Clone)]
pub struct Currency {
    pub cp: u32,
    pub sp: u32,
    pub ep: u32,
    pub gp: u32,
    pub pp: u32,
}

/// Free-text narrative fields.
#[derive(Debug, Clone)]
pub struct CharacterNarrative {
    pub personality_traits: Option<String>,
    pub ideals: Option<String>,
    pub bonds: Option<String>,
    pub flaws: Option<String>,
}

/// Optional feature and trait lists.
#[derive(Debug, Clone)]
pub struct FeaturesTraits {
    pub features: Option<Vec<String>>,
    pub traits: Option<Vec<String>>,
}

/// The aggregate root: the sole unit of validation and computation.
#[derive(Debug, Clone)]
pub struct CharacterData {
    pub character: Character,
    pub abilities: AbilityScores,
    pub proficiencies: Option<Proficiencies>,
    pub combat: Option<Combat>,
    pub spells: Option<Spells>,
    pub equipment: Option<Equipment>,
    pub narrative: Option<CharacterNarrative>,
    pub features_traits: Option<FeaturesTraits>,
}

} // verus!
