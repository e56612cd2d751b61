//! The field-mapping layer: turns a validated character record into the
//! exact list of (output-field identifier, value) pairs and checkbox
//! marks that fill the sheet.
//!
//! The result is an ordered list of pairs; reading it as a mapping means
//! that a later entry for the same identifier supersedes an earlier one.
//! A logical key the static table does not know contributes nothing.

use vstd::prelude::*;
use crate::character_model::{
    ability_modifier, proficiency_bonus_for, saving_throw_bonus, AbilityScores, Character,
    CharacterData, Combat, Currency, Equipment, FeaturesTraits, Proficiencies, Spell, Spells,
};
use crate::character_model::{calculate_saving_throw_bonus, get_proficiency_bonus,
    modifier_of_score};
use crate::dnd_validator::DndValidator;
use crate::errors::ValidationError;
use crate::field_mapper::{
    pdf_field_name, spell_field_name_spec, spell_prepared_checkbox_spec, FieldMapper,
};
use crate::narrative_handler::{truncated, NarrativeHandler};
use crate::spell_system::{spell_slots_model, spellcasting_modifier, SpellSystem};
use crate::text::{
    bonus_rep, bool_pairs_view, dec_rep, int_rep, is_substring_of, pairs_view,
    seq_contains_string, starts_with, str_contains, str_eq, str_starts_with, u32_to_string,
    vec_contains_str,
};
use crate::text::{format_bonus, i32_to_string};

verus! {

// ---------------------------------------------------------------------------
// Model building blocks
// ---------------------------------------------------------------------------

/// One text entry under an optional identifier: nothing when the key is
/// unknown to the table.
pub open spec fn opt_text_entry(k: Option<Seq<char>>, v: Seq<char>) -> Seq<
    (Seq<char>, Seq<char>),
> {
    match k {
        Option::Some(name) => seq![(name, v)],
        Option::None => Seq::empty(),
    }
}

/// One checkbox entry under an optional identifier.
pub open spec fn opt_bool_entry(k: Option<Seq<char>>, b: bool) -> Seq<(Seq<char>, bool)> {
    match k {
        Option::Some(name) => seq![(name, b)],
        Option::None => Seq::empty(),
    }
}

/// The rendering of a saving-throw or skill bonus, guarded by the score's
/// range: scores outside 1..=20 render as "ERROR".
pub open spec fn safe_bonus_text(score: int, level: int, proficient: bool) -> Seq<char> {
    if 1 <= score <= 20 {
        bonus_rep(saving_throw_bonus(score, level, proficient))
    } else {
        "ERROR"@
    }
}

/// The rendering of an ability modifier, guarded by the score's range.
pub open spec fn safe_modifier_text(score: int) -> Seq<char> {
    if 1 <= score <= 20 {
        bonus_rep(ability_modifier(score))
    } else {
        "ERROR"@
    }
}

/// The hit-die name of a class, with d8 for anything unknown.
pub open spec fn hit_die_name(class: Seq<char>) -> Seq<char> {
    if class == "Barbarian"@ {
        "d12"@
    } else if class == "Fighter"@ || class == "Paladin"@ || class == "Ranger"@ {
        "d10"@
    } else if class == "Bard"@ || class == "Cleric"@ || class == "Druid"@ || class == "Monk"@
        || class == "Rogue"@ || class == "Warlock"@ {
        "d8"@
    } else if class == "Sorcerer"@ || class == "Wizard"@ {
        "d6"@
    } else {
        "d8"@
    }
}

/// The spellcasting ability a class implies when the record carries no
/// spell aggregate (exact class names).
pub open spec fn inferred_ability(class: Seq<char>) -> Option<Seq<char>> {
    if class == "Wizard"@ || class == "Eldritch Knight"@ || class == "Arcane Trickster"@ {
        Option::Some("Intelligence"@)
    } else if class == "Cleric"@ || class == "Druid"@ || class == "Ranger"@ {
        Option::Some("Wisdom"@)
    } else if class == "Sorcerer"@ || class == "Bard"@ || class == "Paladin"@ {
        Option::Some("Charisma"@)
    } else {
        Option::None
    }
}

/// The modifier of an ability named with its exact capitalized name;
/// anything else contributes 0.
pub open spec fn named_ability_mod(name: Seq<char>, a: AbilityScores) -> int {
    if name == "Intelligence"@ {
        ability_modifier(a.intelligence as int)
    } else if name == "Wisdom"@ {
        ability_modifier(a.wisdom as int)
    } else if name == "Charisma"@ {
        ability_modifier(a.charisma as int)
    } else {
        0
    }
}

/// The modifier the spell header uses when a spell aggregate is present.
pub open spec fn header_spell_mod(sa: Option<String>, a: AbilityScores) -> int {
    match sa {
        Option::Some(s) => named_ability_mod(s@, a),
        Option::None => 0,
    }
}

// ---------------------------------------------------------------------------
// Section models
// ---------------------------------------------------------------------------

/// One optional text field under a logical key.
pub open spec fn opt_string_field(key: Seq<char>, v: Option<String>) -> Seq<
    (Seq<char>, Seq<char>),
> {
    match v {
        Option::Some(s) => opt_text_entry(pdf_field_name(key), s@),
        Option::None => Seq::empty(),
    }
}

/// The identity and header fields of a character.
pub open spec fn identity_model(c: Character) -> Seq<(Seq<char>, Seq<char>)> {
    opt_text_entry(pdf_field_name("character_name"@), c.name@) + opt_text_entry(
        pdf_field_name("class_level"@),
        c.class@ + " "@ + dec_rep(c.level as int),
    ) + opt_text_entry(pdf_field_name("race"@), c.race@) + opt_string_field(
        "background"@,
        c.background,
    ) + opt_string_field("player_name"@, c.player_name) + opt_string_field(
        "alignment"@,
        c.alignment,
    ) + (match c.experience_points {
        Option::Some(xp) => opt_text_entry(
            pdf_field_name("experience_points"@),
            dec_rep(xp as int),
        ),
        Option::None => Seq::empty(),
    })
}

/// The six scores and their signed modifiers.
pub open spec fn ability_fields_model(a: AbilityScores) -> Seq<(Seq<char>, Seq<char>)> {
    opt_text_entry(pdf_field_name("strength"@), dec_rep(a.strength as int)) + opt_text_entry(
        pdf_field_name("strength_modifier"@),
        bonus_rep(ability_modifier(a.strength as int)),
    ) + opt_text_entry(pdf_field_name("dexterity"@), dec_rep(a.dexterity as int))
        + opt_text_entry(
        pdf_field_name("dexterity_modifier"@),
        bonus_rep(ability_modifier(a.dexterity as int)),
    ) + opt_text_entry(pdf_field_name("constitution"@), dec_rep(a.constitution as int))
        + opt_text_entry(
        pdf_field_name("constitution_modifier"@),
        bonus_rep(ability_modifier(a.constitution as int)),
    ) + opt_text_entry(pdf_field_name("intelligence"@), dec_rep(a.intelligence as int))
        + opt_text_entry(
        pdf_field_name("intelligence_modifier"@),
        bonus_rep(ability_modifier(a.intelligence as int)),
    ) + opt_text_entry(pdf_field_name("wisdom"@), dec_rep(a.wisdom as int)) + opt_text_entry(
        pdf_field_name("wisdom_modifier"@),
        bonus_rep(ability_modifier(a.wisdom as int)),
    ) + opt_text_entry(pdf_field_name("charisma"@), dec_rep(a.charisma as int)) + opt_text_entry(
        pdf_field_name("charisma_modifier"@),
        bonus_rep(ability_modifier(a.charisma as int)),
    )
}

/// One optional number under a logical key, rendered in plain decimal.
pub open spec fn opt_num_field(key: Seq<char>, v: Option<int>) -> Seq<(Seq<char>, Seq<char>)> {
    match v {
        Option::Some(n) => opt_text_entry(pdf_field_name(key), int_rep(n)),
        Option::None => Seq::empty(),
    }
}

/// The number an optional u8 holds.
pub open spec fn opt_u8_int(v: Option<u8>) -> Option<int> {
    match v {
        Option::Some(n) => Option::Some(n as int),
        Option::None => Option::None,
    }
}

/// The number an optional u16 holds.
pub open spec fn opt_u16_int(v: Option<u16>) -> Option<int> {
    match v {
        Option::Some(n) => Option::Some(n as int),
        Option::None => Option::None,
    }
}

/// The number an optional i8 holds.
pub open spec fn opt_i8_int(v: Option<i8>) -> Option<int> {
    match v {
        Option::Some(n) => Option::Some(n as int),
        Option::None => Option::None,
    }
}

/// The present combat numbers, in fixed order.
pub open spec fn combat_fields_model(c: Option<Combat>) -> Seq<(Seq<char>, Seq<char>)> {
    match c {
        Option::None => Seq::empty(),
        Option::Some(cb) => opt_num_field("armor_class"@, opt_u8_int(cb.armor_class))
            + opt_num_field("hit_point_maximum"@, opt_u16_int(cb.hit_point_maximum))
            + opt_num_field("current_hit_points"@, opt_u16_int(cb.current_hit_points))
            + opt_num_field("speed"@, opt_u8_int(cb.speed)) + opt_num_field(
            "initiative"@,
            opt_i8_int(cb.initiative),
        ),
    }
}

/// Passive perception: present only when proficiencies are given and the
/// wisdom score lies in the range a dependent calculation accepts.
pub open spec fn passive_perception_model(d: CharacterData) -> Seq<(Seq<char>, Seq<char>)> {
    match d.proficiencies {
        Option::None => Seq::empty(),
        Option::Some(p) => if 1 <= d.abilities.wisdom <= 30 {
            opt_text_entry(
                pdf_field_name("passive_perception"@),
                int_rep(
                    10 + ability_modifier(d.abilities.wisdom as int) + (
                    if seq_contains_string(p.skills@, "perception"@) {
                        proficiency_bonus_for(d.character.level as int)
                    } else {
                        0
                    }),
                ),
            )
        } else {
            Seq::empty()
        },
    }
}

/// The hit-dice total and die type.
pub open spec fn hit_dice_model(c: Character) -> Seq<(Seq<char>, Seq<char>)> {
    opt_text_entry(pdf_field_name("hit_dice_total"@), dec_rep(c.level as int)) + opt_text_entry(
        pdf_field_name("hit_dice_type"@),
        hit_die_name(c.class@),
    )
}

/// The five coin counts, when equipment and currency are present.
pub open spec fn currency_model(e: Option<Equipment>) -> Seq<(Seq<char>, Seq<char>)> {
    match e {
        Option::None => Seq::empty(),
        Option::Some(eq) => match eq.currency {
            Option::None => Seq::empty(),
            Option::Some(cur) => opt_text_entry(
                pdf_field_name("copper_pieces"@),
                dec_rep(cur.cp as int),
            ) + opt_text_entry(pdf_field_name("silver_pieces"@), dec_rep(cur.sp as int))
                + opt_text_entry(pdf_field_name("electrum_pieces"@), dec_rep(cur.ep as int))
                + opt_text_entry(pdf_field_name("gold_pieces"@), dec_rep(cur.gp as int))
                + opt_text_entry(pdf_field_name("platinum_pieces"@), dec_rep(cur.pp as int)),
        },
    }
}

/// The items of a list rendered as dashed lines, each preceded by a line
/// break.
pub open spec fn dash_items(items: Seq<String>) -> Seq<char>
    decreases items.len(),
{
    if items.len() == 0 {
        Seq::empty()
    } else {
        dash_items(items.drop_last()) + "\n- "@ + items.last()@
    }
}

/// The list an optional list holds.
pub open spec fn opt_list(v: Option<Vec<String>>) -> Seq<String> {
    match v {
        Option::Some(l) => l@,
        Option::None => Seq::empty(),
    }
}

/// The combined features-and-traits text.
pub open spec fn features_text_model(ft: FeaturesTraits) -> Seq<char> {
    let f = opt_list(ft.features);
    let t = opt_list(ft.traits);
    if f.len() > 0 && t.len() > 0 {
        "Features:"@ + dash_items(f) + "\n\nTraits:"@ + dash_items(t)
    } else if f.len() > 0 {
        "Features:"@ + dash_items(f)
    } else if t.len() > 0 {
        "Traits:"@ + dash_items(t)
    } else {
        Seq::empty()
    }
}

/// The features-and-traits entry, present only when there is any text.
pub open spec fn features_model(ft: Option<FeaturesTraits>) -> Seq<(Seq<char>, Seq<char>)> {
    match ft {
        Option::None => Seq::empty(),
        Option::Some(f) => if features_text_model(f).len() > 0 {
            opt_text_entry(pdf_field_name("features_traits"@), features_text_model(f))
        } else {
            Seq::empty()
        },
    }
}

/// The contribution of the spell at `i` in its level's bucket: its row
/// entry when its stored level matches the bucket and its position is
/// within the sheet's capacity (8 rows for cantrips, 13 for levels 1-9),
/// plus a preparation mark for prepared spells above level 0.
pub open spec fn spell_entry(level: u8, list: Seq<Spell>, i: int) -> Seq<(Seq<char>, Seq<char>)> {
    let cap: int = if level == 0 {
        8
    } else {
        13
    };
    if list[i].level == level && i < cap {
        seq![(spell_field_name_spec(level as int, i), list[i].name@)] + (
        if list[i].prepared && level > 0 {
            seq![(spell_prepared_checkbox_spec(level as int, i), "Yes"@)]
        } else {
            Seq::empty()
        })
    } else {
        Seq::empty()
    }
}

/// The row entries of the first `n` spells of one bucket.
pub open spec fn spell_fields_upto(level: u8, list: Seq<Spell>, n: int) -> Seq<
    (Seq<char>, Seq<char>),
>
    decreases n,
{
    if n <= 0 {
        Seq::empty()
    } else {
        spell_fields_upto(level, list, n - 1) + spell_entry(level, list, n - 1)
    }
}

/// The row entries of one whole bucket.
pub open spec fn spell_level_fields(level: u8, list: Seq<Spell>) -> Seq<(Seq<char>, Seq<char>)> {
    spell_fields_upto(level, list, list.len() as int)
}

/// The row entries of all ten buckets.
pub open spec fn spell_lists_model(sp: Spells) -> Seq<(Seq<char>, Seq<char>)> {
    spell_level_fields(0, sp.cantrips@) + spell_level_fields(1, sp.first_level@)
        + spell_level_fields(2, sp.second_level@) + spell_level_fields(3, sp.third_level@)
        + spell_level_fields(4, sp.fourth_level@) + spell_level_fields(5, sp.fifth_level@)
        + spell_level_fields(6, sp.sixth_level@) + spell_level_fields(7, sp.seventh_level@)
        + spell_level_fields(8, sp.eighth_level@) + spell_level_fields(9, sp.ninth_level@)
}

/// The spell header entries when a spell aggregate is present: attack
/// bonus, save DC, class and named ability.
pub open spec fn spell_header_model(sp: Spells, d: CharacterData) -> Seq<(Seq<char>, Seq<char>)> {
    let m = header_spell_mod(sp.spellcasting_ability, d.abilities);
    let p = proficiency_bonus_for(d.character.level as int);
    opt_text_entry(pdf_field_name("spell_attack_bonus"@), bonus_rep(m + p)) + opt_text_entry(
        pdf_field_name("spell_save_dc"@),
        int_rep(8 + m + p),
    ) + opt_text_entry(pdf_field_name("spellcasting_class"@), d.character.class@) + (
    match sp.spellcasting_ability {
        Option::Some(a) => opt_text_entry(pdf_field_name("spellcasting_ability"@), a@),
        Option::None => Seq::empty(),
    })
}

/// The spell header entries inferred from the class name, when the record
/// carries no spell aggregate and the class implies a caster.
pub open spec fn inferred_header_model(d: CharacterData) -> Seq<(Seq<char>, Seq<char>)> {
    match inferred_ability(d.character.class@) {
        Option::Some(ab) => {
            let m = named_ability_mod(ab, d.abilities);
            let p = proficiency_bonus_for(d.character.level as int);
            opt_text_entry(pdf_field_name("spellcasting_class"@), d.character.class@)
                + opt_text_entry(pdf_field_name("spellcasting_ability"@), ab) + opt_text_entry(
                pdf_field_name("spell_attack_bonus"@),
                bonus_rep(m + p),
            ) + opt_text_entry(pdf_field_name("spell_save_dc"@), int_rep(8 + m + p))
        },
        Option::None => Seq::empty(),
    }
}

/// The spell header and rows: with a spell aggregate, its header and
/// every row; without one, the header inferred from the class name.
pub open spec fn spells_model(d: CharacterData) -> Seq<(Seq<char>, Seq<char>)> {
    match d.spells {
        Option::Some(sp) => spell_header_model(sp, d) + spell_lists_model(sp),
        Option::None => inferred_header_model(d),
    }
}

/// One truncated narrative entry under its logical key.
pub open spec fn opt_trunc_entry(key: Seq<char>, v: Option<String>) -> Seq<
    (Seq<char>, Seq<char>),
> {
    match v {
        Option::Some(s) => opt_text_entry(pdf_field_name(key), truncated(s@, 500)),
        Option::None => Seq::empty(),
    }
}

/// The narrative entries, each truncated to the target field's size.
pub open spec fn narrative_model(n: Option<crate::character_model::CharacterNarrative>) -> Seq<
    (Seq<char>, Seq<char>),
> {
    match n {
        Option::None => Seq::empty(),
        Option::Some(nn) => opt_trunc_entry("personality_traits"@, nn.personality_traits)
            + opt_trunc_entry("ideals"@, nn.ideals) + opt_trunc_entry("bonds"@, nn.bonds)
            + opt_trunc_entry("flaws"@, nn.flaws),
    }
}

/// The logical key of one spell-slot count.
pub open spec fn slot_key(n: int) -> Seq<char> {
    if n == 1 {
        "spell_slots_1"@
    } else if n == 2 {
        "spell_slots_2"@
    } else if n == 3 {
        "spell_slots_3"@
    } else if n == 4 {
        "spell_slots_4"@
    } else if n == 5 {
        "spell_slots_5"@
    } else if n == 6 {
        "spell_slots_6"@
    } else if n == 7 {
        "spell_slots_7"@
    } else if n == 8 {
        "spell_slots_8"@
    } else {
        "spell_slots_9"@
    }
}

/// One slot mapping entry's field, for positive counts only.
pub open spec fn slot_entry(e: (u8, u8)) -> Seq<(Seq<char>, Seq<char>)> {
    if e.1 > 0 {
        opt_text_entry(pdf_field_name(slot_key(e.0 as int)), dec_rep(e.1 as int))
    } else {
        Seq::empty()
    }
}

/// The fields of the first `n` slot mapping entries.
pub open spec fn slot_fields_upto(slots: Seq<(u8, u8)>, n: int) -> Seq<(Seq<char>, Seq<char>)>
    decreases n,
{
    if n <= 0 {
        Seq::empty()
    } else {
        slot_fields_upto(slots, n - 1) + slot_entry(slots[n - 1])
    }
}

/// The spell-slot count fields of a whole record.
pub open spec fn slot_fields_model(d: CharacterData) -> Seq<(Seq<char>, Seq<char>)> {
    let slots = spell_slots_model(d.character.class@, d.character.level);
    slot_fields_upto(slots, slots.len() as int)
}

/// One saving throw's bonus entry.
pub open spec fn save_field(
    p: Proficiencies,
    ability_key: Seq<char>,
    save_key: Seq<char>,
    score: int,
    level: int,
) -> Seq<(Seq<char>, Seq<char>)> {
    opt_text_entry(
        pdf_field_name(save_key),
        safe_bonus_text(score, level, seq_contains_string(p.saving_throws@, ability_key)),
    )
}

/// The six saving-throw bonuses, guarded by each score's range.
pub open spec fn saves_model(p: Proficiencies, a: AbilityScores, level: u8) -> Seq<
    (Seq<char>, Seq<char>),
> {
    save_field(p, "strength"@, "strength_save"@, a.strength as int, level as int) + save_field(
        p,
        "dexterity"@,
        "dexterity_save"@,
        a.dexterity as int,
        level as int,
    ) + save_field(p, "constitution"@, "constitution_save"@, a.constitution as int, level as int)
        + save_field(
        p,
        "intelligence"@,
        "intelligence_save"@,
        a.intelligence as int,
        level as int,
    ) + save_field(p, "wisdom"@, "wisdom_save"@, a.wisdom as int, level as int) + save_field(
        p,
        "charisma"@,
        "charisma_save"@,
        a.charisma as int,
        level as int,
    )
}

/// One skill's bonus entry.
pub open spec fn skill_field(
    p: Proficiencies,
    key: Seq<char>,
    score: int,
    level: int,
) -> Seq<(Seq<char>, Seq<char>)> {
    opt_text_entry(
        pdf_field_name(key),
        safe_bonus_text(score, level, seq_contains_string(p.skills@, key)),
    )
}

/// The eighteen skill bonuses, each backed by its ability.
pub open spec fn skills_model(p: Proficiencies, a: AbilityScores, level: u8) -> Seq<
    (Seq<char>, Seq<char>),
> {
    skill_field(p, "acrobatics"@, a.dexterity as int, level as int) + skill_field(
        p,
        "animal_handling"@,
        a.wisdom as int,
        level as int,
    ) + skill_field(p, "arcana"@, a.intelligence as int, level as int) + skill_field(
        p,
        "athletics"@,
        a.strength as int,
        level as int,
    ) + skill_field(p, "deception"@, a.charisma as int, level as int) + skill_field(
        p,
        "history"@,
        a.intelligence as int,
        level as int,
    ) + skill_field(p, "insight"@, a.wisdom as int, level as int) + skill_field(
        p,
        "intimidation"@,
        a.charisma as int,
        level as int,
    ) + skill_field(p, "investigation"@, a.intelligence as int, level as int) + skill_field(
        p,
        "medicine"@,
        a.wisdom as int,
        level as int,
    ) + skill_field(p, "nature"@, a.intelligence as int, level as int) + skill_field(
        p,
        "perception"@,
        a.wisdom as int,
        level as int,
    ) + skill_field(p, "performance"@, a.charisma as int, level as int) + skill_field(
        p,
        "persuasion"@,
        a.charisma as int,
        level as int,
    ) + skill_field(p, "religion"@, a.intelligence as int, level as int) + skill_field(
        p,
        "sleight_of_hand"@,
        a.dexterity as int,
        level as int,
    ) + skill_field(p, "stealth"@, a.dexterity as int, level as int) + skill_field(
        p,
        "survival"@,
        a.wisdom as int,
        level as int,
    )
}

/// The saving throws and skills, when proficiencies are given.
pub open spec fn save_skill_model(d: CharacterData) -> Seq<(Seq<char>, Seq<char>)> {
    match d.proficiencies {
        Option::None => Seq::empty(),
        Option::Some(p) => saves_model(p, d.abilities, d.character.level) + skills_model(
            p,
            d.abilities,
            d.character.level,
        ),
    }
}

/// Every text field of a record, in emission order.
pub open spec fn field_values_model(d: CharacterData) -> Seq<(Seq<char>, Seq<char>)> {
    identity_model(d.character) + ability_fields_model(d.abilities) + combat_fields_model(d.combat)
        + opt_text_entry(
        pdf_field_name("proficiency_bonus"@),
        bonus_rep(proficiency_bonus_for(d.character.level as int)),
    ) + passive_perception_model(d) + hit_dice_model(d.character) + currency_model(d.equipment)
        + features_model(d.features_traits) + spells_model(d) + narrative_model(d.narrative)
        + slot_fields_model(d) + save_skill_model(d)
}

/// One saving throw's proficiency mark.
pub open spec fn save_checkbox(
    p: Proficiencies,
    ability_key: Seq<char>,
    box_key: Seq<char>,
) -> Seq<(Seq<char>, bool)> {
    opt_bool_entry(pdf_field_name(box_key), seq_contains_string(p.saving_throws@, ability_key))
}

/// The six saving-throw proficiency marks.
pub open spec fn save_checkbox_model(p: Proficiencies) -> Seq<(Seq<char>, bool)> {
    save_checkbox(p, "strength"@, "strength_save_prof"@) + save_checkbox(
        p,
        "dexterity"@,
        "dexterity_save_prof"@,
    ) + save_checkbox(p, "constitution"@, "constitution_save_prof"@) + save_checkbox(
        p,
        "intelligence"@,
        "intelligence_save_prof"@,
    ) + save_checkbox(p, "wisdom"@, "wisdom_save_prof"@) + save_checkbox(
        p,
        "charisma"@,
        "charisma_save_prof"@,
    )
}

/// One skill's proficiency mark.
pub open spec fn skill_checkbox(p: Proficiencies, skill: Seq<char>, key: Seq<char>) -> Seq<
    (Seq<char>, bool),
> {
    opt_bool_entry(pdf_field_name(key), seq_contains_string(p.skills@, skill))
}

/// The first nine skill proficiency marks, alphabetically.
pub open spec fn skill_checkbox_model_front(p: Proficiencies) -> Seq<(Seq<char>, bool)> {
    skill_checkbox(p, "acrobatics"@, "acrobatics_prof"@) + skill_checkbox(
        p,
        "animal_handling"@,
        "animal_handling_prof"@,
    ) + skill_checkbox(p, "arcana"@, "arcana_prof"@) + skill_checkbox(
        p,
        "athletics"@,
        "athletics_prof"@,
    ) + skill_checkbox(p, "deception"@, "deception_prof"@) + skill_checkbox(
        p,
        "history"@,
        "history_prof"@,
    ) + skill_checkbox(p, "insight"@, "insight_prof"@) + skill_checkbox(
        p,
        "intimidation"@,
        "intimidation_prof"@,
    ) + skill_checkbox(p, "investigation"@, "investigation_prof"@)
}

/// The last nine skill proficiency marks, alphabetically.
pub open spec fn skill_checkbox_model_back(p: Proficiencies) -> Seq<(Seq<char>, bool)> {
    skill_checkbox(p, "medicine"@, "medicine_prof"@) + skill_checkbox(
        p,
        "nature"@,
        "nature_prof"@,
    ) + skill_checkbox(p, "perception"@, "perception_prof"@) + skill_checkbox(
        p,
        "performance"@,
        "performance_prof"@,
    ) + skill_checkbox(p, "persuasion"@, "persuasion_prof"@) + skill_checkbox(
        p,
        "religion"@,
        "religion_prof"@,
    ) + skill_checkbox(p, "sleight_of_hand"@, "sleight_of_hand_prof"@) + skill_checkbox(
        p,
        "stealth"@,
        "stealth_prof"@,
    ) + skill_checkbox(p, "survival"@, "survival_prof"@)
}

/// The eighteen skill proficiency marks.
pub open spec fn skill_checkbox_model(p: Proficiencies) -> Seq<(Seq<char>, bool)> {
    skill_checkbox_model_front(p) + skill_checkbox_model_back(p)
}

/// Every checkbox mark of a record.
pub open spec fn checkbox_model(d: CharacterData) -> Seq<(Seq<char>, bool)> {
    match d.proficiencies {
        Option::None => Seq::empty(),
        Option::Some(p) => save_checkbox_model(p) + skill_checkbox_model(p),
    }
}

/// The derived values reported alongside a fill, under logical keys.
pub open spec fn derived_values_model(d: CharacterData) -> Seq<(Seq<char>, Seq<char>)> {
    let a = d.abilities;
    let p = proficiency_bonus_for(d.character.level as int);
    seq![
        ("strength_modifier"@, int_rep(ability_modifier(a.strength as int))),
        ("dexterity_modifier"@, int_rep(ability_modifier(a.dexterity as int))),
        ("constitution_modifier"@, int_rep(ability_modifier(a.constitution as int))),
        ("intelligence_modifier"@, int_rep(ability_modifier(a.intelligence as int))),
        ("wisdom_modifier"@, int_rep(ability_modifier(a.wisdom as int))),
        ("charisma_modifier"@, int_rep(ability_modifier(a.charisma as int))),
        ("proficiency_bonus"@, dec_rep(p)),
    ] + (match d.spells {
        Option::Some(sp) => match sp.spellcasting_ability {
            Option::Some(ab) => {
                let m = spellcasting_modifier(ab@, a);
                seq![
                    ("spell_attack_bonus"@, int_rep(m + p)),
                    ("spell_save_dc"@, int_rep(8 + m + p)),
                ]
            },
            Option::None => Seq::empty(),
        },
        Option::None => Seq::empty(),
    })
}

/// The font size chosen for an output field by its identifier.
pub open spec fn font_size_for(name: Seq<char>) -> int {
    if is_substring_of("CharacterName"@, name) || is_substring_of("PlayerName"@, name) {
        12
    } else if starts_with("Spells"@, name) {
        8
    } else if is_substring_of("Traits"@, name) || is_substring_of("Features"@, name)
        || is_substring_of("Ideals"@, name) || is_substring_of("Bonds"@, name)
        || is_substring_of("Flaws"@, name) {
        9
    } else {
        10
    }
}

/// The appearance string a field gets: Helvetica at the chosen size,
/// black.
pub open spec fn default_appearance(name: Seq<char>) -> Seq<char> {
    "/Helv "@ + dec_rep(font_size_for(name)) + " Tf 0 g"@
}


// ---------------------------------------------------------------------------
// Plain-text sheet report
// ---------------------------------------------------------------------------

/// One labelled line for an optional text value.
pub open spec fn opt_line(label: Seq<char>, v: Option<String>) -> Seq<char> {
    match v {
        Option::Some(s) => label + s@ + "\n"@,
        Option::None => Seq::empty(),
    }
}

/// One labelled line for a text value.
pub open spec fn text_line(label: Seq<char>, v: Seq<char>) -> Seq<char> {
    label + v + "\n"@
}

/// One labelled line for a number, with a closing suffix.
pub open spec fn num_line(label: Seq<char>, n: int, suffix: Seq<char>) -> Seq<char> {
    label + dec_rep(n) + suffix
}

/// The class-and-level line of the report.
pub open spec fn class_level_line(c: Character) -> Seq<char> {
    "Class & Level: "@ + c.class@ + " "@ + dec_rep(c.level as int) + "\n"@
}

/// The report's identity header.
pub open spec fn sheet_header_text(c: Character) -> Seq<char> {
    "=== D&D 5e CHARACTER SHEET ===\n\n"@ + text_line("Character Name: "@, c.name@)
        + class_level_line(c) + text_line("Race: "@, c.race@) + opt_line(
        "Background: "@,
        c.background,
    ) + opt_line("Alignment: "@, c.alignment) + (match c.experience_points {
        Option::Some(xp) => num_line("Experience Points: "@, xp as int, "\n"@),
        Option::None => Seq::empty(),
    })
}

/// One ability's line: its score and its modifier in parentheses.
pub open spec fn ability_line(label: Seq<char>, score: u8) -> Seq<char> {
    label + dec_rep(score as int) + " ("@ + int_rep(ability_modifier(score as int)) + ")\n"@
}

/// The report's ability-score block.
pub open spec fn sheet_abilities_text(a: AbilityScores) -> Seq<char> {
    "\n=== ABILITY SCORES ===\n"@ + ability_line("Strength: "@, a.strength) + ability_line(
        "Dexterity: "@,
        a.dexterity,
    ) + ability_line("Constitution: "@, a.constitution) + ability_line(
        "Intelligence: "@,
        a.intelligence,
    ) + ability_line("Wisdom: "@, a.wisdom) + ability_line("Charisma: "@, a.charisma)
}

/// The report's combat block, when combat data is present.
pub open spec fn sheet_combat_text(c: Option<Combat>) -> Seq<char> {
    match c {
        Option::None => Seq::empty(),
        Option::Some(cb) => "\n=== COMBAT STATS ===\n"@ + (match cb.armor_class {
            Option::Some(v) => num_line("Armor Class: "@, v as int, "\n"@),
            Option::None => Seq::empty(),
        }) + (match cb.hit_point_maximum {
            Option::Some(v) => num_line("Hit Points: "@, v as int, "\n"@),
            Option::None => Seq::empty(),
        }) + (match cb.speed {
            Option::Some(v) => num_line("Speed: "@, v as int, " ft\n"@),
            Option::None => Seq::empty(),
        }),
    }
}

/// One spell's report line, with a mark for prepared spells.
pub open spec fn spell_line(s: Spell) -> Seq<char> {
    "  - "@ + s.name@ + (if s.prepared {
        " (Prepared)"@
    } else {
        Seq::empty()
    }) + "\n"@
}

/// The report lines of one bucket's spells, in list order.
pub open spec fn spell_lines(list: Seq<Spell>) -> Seq<char>
    decreases list.len(),
{
    if list.len() == 0 {
        Seq::empty()
    } else {
        spell_lines(list.drop_last()) + spell_line(list.last())
    }
}

/// The heading of one bucket.
pub open spec fn bucket_heading(level: int) -> Seq<char> {
    if level == 0 {
        "Cantrips"@
    } else {
        "Level "@ + dec_rep(level) + " Spells"@
    }
}

/// One bucket's report block, absent for an empty bucket.
pub open spec fn sheet_bucket_text(level: int, list: Seq<Spell>) -> Seq<char> {
    if list.len() == 0 {
        Seq::empty()
    } else {
        "\n"@ + bucket_heading(level) + ":\n"@ + spell_lines(list)
    }
}

/// The report's spell block, when a spell aggregate is present.
pub open spec fn sheet_spells_text(spells: Option<Spells>) -> Seq<char> {
    match spells {
        Option::None => Seq::empty(),
        Option::Some(sp) => "\n=== SPELLS ===\n"@ + opt_line(
            "Spellcasting Class: "@,
            sp.spellcasting_class,
        ) + opt_line("Spellcasting Ability: "@, sp.spellcasting_ability) + sheet_bucket_text(
            0,
            sp.cantrips@,
        ) + sheet_bucket_text(1, sp.first_level@) + sheet_bucket_text(2, sp.second_level@)
            + sheet_bucket_text(3, sp.third_level@) + sheet_bucket_text(4, sp.fourth_level@)
            + sheet_bucket_text(5, sp.fifth_level@) + sheet_bucket_text(6, sp.sixth_level@)
            + sheet_bucket_text(7, sp.seventh_level@) + sheet_bucket_text(8, sp.eighth_level@)
            + sheet_bucket_text(9, sp.ninth_level@),
    }
}

/// The report's narrative block, when narrative data is present.
pub open spec fn sheet_narrative_text(
    n: Option<crate::character_model::CharacterNarrative>,
) -> Seq<char> {
    match n {
        Option::None => Seq::empty(),
        Option::Some(nn) => "\n=== CHARACTER DETAILS ===\n"@ + opt_line(
            "Personality Traits: "@,
            nn.personality_traits,
        ) + opt_line("Ideals: "@, nn.ideals) + opt_line("Bonds: "@, nn.bonds) + opt_line(
            "Flaws: "@,
            nn.flaws,
        ),
    }
}

/// The report's equipment block, when equipment data is present.
pub open spec fn sheet_equipment_text(e: Option<Equipment>) -> Seq<char> {
    match e {
        Option::None => Seq::empty(),
        Option::Some(eq) => "\n=== EQUIPMENT ===\n"@ + (match eq.currency {
            Option::Some(cur) => currency_line(cur),
            Option::None => Seq::empty(),
        }) + opt_line("Items: "@, eq.items),
    }
}

/// The one-line coin summary of a currency block.
pub open spec fn currency_line(cur: Currency) -> Seq<char> {
    "Currency: "@ + dec_rep(cur.cp as int) + " cp, "@ + dec_rep(cur.sp as int) + " sp, "@
        + dec_rep(cur.ep as int) + " ep, "@ + dec_rep(cur.gp as int) + " gp, "@ + dec_rep(
        cur.pp as int,
    ) + " pp\n"@
}

/// One derived value's report line, under its capitalized label.
pub open spec fn calc_line(label: Seq<char>, v: Seq<char>) -> Seq<char> {
    label + ": "@ + v + "\n"@
}

/// The report's derived-value block: the six modifiers, the proficiency
/// bonus, and the spell statistics when the record names a spellcasting
/// ability.
pub open spec fn sheet_calculated_text(d: CharacterData) -> Seq<char> {
    let a = d.abilities;
    let p = proficiency_bonus_for(d.character.level as int);
    "\n=== CALCULATED VALUES ===\n"@ + calc_line(
        "STRENGTH MODIFIER"@,
        int_rep(ability_modifier(a.strength as int)),
    ) + calc_line("DEXTERITY MODIFIER"@, int_rep(ability_modifier(a.dexterity as int)))
        + calc_line("CONSTITUTION MODIFIER"@, int_rep(ability_modifier(a.constitution as int)))
        + calc_line("INTELLIGENCE MODIFIER"@, int_rep(ability_modifier(a.intelligence as int)))
        + calc_line("WISDOM MODIFIER"@, int_rep(ability_modifier(a.wisdom as int))) + calc_line(
        "CHARISMA MODIFIER"@,
        int_rep(ability_modifier(a.charisma as int)),
    ) + calc_line("PROFICIENCY BONUS"@, dec_rep(p)) + spell_calc_lines(d)
}

/// The spell statistics of the derived-value block, when the record names
/// a spellcasting ability.
pub open spec fn spell_calc_lines(d: CharacterData) -> Seq<char> {
    let p = proficiency_bonus_for(d.character.level as int);
    match d.spells {
        Option::Some(sp) => match sp.spellcasting_ability {
            Option::Some(ab) => {
                let m = spellcasting_modifier(ab@, d.abilities);
                calc_line("SPELL ATTACK BONUS"@, int_rep(m + p)) + calc_line(
                    "SPELL SAVE DC"@,
                    int_rep(8 + m + p),
                )
            },
            Option::None => Seq::empty(),
        },
        Option::None => Seq::empty(),
    }
}

/// The whole plain-text report of a record.
pub open spec fn sheet_text_model(d: CharacterData) -> Seq<char> {
    sheet_header_text(d.character) + sheet_abilities_text(d.abilities) + sheet_combat_text(
        d.combat,
    ) + sheet_spells_text(d.spells) + sheet_narrative_text(d.narrative) + sheet_equipment_text(
        d.equipment,
    ) + sheet_calculated_text(d)
}

// ---------------------------------------------------------------------------
// The filler
// ---------------------------------------------------------------------------

/// Computes every value and mark a record puts on the sheet.
#[derive(Debug, Clone)]
pub struct PdfFiller {
    pub field_mapper: FieldMapper,
    pub validator: DndValidator,
}

/// The outcome of one fill: the validation warnings and the derived
/// values, beside the output location the application wrote to.
#[derive(Debug)]
pub struct FillResult {
    pub success: bool,
    pub output_file: String,
    pub validation_errors: Vec<ValidationError>,
    pub calculated_fields: Vec<(String, String)>,
}

impl PdfFiller {
    /// A filler whose validator runs in the given mode.
    pub fn new(allow_rule_violations: bool) -> (r: Self)
        ensures
            r.validator.allow_rule_violations == allow_rule_violations,
    {
        Self { field_mapper: FieldMapper::new(), validator: DndValidator::new(allow_rule_violations) }
    }

    /// Appends one text field, when the table knows the key.
    fn push_field(&self, out: &mut Vec<(String, String)>, key: &str, value: String)
        ensures
            pairs_view(final(out)@) == pairs_view(old(out)@) + opt_text_entry(
                pdf_field_name(key@),
                value@,
            ),
    {
        if let Option::Some(name) = self.field_mapper.get_pdf_field_name(key) {
            out.push((String::from_str(name), value));
        }
        proof {
            assert(pairs_view(out@) =~= pairs_view(old(out)@) + opt_text_entry(
                pdf_field_name(key@),
                value@,
            ));
        }
    }

    /// Appends one optional text field.
    fn push_opt_field(&self, out: &mut Vec<(String, String)>, key: &str, value: &Option<String>)
        ensures
            pairs_view(final(out)@) == pairs_view(old(out)@) + opt_string_field(key@, *value),
    {
        if let Option::Some(s) = value {
            self.push_field(out, key, s.clone());
        }
        proof {
            assert(pairs_view(out@) =~= pairs_view(old(out)@) + opt_string_field(key@, *value));
        }
    }

    /// Appends one truncated narrative field.
    fn push_trunc_field(&self, out: &mut Vec<(String, String)>, key: &str, value: &Option<String>)
        ensures
            pairs_view(final(out)@) == pairs_view(old(out)@) + opt_trunc_entry(key@, *value),
    {
        if let Option::Some(s) = value {
            let t = NarrativeHandler::truncate_if_needed(s.as_str(), 500);
            self.push_field(out, key, t);
        }
        proof {
            assert(pairs_view(out@) =~= pairs_view(old(out)@) + opt_trunc_entry(key@, *value));
        }
    }

    /// Appends the identity and header fields.
    fn add_identity_fields(&self, out: &mut Vec<(String, String)>, c: &Character)
        ensures
            pairs_view(final(out)@) == pairs_view(old(out)@) + identity_model(*c),
    {
        proof {
            reveal_strlit(" ");
        }
        self.push_field(out, "character_name", c.name.clone());
        let mut class_level = c.class.clone();
        class_level.append(" ");
        let level_str = u32_to_string(c.level as u32);
        class_level.append(level_str.as_str());
        self.push_field(out, "class_level", class_level);
        self.push_field(out, "race", c.race.clone());
        self.push_opt_field(out, "background", &c.background);
        self.push_opt_field(out, "player_name", &c.player_name);
        self.push_opt_field(out, "alignment", &c.alignment);
        if let Option::Some(xp) = c.experience_points {
            self.push_field(out, "experience_points", u32_to_string(xp));
        }
        proof {
            let pv = pairs_view(old(out)@);
            let t1 = opt_text_entry(pdf_field_name("character_name"@), c.name@);
            let t2 = opt_text_entry(pdf_field_name("class_level"@), c.class@ + " "@ + dec_rep(c.level as int));
            let t3 = opt_text_entry(pdf_field_name("race"@), c.race@);
            let t4 = opt_string_field("background"@, c.background);
            let t5 = opt_string_field("player_name"@, c.player_name);
            let t6 = opt_string_field("alignment"@, c.alignment);
            let t7 = (match c.experience_points {
                Option::Some(xp) => opt_text_entry(
                    pdf_field_name("experience_points"@),
                    dec_rep(xp as int),
                ),
                Option::None => Seq::empty(),
            });
            vstd::seq_lib::lemma_concat_associative(pv, t1, t2);
            vstd::seq_lib::lemma_concat_associative(pv, t1 + t2, t3);
            vstd::seq_lib::lemma_concat_associative(pv, t1 + t2 + t3, t4);
            vstd::seq_lib::lemma_concat_associative(pv, t1 + t2 + t3 + t4, t5);
            vstd::seq_lib::lemma_concat_associative(pv, t1 + t2 + t3 + t4 + t5, t6);
            vstd::seq_lib::lemma_concat_associative(pv, t1 + t2 + t3 + t4 + t5 + t6, t7);
            assert(pairs_view(out@) == pairs_view(old(out)@) + identity_model(*c));
        }
    }

    /// Appends one score with its signed modifier.
    fn push_score_pair(
        &self,
        out: &mut Vec<(String, String)>,
        score_key: &str,
        mod_key: &str,
        score: u8,
    )
        ensures
            pairs_view(final(out)@) == pairs_view(old(out)@) + opt_text_entry(
                pdf_field_name(score_key@),
                dec_rep(score as int),
            ) + opt_text_entry(
                pdf_field_name(mod_key@),
                bonus_rep(ability_modifier(score as int)),
            ),
    {
        self.push_field(out, score_key, u32_to_string(score as u32));
        let m = modifier_of_score(score);
        self.push_field(out, mod_key, format_bonus(m as i32));
    }

    /// Appends the six scores and their modifiers.
    fn add_ability_fields(&self, out: &mut Vec<(String, String)>, a: &AbilityScores)
        ensures
            pairs_view(final(out)@) == pairs_view(old(out)@) + ability_fields_model(*a),
    {
        self.push_score_pair(out, "strength", "strength_modifier", a.strength);
        self.push_score_pair(out, "dexterity", "dexterity_modifier", a.dexterity);
        self.push_score_pair(out, "constitution", "constitution_modifier", a.constitution);
        self.push_score_pair(out, "intelligence", "intelligence_modifier", a.intelligence);
        self.push_score_pair(out, "wisdom", "wisdom_modifier", a.wisdom);
        self.push_score_pair(out, "charisma", "charisma_modifier", a.charisma);
        proof {
            let pv = pairs_view(old(out)@);
            let t1 = opt_text_entry(pdf_field_name("strength"@), dec_rep(a.strength as int));
            let t2 = opt_text_entry(pdf_field_name("strength_modifier"@), bonus_rep(ability_modifier(a.strength as int)));
            let t3 = opt_text_entry(pdf_field_name("dexterity"@), dec_rep(a.dexterity as int));
            let t4 = opt_text_entry(pdf_field_name("dexterity_modifier"@), bonus_rep(ability_modifier(a.dexterity as int)));
            let t5 = opt_text_entry(pdf_field_name("constitution"@), dec_rep(a.constitution as int));
            let t6 = opt_text_entry(pdf_field_name("constitution_modifier"@), bonus_rep(ability_modifier(a.constitution as int)));
            let t7 = opt_text_entry(pdf_field_name("intelligence"@), dec_rep(a.intelligence as int));
            let t8 = opt_text_entry(pdf_field_name("intelligence_modifier"@), bonus_rep(ability_modifier(a.intelligence as int)));
            let t9 = opt_text_entry(pdf_field_name("wisdom"@), dec_rep(a.wisdom as int));
            let t10 = opt_text_entry(pdf_field_name("wisdom_modifier"@), bonus_rep(ability_modifier(a.wisdom as int)));
            let t11 = opt_text_entry(pdf_field_name("charisma"@), dec_rep(a.charisma as int));
            let t12 = opt_text_entry(pdf_field_name("charisma_modifier"@), bonus_rep(ability_modifier(a.charisma as int)));
            vstd::seq_lib::lemma_concat_associative(pv, t1, t2);
            vstd::seq_lib::lemma_concat_associative(pv, t1 + t2, t3);
            vstd::seq_lib::lemma_concat_associative(pv, t1 + t2 + t3, t4);
            vstd::seq_lib::lemma_concat_associative(pv, t1 + t2 + t3 + t4, t5);
            vstd::seq_lib::lemma_concat_associative(pv, t1 + t2 + t3 + t4 + t5, t6);
            vstd::seq_lib::lemma_concat_associative(pv, t1 + t2 + t3 + t4 + t5 + t6, t7);
            vstd::seq_lib::lemma_concat_associative(pv, t1 + t2 + t3 + t4 + t5 + t6 + t7, t8);
            vstd::seq_lib::lemma_concat_associative(pv, t1 + t2 + t3 + t4 + t5 + t6 + t7 + t8, t9);
            vstd::seq_lib::lemma_concat_associative(pv, t1 + t2 + t3 + t4 + t5 + t6 + t7 + t8 + t9, t10);
            vstd::seq_lib::lemma_concat_associative(pv, t1 + t2 + t3 + t4 + t5 + t6 + t7 + t8 + t9 + t10, t11);
            vstd::seq_lib::lemma_concat_associative(pv, t1 + t2 + t3 + t4 + t5 + t6 + t7 + t8 + t9 + t10 + t11, t12);
            assert(pairs_view(out@) == pairs_view(old(out)@) + ability_fields_model(*a));
        }
    }

    /// Appends one optional u8 number.
    fn push_opt_u8(&self, out: &mut Vec<(String, String)>, key: &str, v: Option<u8>)
        ensures
            pairs_view(final(out)@) == pairs_view(old(out)@) + opt_num_field(key@, opt_u8_int(v)),
    {
        if let Option::Some(n) = v {
            self.push_field(out, key, u32_to_string(n as u32));
        }
        proof {
            assert(pairs_view(out@) =~= pairs_view(old(out)@) + opt_num_field(
                key@,
                opt_u8_int(v),
            ));
        }
    }

    /// Appends one optional u16 number.
    fn push_opt_u16(&self, out: &mut Vec<(String, String)>, key: &str, v: Option<u16>)
        ensures
            pairs_view(final(out)@) == pairs_view(old(out)@) + opt_num_field(key@, opt_u16_int(v)),
    {
        if let Option::Some(n) = v {
            self.push_field(out, key, u32_to_string(n as u32));
        }
        proof {
            assert(pairs_view(out@) =~= pairs_view(old(out)@) + opt_num_field(
                key@,
                opt_u16_int(v),
            ));
        }
    }

    /// Appends one optional signed number.
    fn push_opt_i8(&self, out: &mut Vec<(String, String)>, key: &str, v: Option<i8>)
        ensures
            pairs_view(final(out)@) == pairs_view(old(out)@) + opt_num_field(key@, opt_i8_int(v)),
    {
        if let Option::Some(n) = v {
            self.push_field(out, key, i32_to_string(n as i32));
        }
        proof {
            assert(pairs_view(out@) =~= pairs_view(old(out)@) + opt_num_field(
                key@,
                opt_i8_int(v),
            ));
        }
    }

    /// Appends the present combat numbers.
    fn add_combat_fields(&self, out: &mut Vec<(String, String)>, combat: &Option<Combat>)
        ensures
            pairs_view(final(out)@) == pairs_view(old(out)@) + combat_fields_model(*combat),
    {
        if let Option::Some(cb) = combat {
            self.push_opt_u8(out, "armor_class", cb.armor_class);
            self.push_opt_u16(out, "hit_point_maximum", cb.hit_point_maximum);
            self.push_opt_u16(out, "current_hit_points", cb.current_hit_points);
            self.push_opt_u8(out, "speed", cb.speed);
            self.push_opt_i8(out, "initiative", cb.initiative);
        }
        proof {
            if let Option::Some(cb) = &*combat {
                let pv = pairs_view(old(out)@);
                let t1 = opt_num_field("armor_class"@, opt_u8_int(cb.armor_class));
                let t2 = opt_num_field("hit_point_maximum"@, opt_u16_int(cb.hit_point_maximum));
                let t3 = opt_num_field("current_hit_points"@, opt_u16_int(cb.current_hit_points));
                let t4 = opt_num_field("speed"@, opt_u8_int(cb.speed));
                let t5 = opt_num_field("initiative"@, opt_i8_int(cb.initiative));
                vstd::seq_lib::lemma_concat_associative(pv, t1, t2);
                vstd::seq_lib::lemma_concat_associative(pv, t1 + t2, t3);
                vstd::seq_lib::lemma_concat_associative(pv, t1 + t2 + t3, t4);
                vstd::seq_lib::lemma_concat_associative(pv, t1 + t2 + t3 + t4, t5);
            }
            assert(pairs_view(out@) == pairs_view(old(out)@) + combat_fields_model(*combat));
        }
    }

    /// Appends the five coin counts, when present.
    fn add_currency_fields(&self, out: &mut Vec<(String, String)>, equipment: &Option<Equipment>)
        ensures
            pairs_view(final(out)@) == pairs_view(old(out)@) + currency_model(*equipment),
    {
        if let Option::Some(eq) = equipment {
            if let Option::Some(cur) = &eq.currency {
                self.push_field(out, "copper_pieces", u32_to_string(cur.cp));
                self.push_field(out, "silver_pieces", u32_to_string(cur.sp));
                self.push_field(out, "electrum_pieces", u32_to_string(cur.ep));
                self.push_field(out, "gold_pieces", u32_to_string(cur.gp));
                self.push_field(out, "platinum_pieces", u32_to_string(cur.pp));
            }
        }
        proof {
            if let Option::Some(eq) = &*equipment {
                if let Option::Some(cur) = &eq.currency {
                    let pv = pairs_view(old(out)@);
                    let t1 = opt_text_entry(pdf_field_name("copper_pieces"@), dec_rep(cur.cp as int));
                    let t2 = opt_text_entry(pdf_field_name("silver_pieces"@), dec_rep(cur.sp as int));
                    let t3 = opt_text_entry(pdf_field_name("electrum_pieces"@), dec_rep(cur.ep as int));
                    let t4 = opt_text_entry(pdf_field_name("gold_pieces"@), dec_rep(cur.gp as int));
                    let t5 = opt_text_entry(pdf_field_name("platinum_pieces"@), dec_rep(cur.pp as int));
                    vstd::seq_lib::lemma_concat_associative(pv, t1, t2);
                    vstd::seq_lib::lemma_concat_associative(pv, t1 + t2, t3);
                    vstd::seq_lib::lemma_concat_associative(pv, t1 + t2 + t3, t4);
                    vstd::seq_lib::lemma_concat_associative(pv, t1 + t2 + t3 + t4, t5);
                }
            }
            assert(pairs_view(out@) == pairs_view(old(out)@) + currency_model(*equipment));
        }
    }

    /// Appends the contribution of the spell at `i` of one bucket.
    fn push_spell_entry(
        &self,
        fields: &mut Vec<(String, String)>,
        level: u8,
        spells: &Vec<Spell>,
        i: usize,
    )
        requires
            i < spells@.len(),
        ensures
            pairs_view(final(fields)@) == pairs_view(old(fields)@) + spell_entry(
                level,
                spells@,
                i as int,
            ),
    {
        let cap: usize = if level == 0 {
            8
        } else {
            13
        };
        if spells[i].level == level && i < cap {
            let name_field = self.field_mapper.get_spell_field_name(level, i);
            fields.push((name_field, spells[i].name.clone()));
            if spells[i].prepared && level > 0 {
                let prepared_field = self.field_mapper.get_spell_prepared_checkbox(level, i);
                fields.push((prepared_field, String::from_str("Yes")));
            }
        }
        proof {
            assert(pairs_view(fields@) =~= pairs_view(old(fields)@) + spell_entry(
                level,
                spells@,
                i as int,
            ));
        }
    }

    /// Appends the rows of every spell of one bucket, under the
    /// positional naming, skipping spells whose stored level does not
    /// match the bucket.
    fn add_spell_fields_with_mapper(
        &self,
        fields: &mut Vec<(String, String)>,
        level: u8,
        spells: &Vec<Spell>,
    )
        ensures
            pairs_view(final(fields)@) == pairs_view(old(fields)@) + spell_level_fields(
                level,
                spells@,
            ),
    {
        let mut i: usize = 0;
        while i < spells.len()
            invariant
                0 <= i <= spells@.len(),
                pairs_view(fields@) == pairs_view(old(fields)@) + spell_fields_upto(
                    level,
                    spells@,
                    i as int,
                ),
            decreases spells@.len() - i,
        {
            self.push_spell_entry(fields, level, spells, i);
            proof {
                assert(pairs_view(fields@) =~= pairs_view(old(fields)@) + spell_fields_upto(
                    level,
                    spells@,
                    i + 1,
                ));
            }
            i = i + 1;
        }
    }

    /// Appends the dashed item lines to a block of text.
    fn append_dash_items(text: &mut String, items: &Vec<String>)
        ensures
            final(text)@ == old(text)@ + dash_items(items@),
    {
        proof {
            reveal_strlit("\n- ");
        }
        let mut i: usize = 0;
        while i < items.len()
            invariant
                0 <= i <= items@.len(),
                text@ == old(text)@ + dash_items(items@.take(i as int)),
            decreases items@.len() - i,
        {
            proof {
                assert(items@.take(i + 1).drop_last() =~= items@.take(i as int));
                assert(items@.take(i + 1).last() == items@[i as int]);
            }
            text.append("\n- ");
            text.append(items[i].as_str());
            proof {
                assert(text@ =~= old(text)@ + dash_items(items@.take(i + 1)));
            }
            i = i + 1;
        }
        proof {
            assert(items@.take(items@.len() as int) =~= items@);
        }
    }

    /// Appends the combined features-and-traits entry, when any text
    /// comes out.
    fn add_features_field(&self, out: &mut Vec<(String, String)>, ft: &Option<FeaturesTraits>)
        ensures
            pairs_view(final(out)@) == pairs_view(old(out)@) + features_model(*ft),
    {
        if let Option::Some(f) = ft {
            proof {
                reveal_strlit("Features:");
                reveal_strlit("\n\nTraits:");
                reveal_strlit("Traits:");
            }
            let has_features = match &f.features {
                Option::Some(items) => items.len() > 0,
                Option::None => false,
            };
            let has_traits = match &f.traits {
                Option::Some(items) => items.len() > 0,
                Option::None => false,
            };
            if has_features && has_traits {
                let mut text = String::from_str("Features:");
                if let Option::Some(items) = &f.features {
                    Self::append_dash_items(&mut text, items);
                }
                text.append("\n\nTraits:");
                if let Option::Some(items) = &f.traits {
                    Self::append_dash_items(&mut text, items);
                }
                proof {
                    assert(text@ =~= features_text_model(*f));
                    assert(features_text_model(*f).len() > 0);
                }
                self.push_field(out, "features_traits", text);
            } else if has_features {
                let mut text = String::from_str("Features:");
                if let Option::Some(items) = &f.features {
                    Self::append_dash_items(&mut text, items);
                }
                proof {
                    assert(text@ =~= features_text_model(*f));
                    assert(features_text_model(*f).len() > 0);
                }
                self.push_field(out, "features_traits", text);
            } else if has_traits {
                let mut text = String::from_str("Traits:");
                if let Option::Some(items) = &f.traits {
                    Self::append_dash_items(&mut text, items);
                }
                proof {
                    assert(text@ =~= features_text_model(*f));
                    assert(features_text_model(*f).len() > 0);
                }
                self.push_field(out, "features_traits", text);
            }
        }
        proof {
            assert(pairs_view(out@) =~= pairs_view(old(out)@) + features_model(*ft));
        }
    }

    /// The modifier of the spellcasting ability a present spell aggregate
    /// names (exact capitalized names).
    fn header_modifier(&self, sp: &Spells, a: &AbilityScores) -> (m: i8)
        ensures
            m as int == header_spell_mod(sp.spellcasting_ability, *a),
    {
        match &sp.spellcasting_ability {
            Option::Some(ab) => {
                if str_eq(ab.as_str(), "Intelligence") {
                    modifier_of_score(a.intelligence)
                } else if str_eq(ab.as_str(), "Wisdom") {
                    modifier_of_score(a.wisdom)
                } else if str_eq(ab.as_str(), "Charisma") {
                    modifier_of_score(a.charisma)
                } else {
                    0
                }
            },
            Option::None => 0,
        }
    }

    /// Appends the spell header of a present spell aggregate.
    fn add_spell_header(&self, out: &mut Vec<(String, String)>, sp: &Spells, d: &CharacterData)
        requires
            d.spells == Option::Some(*sp),
        ensures
            pairs_view(final(out)@) == pairs_view(old(out)@) + spell_header_model(*sp, *d),
    {
        let prof = get_proficiency_bonus(d.character.level);
        let m = self.header_modifier(sp, &d.abilities);
        let attack: i32 = (m as i32) + (prof as i32);
        let dc: i32 = 8 + (m as i32) + (prof as i32);
        self.push_field(out, "spell_attack_bonus", format_bonus(attack));
        self.push_field(out, "spell_save_dc", i32_to_string(dc));
        self.push_field(out, "spellcasting_class", d.character.class.clone());
        if let Option::Some(ab) = &sp.spellcasting_ability {
            self.push_field(out, "spellcasting_ability", ab.clone());
        }
        proof {
            let pv = pairs_view(old(out)@);
            let hm = header_spell_mod(sp.spellcasting_ability, d.abilities);
            let pb = proficiency_bonus_for(d.character.level as int);
            let t1 = opt_text_entry(pdf_field_name("spell_attack_bonus"@), bonus_rep(hm + pb));
            let t2 = opt_text_entry(pdf_field_name("spell_save_dc"@), int_rep(8 + hm + pb));
            let t3 = opt_text_entry(pdf_field_name("spellcasting_class"@), d.character.class@);
            let t4 = (match &sp.spellcasting_ability {
                Option::Some(a) => opt_text_entry(pdf_field_name("spellcasting_ability"@), a@),
                Option::None => Seq::empty(),
            });
            vstd::seq_lib::lemma_concat_associative(pv, t1, t2);
            vstd::seq_lib::lemma_concat_associative(pv, t1 + t2, t3);
            vstd::seq_lib::lemma_concat_associative(pv, t1 + t2 + t3, t4);
            assert(pairs_view(out@) == pairs_view(old(out)@) + spell_header_model(*sp, *d));
        }
    }

    /// Appends the spell header inferred from the class name, when the
    /// class implies a caster.
    fn add_inferred_header(&self, out: &mut Vec<(String, String)>, d: &CharacterData)
        ensures
            pairs_view(final(out)@) == pairs_view(old(out)@) + inferred_header_model(*d),
    {
        let prof = get_proficiency_bonus(d.character.level);
        let class = &d.character.class;
        let ability: Option<&'static str> = if str_eq(class.as_str(), "Wizard") || str_eq(
            class.as_str(),
            "Eldritch Knight",
        ) || str_eq(class.as_str(), "Arcane Trickster") {
            Option::Some("Intelligence")
        } else if str_eq(class.as_str(), "Cleric") || str_eq(class.as_str(), "Druid") || str_eq(
            class.as_str(),
            "Ranger",
        ) {
            Option::Some("Wisdom")
        } else if str_eq(class.as_str(), "Sorcerer") || str_eq(class.as_str(), "Bard") || str_eq(
            class.as_str(),
            "Paladin",
        ) {
            Option::Some("Charisma")
        } else {
            Option::None
        };
        if let Option::Some(ab) = ability {
            let m: i8 = if str_eq(ab, "Intelligence") {
                modifier_of_score(d.abilities.intelligence)
            } else if str_eq(ab, "Wisdom") {
                modifier_of_score(d.abilities.wisdom)
            } else {
                modifier_of_score(d.abilities.charisma)
            };
            let attack: i32 = (m as i32) + (prof as i32);
            let dc: i32 = 8 + (m as i32) + (prof as i32);
            self.push_field(out, "spellcasting_class", d.character.class.clone());
            self.push_field(out, "spellcasting_ability", String::from_str(ab));
            self.push_field(out, "spell_attack_bonus", format_bonus(attack));
            self.push_field(out, "spell_save_dc", i32_to_string(dc));
        }
        proof {
            if let Option::Some(abn) = inferred_ability(d.character.class@) {
                let pv = pairs_view(old(out)@);
                let nm = named_ability_mod(abn, d.abilities);
                let pb = proficiency_bonus_for(d.character.level as int);
                let t1 = opt_text_entry(pdf_field_name("spellcasting_class"@), d.character.class@);
                let t2 = opt_text_entry(pdf_field_name("spellcasting_ability"@), abn);
                let t3 = opt_text_entry(pdf_field_name("spell_attack_bonus"@), bonus_rep(nm + pb));
                let t4 = opt_text_entry(pdf_field_name("spell_save_dc"@), int_rep(8 + nm + pb));
                vstd::seq_lib::lemma_concat_associative(pv, t1, t2);
                vstd::seq_lib::lemma_concat_associative(pv, t1 + t2, t3);
                vstd::seq_lib::lemma_concat_associative(pv, t1 + t2 + t3, t4);
            }
            assert(pairs_view(out@) == pairs_view(old(out)@) + inferred_header_model(*d));
        }
    }

    /// Appends the rows of all ten buckets.
    fn add_all_spell_buckets(&self, out: &mut Vec<(String, String)>, sp: &Spells)
        ensures
            pairs_view(final(out)@) == pairs_view(old(out)@) + spell_lists_model(*sp),
    {
        self.add_spell_fields_with_mapper(out, 0, &sp.cantrips);
        self.add_spell_fields_with_mapper(out, 1, &sp.first_level);
        self.add_spell_fields_with_mapper(out, 2, &sp.second_level);
        self.add_spell_fields_with_mapper(out, 3, &sp.third_level);
        self.add_spell_fields_with_mapper(out, 4, &sp.fourth_level);
        self.add_spell_fields_with_mapper(out, 5, &sp.fifth_level);
        self.add_spell_fields_with_mapper(out, 6, &sp.sixth_level);
        self.add_spell_fields_with_mapper(out, 7, &sp.seventh_level);
        self.add_spell_fields_with_mapper(out, 8, &sp.eighth_level);
        self.add_spell_fields_with_mapper(out, 9, &sp.ninth_level);
        proof {
            let pv = pairs_view(old(out)@);
            let t1 = spell_level_fields(0, sp.cantrips@);
            let t2 = spell_level_fields(1, sp.first_level@);
            let t3 = spell_level_fields(2, sp.second_level@);
            let t4 = spell_level_fields(3, sp.third_level@);
            let t5 = spell_level_fields(4, sp.fourth_level@);
            let t6 = spell_level_fields(5, sp.fifth_level@);
            let t7 = spell_level_fields(6, sp.sixth_level@);
            let t8 = spell_level_fields(7, sp.seventh_level@);
            let t9 = spell_level_fields(8, sp.eighth_level@);
            let t10 = spell_level_fields(9, sp.ninth_level@);
            vstd::seq_lib::lemma_concat_associative(pv, t1, t2);
            vstd::seq_lib::lemma_concat_associative(pv, t1 + t2, t3);
            vstd::seq_lib::lemma_concat_associative(pv, t1 + t2 + t3, t4);
            vstd::seq_lib::lemma_concat_associative(pv, t1 + t2 + t3 + t4, t5);
            vstd::seq_lib::lemma_concat_associative(pv, t1 + t2 + t3 + t4 + t5, t6);
            vstd::seq_lib::lemma_concat_associative(pv, t1 + t2 + t3 + t4 + t5 + t6, t7);
            vstd::seq_lib::lemma_concat_associative(pv, t1 + t2 + t3 + t4 + t5 + t6 + t7, t8);
            vstd::seq_lib::lemma_concat_associative(pv, t1 + t2 + t3 + t4 + t5 + t6 + t7 + t8, t9);
            vstd::seq_lib::lemma_concat_associative(pv, t1 + t2 + t3 + t4 + t5 + t6 + t7 + t8 + t9, t10);
            assert(pairs_view(out@) == pairs_view(old(out)@) + spell_lists_model(*sp));
        }
    }

    /// Appends the spell header and every spell row.
    fn add_spell_fields(&self, out: &mut Vec<(String, String)>, d: &CharacterData)
        ensures
            pairs_view(final(out)@) == pairs_view(old(out)@) + spells_model(*d),
    {
        if let Option::Some(sp) = &d.spells {
            self.add_spell_header(out, sp, d);
            self.add_all_spell_buckets(out, sp);
        } else {
            self.add_inferred_header(out, d);
        }
        proof {
            if let Option::Some(sp) = &d.spells {
                vstd::seq_lib::lemma_concat_associative(
                    pairs_view(old(out)@),
                    spell_header_model(*sp, *d),
                    spell_lists_model(*sp),
                );
            }
            assert(pairs_view(out@) == pairs_view(old(out)@) + spells_model(*d));
        }
    }

    /// Appends the narrative entries, each truncated.
    fn add_narrative_fields(
        &self,
        out: &mut Vec<(String, String)>,
        narrative: &Option<crate::character_model::CharacterNarrative>,
    )
        ensures
            pairs_view(final(out)@) == pairs_view(old(out)@) + narrative_model(*narrative),
    {
        if let Option::Some(n) = narrative {
            self.push_trunc_field(out, "personality_traits", &n.personality_traits);
            self.push_trunc_field(out, "ideals", &n.ideals);
            self.push_trunc_field(out, "bonds", &n.bonds);
            self.push_trunc_field(out, "flaws", &n.flaws);
        }
        proof {
            if let Option::Some(nn) = &*narrative {
                let pv = pairs_view(old(out)@);
                let t1 = opt_trunc_entry("personality_traits"@, nn.personality_traits);
                let t2 = opt_trunc_entry("ideals"@, nn.ideals);
                let t3 = opt_trunc_entry("bonds"@, nn.bonds);
                let t4 = opt_trunc_entry("flaws"@, nn.flaws);
                vstd::seq_lib::lemma_concat_associative(pv, t1, t2);
                vstd::seq_lib::lemma_concat_associative(pv, t1 + t2, t3);
                vstd::seq_lib::lemma_concat_associative(pv, t1 + t2 + t3, t4);
            }
            assert(pairs_view(out@) == pairs_view(old(out)@) + narrative_model(*narrative));
        }
    }

    /// Appends the spell-slot counts.
    fn add_slot_fields(&self, out: &mut Vec<(String, String)>, d: &CharacterData)
        ensures
            pairs_view(final(out)@) == pairs_view(old(out)@) + slot_fields_model(*d),
    {
        let slots = SpellSystem::calculate_spell_slots(d);
        let mut i: usize = 0;
        while i < slots.len()
            invariant
                0 <= i <= slots@.len(),
                slots@ == spell_slots_model(d.character.class@, d.character.level),
                forall|k: int| 0 <= k < slots@.len() ==> 1 <= (#[trigger] slots@[k]).0 <= 9,
                pairs_view(out@) == pairs_view(old(out)@) + slot_fields_upto(slots@, i as int),
            decreases slots@.len() - i,
        {
            let (slot_level, count) = slots[i];
            if count > 0 {
                let key = slot_key_str(slot_level);
                self.push_field(out, key, u32_to_string(count as u32));
            }
            proof {
                assert(pairs_view(out@) =~= pairs_view(old(out)@) + slot_fields_upto(
                    slots@,
                    i + 1,
                ));
            }
            i = i + 1;
        }
    }

    /// Appends one saving throw's bonus.
    fn push_save_field(
        &self,
        out: &mut Vec<(String, String)>,
        p: &Proficiencies,
        ability_key: &str,
        save_key: &str,
        score: u8,
        level: u8,
    )
        ensures
            pairs_view(final(out)@) == pairs_view(old(out)@) + save_field(
                *p,
                ability_key@,
                save_key@,
                score as int,
                level as int,
            ),
    {
        let prof = vec_contains_str(&p.saving_throws, ability_key);
        let txt = self.calculate_saving_throw_safe(score, level, prof, ability_key);
        self.push_field(out, save_key, txt);
    }

    /// Appends the six saving-throw bonuses.
    fn add_save_fields(
        &self,
        out: &mut Vec<(String, String)>,
        p: &Proficiencies,
        a: &AbilityScores,
        level: u8,
    )
        ensures
            pairs_view(final(out)@) == pairs_view(old(out)@) + saves_model(*p, *a, level),
    {
        self.push_save_field(out, p, "strength", "strength_save", a.strength, level);
        self.push_save_field(out, p, "dexterity", "dexterity_save", a.dexterity, level);
        self.push_save_field(out, p, "constitution", "constitution_save", a.constitution, level);
        self.push_save_field(out, p, "intelligence", "intelligence_save", a.intelligence, level);
        self.push_save_field(out, p, "wisdom", "wisdom_save", a.wisdom, level);
        self.push_save_field(out, p, "charisma", "charisma_save", a.charisma, level);
        proof {
            let pv = pairs_view(old(out)@);
            let t1 = save_field(*p, "strength"@, "strength_save"@, a.strength as int, level as int);
            let t2 = save_field(*p, "dexterity"@, "dexterity_save"@, a.dexterity as int, level as int);
            let t3 = save_field(*p, "constitution"@, "constitution_save"@, a.constitution as int, level as int);
            let t4 = save_field(*p, "intelligence"@, "intelligence_save"@, a.intelligence as int, level as int);
            let t5 = save_field(*p, "wisdom"@, "wisdom_save"@, a.wisdom as int, level as int);
            let t6 = save_field(*p, "charisma"@, "charisma_save"@, a.charisma as int, level as int);
            vstd::seq_lib::lemma_concat_associative(pv, t1, t2);
            vstd::seq_lib::lemma_concat_associative(pv, t1 + t2, t3);
            vstd::seq_lib::lemma_concat_associative(pv, t1 + t2 + t3, t4);
            vstd::seq_lib::lemma_concat_associative(pv, t1 + t2 + t3 + t4, t5);
            vstd::seq_lib::lemma_concat_associative(pv, t1 + t2 + t3 + t4 + t5, t6);
            assert(pairs_view(out@) == pairs_view(old(out)@) + saves_model(*p, *a, level));
        }
    }

    /// Appends one skill's bonus.
    fn push_skill_field(
        &self,
        out: &mut Vec<(String, String)>,
        p: &Proficiencies,
        key: &str,
        score: u8,
        level: u8,
    )
        ensures
            pairs_view(final(out)@) == pairs_view(old(out)@) + skill_field(
                *p,
                key@,
                score as int,
                level as int,
            ),
    {
        let prof = vec_contains_str(&p.skills, key);
        let txt = self.calculate_skill_safe(score, level, prof, key);
        self.push_field(out, key, txt);
    }

    /// Appends the eighteen skill bonuses.
    fn add_skill_fields(
        &self,
        out: &mut Vec<(String, String)>,
        p: &Proficiencies,
        a: &AbilityScores,
        level: u8,
    )
        ensures
            pairs_view(final(out)@) == pairs_view(old(out)@) + skills_model(*p, *a, level),
    {
        self.push_skill_field(out, p, "acrobatics", a.dexterity, level);
        self.push_skill_field(out, p, "animal_handling", a.wisdom, level);
        self.push_skill_field(out, p, "arcana", a.intelligence, level);
        self.push_skill_field(out, p, "athletics", a.strength, level);
        self.push_skill_field(out, p, "deception", a.charisma, level);
        self.push_skill_field(out, p, "history", a.intelligence, level);
        self.push_skill_field(out, p, "insight", a.wisdom, level);
        self.push_skill_field(out, p, "intimidation", a.charisma, level);
        self.push_skill_field(out, p, "investigation", a.intelligence, level);
        self.push_skill_field(out, p, "medicine", a.wisdom, level);
        self.push_skill_field(out, p, "nature", a.intelligence, level);
        self.push_skill_field(out, p, "perception", a.wisdom, level);
        self.push_skill_field(out, p, "performance", a.charisma, level);
        self.push_skill_field(out, p, "persuasion", a.charisma, level);
        self.push_skill_field(out, p, "religion", a.intelligence, level);
        self.push_skill_field(out, p, "sleight_of_hand", a.dexterity, level);
        self.push_skill_field(out, p, "stealth", a.dexterity, level);
        self.push_skill_field(out, p, "survival", a.wisdom, level);
        proof {
            let pv = pairs_view(old(out)@);
            let t1 = skill_field(*p, "acrobatics"@, a.dexterity as int, level as int);
            let t2 = skill_field(*p, "animal_handling"@, a.wisdom as int, level as int);
            let t3 = skill_field(*p, "arcana"@, a.intelligence as int, level as int);
            let t4 = skill_field(*p, "athletics"@, a.strength as int, level as int);
            let t5 = skill_field(*p, "deception"@, a.charisma as int, level as int);
            let t6 = skill_field(*p, "history"@, a.intelligence as int, level as int);
            let t7 = skill_field(*p, "insight"@, a.wisdom as int, level as int);
            let t8 = skill_field(*p, "intimidation"@, a.charisma as int, level as int);
            let t9 = skill_field(*p, "investigation"@, a.intelligence as int, level as int);
            let t10 = skill_field(*p, "medicine"@, a.wisdom as int, level as int);
            let t11 = skill_field(*p, "nature"@, a.intelligence as int, level as int);
            let t12 = skill_field(*p, "perception"@, a.wisdom as int, level as int);
            let t13 = skill_field(*p, "performance"@, a.charisma as int, level as int);
            let t14 = skill_field(*p, "persuasion"@, a.charisma as int, level as int);
            let t15 = skill_field(*p, "religion"@, a.intelligence as int, level as int);
            let t16 = skill_field(*p, "sleight_of_hand"@, a.dexterity as int, level as int);
            let t17 = skill_field(*p, "stealth"@, a.dexterity as int, level as int);
            let t18 = skill_field(*p, "survival"@, a.wisdom as int, level as int);
            vstd::seq_lib::lemma_concat_associative(pv, t1, t2);
            vstd::seq_lib::lemma_concat_associative(pv, t1 + t2, t3);
            vstd::seq_lib::lemma_concat_associative(pv, t1 + t2 + t3, t4);
            vstd::seq_lib::lemma_concat_associative(pv, t1 + t2 + t3 + t4, t5);
            vstd::seq_lib::lemma_concat_associative(pv, t1 + t2 + t3 + t4 + t5, t6);
            vstd::seq_lib::lemma_concat_associative(pv, t1 + t2 + t3 + t4 + t5 + t6, t7);
            vstd::seq_lib::lemma_concat_associative(pv, t1 + t2 + t3 + t4 + t5 + t6 + t7, t8);
            vstd::seq_lib::lemma_concat_associative(pv, t1 + t2 + t3 + t4 + t5 + t6 + t7 + t8, t9);
            vstd::seq_lib::lemma_concat_associative(pv, t1 + t2 + t3 + t4 + t5 + t6 + t7 + t8 + t9, t10);
            vstd::seq_lib::lemma_concat_associative(pv, t1 + t2 + t3 + t4 + t5 + t6 + t7 + t8 + t9 + t10, t11);
            vstd::seq_lib::lemma_concat_associative(pv, t1 + t2 + t3 + t4 + t5 + t6 + t7 + t8 + t9 + t10 + t11, t12);
            vstd::seq_lib::lemma_concat_associative(pv, t1 + t2 + t3 + t4 + t5 + t6 + t7 + t8 + t9 + t10 + t11 + t12, t13);
            vstd::seq_lib::lemma_concat_associative(pv, t1 + t2 + t3 + t4 + t5 + t6 + t7 + t8 + t9 + t10 + t11 + t12 + t13, t14);
            vstd::seq_lib::lemma_concat_associative(pv, t1 + t2 + t3 + t4 + t5 + t6 + t7 + t8 + t9 + t10 + t11 + t12 + t13 + t14, t15);
            vstd::seq_lib::lemma_concat_associative(pv, t1 + t2 + t3 + t4 + t5 + t6 + t7 + t8 + t9 + t10 + t11 + t12 + t13 + t14 + t15, t16);
            vstd::seq_lib::lemma_concat_associative(pv, t1 + t2 + t3 + t4 + t5 + t6 + t7 + t8 + t9 + t10 + t11 + t12 + t13 + t14 + t15 + t16, t17);
            vstd::seq_lib::lemma_concat_associative(pv, t1 + t2 + t3 + t4 + t5 + t6 + t7 + t8 + t9 + t10 + t11 + t12 + t13 + t14 + t15 + t16 + t17, t18);
            assert(pairs_view(out@) == pairs_view(old(out)@) + skills_model(*p, *a, level));
        }
    }

    /// Appends the proficiency-bonus field.
    fn add_proficiency_field(&self, out: &mut Vec<(String, String)>, level: u8)
        ensures
            pairs_view(final(out)@) == pairs_view(old(out)@) + opt_text_entry(
                pdf_field_name("proficiency_bonus"@),
                bonus_rep(proficiency_bonus_for(level as int)),
            ),
    {
        let prof = get_proficiency_bonus(level);
        self.push_field(out, "proficiency_bonus", format_bonus(prof as i32));
    }

    /// Appends the passive perception, when proficiencies are given and
    /// the wisdom score lies in the accepted range.
    fn add_passive_perception(&self, out: &mut Vec<(String, String)>, d: &CharacterData)
        ensures
            pairs_view(final(out)@) == pairs_view(old(out)@) + passive_perception_model(*d),
    {
        if let Option::Some(p) = &d.proficiencies {
            let wis = d.abilities.wisdom;
            if wis >= 1 && wis <= 30 {
                let is_prof = vec_contains_str(&p.skills, "perception");
                let prof = get_proficiency_bonus(d.character.level);
                let m = modifier_of_score(wis);
                let passive: i32 = 10 + (m as i32) + (if is_prof {
                    prof as i32
                } else {
                    0
                });
                self.push_field(out, "passive_perception", i32_to_string(passive));
            }
        }
        proof {
            assert(pairs_view(out@) =~= pairs_view(old(out)@) + passive_perception_model(*d));
        }
    }

    /// Appends the hit-dice total and die type.
    fn add_hit_dice_fields(&self, out: &mut Vec<(String, String)>, c: &Character)
        ensures
            pairs_view(final(out)@) == pairs_view(old(out)@) + hit_dice_model(*c),
    {
        self.push_field(out, "hit_dice_total", u32_to_string(c.level as u32));
        let die = hit_die_type(c.class.as_str());
        self.push_field(out, "hit_dice_type", String::from_str(die));
        proof {
            assert(pairs_view(out@) =~= pairs_view(old(out)@) + hit_dice_model(*c));
        }
    }

    /// Appends the saving throws and skills, when proficiencies are
    /// given.
    fn add_save_skill_fields(&self, out: &mut Vec<(String, String)>, d: &CharacterData)
        ensures
            pairs_view(final(out)@) == pairs_view(old(out)@) + save_skill_model(*d),
    {
        if let Option::Some(p) = &d.proficiencies {
            self.add_save_fields(out, p, &d.abilities, d.character.level);
            self.add_skill_fields(out, p, &d.abilities, d.character.level);
        }
        proof {
            if let Option::Some(p) = &d.proficiencies {
                vstd::seq_lib::lemma_concat_associative(
                    pairs_view(old(out)@),
                    saves_model(*p, d.abilities, d.character.level),
                    skills_model(*p, d.abilities, d.character.level),
                );
            }
            assert(pairs_view(out@) == pairs_view(old(out)@) + save_skill_model(*d));
        }
    }

    /// Every text field of the record, in emission order.  Reading the
    /// result as a mapping (later entries supersede earlier ones with the
    /// same identifier) gives the sheet's text values.
    pub fn get_field_values(&self, character_data: &CharacterData) -> (r: Vec<(String, String)>)
        ensures
            pairs_view(r@) == field_values_model(*character_data),
    {
        let mut fields: Vec<(String, String)> = Vec::new();
        self.add_identity_fields(&mut fields, &character_data.character);
        self.add_ability_fields(&mut fields, &character_data.abilities);
        self.add_combat_fields(&mut fields, &character_data.combat);
        self.add_proficiency_field(&mut fields, character_data.character.level);
        self.add_passive_perception(&mut fields, character_data);
        self.add_hit_dice_fields(&mut fields, &character_data.character);
        self.add_currency_fields(&mut fields, &character_data.equipment);
        self.add_features_field(&mut fields, &character_data.features_traits);
        self.add_spell_fields(&mut fields, character_data);
        self.add_narrative_fields(&mut fields, &character_data.narrative);
        self.add_slot_fields(&mut fields, character_data);
        self.add_save_skill_fields(&mut fields, character_data);
        proof {
            assert(pairs_view(Seq::<(String, String)>::empty()) =~= Seq::<
                (Seq<char>, Seq<char>),
            >::empty());
            assert(Seq::<(Seq<char>, Seq<char>)>::empty() + identity_model(
                character_data.character,
            ) =~= identity_model(character_data.character));
            assert(pairs_view(fields@) == field_values_model(*character_data));
        }
        fields
    }

    /// Appends one checkbox mark, when the table knows the key.
    fn push_checkbox(&self, out: &mut Vec<(String, bool)>, key: &str, value: bool)
        ensures
            bool_pairs_view(final(out)@) == bool_pairs_view(old(out)@) + opt_bool_entry(
                pdf_field_name(key@),
                value,
            ),
    {
        if let Option::Some(name) = self.field_mapper.get_pdf_field_name(key) {
            out.push((String::from_str(name), value));
        }
        proof {
            assert(bool_pairs_view(out@) =~= bool_pairs_view(old(out)@) + opt_bool_entry(
                pdf_field_name(key@),
                value,
            ));
        }
    }

    /// Appends one saving throw's proficiency mark.
    fn push_save_checkbox(
        &self,
        out: &mut Vec<(String, bool)>,
        p: &Proficiencies,
        ability_key: &str,
        box_key: &str,
    )
        ensures
            bool_pairs_view(final(out)@) == bool_pairs_view(old(out)@) + save_checkbox(
                *p,
                ability_key@,
                box_key@,
            ),
    {
        let prof = vec_contains_str(&p.saving_throws, ability_key);
        self.push_checkbox(out, box_key, prof);
    }

    /// Appends one skill's proficiency mark.
    fn push_skill_checkbox(
        &self,
        out: &mut Vec<(String, bool)>,
        p: &Proficiencies,
        skill: &str,
        key: &str,
    )
        ensures
            bool_pairs_view(final(out)@) == bool_pairs_view(old(out)@) + skill_checkbox(
                *p,
                skill@,
                key@,
            ),
    {
        let prof = vec_contains_str(&p.skills, skill);
        self.push_checkbox(out, key, prof);
    }

    /// Every checkbox mark of the record: saving-throw and skill
    /// proficiencies.
    pub fn get_checkbox_fields(&self, character_data: &CharacterData) -> (r: Vec<(String, bool)>)
        ensures
            bool_pairs_view(r@) == checkbox_model(*character_data),
    {
        let mut checkboxes: Vec<(String, bool)> = Vec::new();
        if let Option::Some(p) = &character_data.proficiencies {
            self.add_save_checkboxes(&mut checkboxes, p);
            self.add_skill_checkboxes(&mut checkboxes, p);
        }
        proof {
            assert(bool_pairs_view(Seq::<(String, bool)>::empty()) =~= Seq::<
                (Seq<char>, bool),
            >::empty());
            if let Option::Some(p) = &character_data.proficiencies {
                assert(Seq::<(Seq<char>, bool)>::empty() + save_checkbox_model(*p)
                    =~= save_checkbox_model(*p));
            }
            assert(bool_pairs_view(checkboxes@) == checkbox_model(*character_data));
        }
        checkboxes
    }

    /// Appends the six saving-throw proficiency marks.
    fn add_save_checkboxes(&self, out: &mut Vec<(String, bool)>, p: &Proficiencies)
        ensures
            bool_pairs_view(final(out)@) == bool_pairs_view(old(out)@) + save_checkbox_model(*p),
    {
        self.push_save_checkbox(out, p, "strength", "strength_save_prof");
        self.push_save_checkbox(out, p, "dexterity", "dexterity_save_prof");
        self.push_save_checkbox(out, p, "constitution", "constitution_save_prof");
        self.push_save_checkbox(out, p, "intelligence", "intelligence_save_prof");
        self.push_save_checkbox(out, p, "wisdom", "wisdom_save_prof");
        self.push_save_checkbox(out, p, "charisma", "charisma_save_prof");
        proof {
            let pv = bool_pairs_view(old(out)@);
            let t1 = save_checkbox(*p, "strength"@, "strength_save_prof"@);
            let t2 = save_checkbox(*p, "dexterity"@, "dexterity_save_prof"@);
            let t3 = save_checkbox(*p, "constitution"@, "constitution_save_prof"@);
            let t4 = save_checkbox(*p, "intelligence"@, "intelligence_save_prof"@);
            let t5 = save_checkbox(*p, "wisdom"@, "wisdom_save_prof"@);
            let t6 = save_checkbox(*p, "charisma"@, "charisma_save_prof"@);
            vstd::seq_lib::lemma_concat_associative(pv, t1, t2);
            vstd::seq_lib::lemma_concat_associative(pv, t1 + t2, t3);
            vstd::seq_lib::lemma_concat_associative(pv, t1 + t2 + t3, t4);
            vstd::seq_lib::lemma_concat_associative(pv, t1 + t2 + t3 + t4, t5);
            vstd::seq_lib::lemma_concat_associative(pv, t1 + t2 + t3 + t4 + t5, t6);
            assert(bool_pairs_view(out@) == bool_pairs_view(old(out)@) + save_checkbox_model(
                *p,
            ));
        }
    }

    /// Appends the first nine skill proficiency marks.
    fn add_skill_checkboxes_front(&self, out: &mut Vec<(String, bool)>, p: &Proficiencies)
        ensures
            bool_pairs_view(final(out)@) == bool_pairs_view(old(out)@)
                + skill_checkbox_model_front(*p),
    {
        self.push_skill_checkbox(out, p, "acrobatics", "acrobatics_prof");
        self.push_skill_checkbox(out, p, "animal_handling", "animal_handling_prof");
        self.push_skill_checkbox(out, p, "arcana", "arcana_prof");
        self.push_skill_checkbox(out, p, "athletics", "athletics_prof");
        self.push_skill_checkbox(out, p, "deception", "deception_prof");
        self.push_skill_checkbox(out, p, "history", "history_prof");
        self.push_skill_checkbox(out, p, "insight", "insight_prof");
        self.push_skill_checkbox(out, p, "intimidation", "intimidation_prof");
        self.push_skill_checkbox(out, p, "investigation", "investigation_prof");
        proof {
            let pv = bool_pairs_view(old(out)@);
            let t1 = skill_checkbox(*p, "acrobatics"@, "acrobatics_prof"@);
            let t2 = skill_checkbox(*p, "animal_handling"@, "animal_handling_prof"@);
            let t3 = skill_checkbox(*p, "arcana"@, "arcana_prof"@);
            let t4 = skill_checkbox(*p, "athletics"@, "athletics_prof"@);
            let t5 = skill_checkbox(*p, "deception"@, "deception_prof"@);
            let t6 = skill_checkbox(*p, "history"@, "history_prof"@);
            let t7 = skill_checkbox(*p, "insight"@, "insight_prof"@);
            let t8 = skill_checkbox(*p, "intimidation"@, "intimidation_prof"@);
            let t9 = skill_checkbox(*p, "investigation"@, "investigation_prof"@);
            vstd::seq_lib::lemma_concat_associative(pv, t1, t2);
            vstd::seq_lib::lemma_concat_associative(pv, t1 + t2, t3);
            vstd::seq_lib::lemma_concat_associative(pv, t1 + t2 + t3, t4);
            vstd::seq_lib::lemma_concat_associative(pv, t1 + t2 + t3 + t4, t5);
            vstd::seq_lib::lemma_concat_associative(pv, t1 + t2 + t3 + t4 + t5, t6);
            vstd::seq_lib::lemma_concat_associative(pv, t1 + t2 + t3 + t4 + t5 + t6, t7);
            vstd::seq_lib::lemma_concat_associative(pv, t1 + t2 + t3 + t4 + t5 + t6 + t7, t8);
            vstd::seq_lib::lemma_concat_associative(
                pv,
                t1 + t2 + t3 + t4 + t5 + t6 + t7 + t8,
                t9,
            );
            assert(bool_pairs_view(out@) == bool_pairs_view(old(out)@)
                + skill_checkbox_model_front(*p));
        }
    }

    /// Appends the last nine skill proficiency marks.
    fn add_skill_checkboxes_back(&self, out: &mut Vec<(String, bool)>, p: &Proficiencies)
        ensures
            bool_pairs_view(final(out)@) == bool_pairs_view(old(out)@)
                + skill_checkbox_model_back(*p),
    {
        self.push_skill_checkbox(out, p, "medicine", "medicine_prof");
        self.push_skill_checkbox(out, p, "nature", "nature_prof");
        self.push_skill_checkbox(out, p, "perception", "perception_prof");
        self.push_skill_checkbox(out, p, "performance", "performance_prof");
        self.push_skill_checkbox(out, p, "persuasion", "persuasion_prof");
        self.push_skill_checkbox(out, p, "religion", "religion_prof");
        self.push_skill_checkbox(out, p, "sleight_of_hand", "sleight_of_hand_prof");
        self.push_skill_checkbox(out, p, "stealth", "stealth_prof");
        self.push_skill_checkbox(out, p, "survival", "survival_prof");
        proof {
            let pv = bool_pairs_view(old(out)@);
            let t1 = skill_checkbox(*p, "medicine"@, "medicine_prof"@);
            let t2 = skill_checkbox(*p, "nature"@, "nature_prof"@);
            let t3 = skill_checkbox(*p, "perception"@, "perception_prof"@);
            let t4 = skill_checkbox(*p, "performance"@, "performance_prof"@);
            let t5 = skill_checkbox(*p, "persuasion"@, "persuasion_prof"@);
            let t6 = skill_checkbox(*p, "religion"@, "religion_prof"@);
            let t7 = skill_checkbox(*p, "sleight_of_hand"@, "sleight_of_hand_prof"@);
            let t8 = skill_checkbox(*p, "stealth"@, "stealth_prof"@);
            let t9 = skill_checkbox(*p, "survival"@, "survival_prof"@);
            vstd::seq_lib::lemma_concat_associative(pv, t1, t2);
            vstd::seq_lib::lemma_concat_associative(pv, t1 + t2, t3);
            vstd::seq_lib::lemma_concat_associative(pv, t1 + t2 + t3, t4);
            vstd::seq_lib::lemma_concat_associative(pv, t1 + t2 + t3 + t4, t5);
            vstd::seq_lib::lemma_concat_associative(pv, t1 + t2 + t3 + t4 + t5, t6);
            vstd::seq_lib::lemma_concat_associative(pv, t1 + t2 + t3 + t4 + t5 + t6, t7);
            vstd::seq_lib::lemma_concat_associative(pv, t1 + t2 + t3 + t4 + t5 + t6 + t7, t8);
            vstd::seq_lib::lemma_concat_associative(
                pv,
                t1 + t2 + t3 + t4 + t5 + t6 + t7 + t8,
                t9,
            );
            assert(bool_pairs_view(out@) == bool_pairs_view(old(out)@)
                + skill_checkbox_model_back(*p));
        }
    }

    /// Appends the eighteen skill proficiency marks.
    fn add_skill_checkboxes(&self, out: &mut Vec<(String, bool)>, p: &Proficiencies)
        ensures
            bool_pairs_view(final(out)@) == bool_pairs_view(old(out)@) + skill_checkbox_model(*p),
    {
        self.add_skill_checkboxes_front(out, p);
        self.add_skill_checkboxes_back(out, p);
        proof {
            assert(bool_pairs_view(out@) =~= bool_pairs_view(old(out)@) + skill_checkbox_model(
                *p,
            ));
        }
    }

    /// The level-banded proficiency bonus, as a signed number.
    pub fn calculate_proficiency_bonus(&self, level: u8) -> (b: i8)
        ensures
            b as int == proficiency_bonus_for(level as int),
    {
        get_proficiency_bonus(level) as i8
    }

    /// The floor ability modifier of a raw score.
    pub fn calculate_modifier(&self, ability_score: u8) -> (m: i8)
        ensures
            m as int == ability_modifier(ability_score as int),
    {
        modifier_of_score(ability_score)
    }

    /// The signed rendering of a score's modifier, or "ERROR" for a score
    /// outside 1..=20.
    pub fn calculate_modifier_safe(&self, ability_score: u8, _ability_name: &str) -> (r: String)
        ensures
            r@ == safe_modifier_text(ability_score as int),
    {
        if 1 <= ability_score && ability_score <= 20 {
            let m = modifier_of_score(ability_score);
            format_bonus(m as i32)
        } else {
            proof {
                reveal_strlit("ERROR");
            }
            String::from_str("ERROR")
        }
    }

    /// The signed rendering of a saving-throw bonus, or "ERROR" for a
    /// score outside 1..=20.
    pub fn calculate_saving_throw_safe(
        &self,
        ability_score: u8,
        level: u8,
        is_proficient: bool,
        _ability_name: &str,
    ) -> (r: String)
        ensures
            r@ == safe_bonus_text(ability_score as int, level as int, is_proficient),
    {
        if 1 <= ability_score && ability_score <= 20 {
            let b = calculate_saving_throw_bonus(ability_score, level, is_proficient);
            format_bonus(b as i32)
        } else {
            proof {
                reveal_strlit("ERROR");
            }
            String::from_str("ERROR")
        }
    }

    /// The signed rendering of a skill bonus, or "ERROR" for a score
    /// outside 1..=20.
    pub fn calculate_skill_safe(
        &self,
        ability_score: u8,
        level: u8,
        is_proficient: bool,
        _ability_name: &str,
    ) -> (r: String)
        ensures
            r@ == safe_bonus_text(ability_score as int, level as int, is_proficient),
    {
        self.calculate_saving_throw_safe(ability_score, level, is_proficient, _ability_name)
    }

    /// The derived values reported alongside a fill, under logical keys.
    pub fn calculate_derived_values(&self, character_data: &CharacterData) -> (r: Vec<
        (String, String),
    >)
        ensures
            pairs_view(r@) == derived_values_model(*character_data),
    {
        proof {
            reveal_strlit("strength_modifier");
            reveal_strlit("dexterity_modifier");
            reveal_strlit("constitution_modifier");
            reveal_strlit("intelligence_modifier");
            reveal_strlit("wisdom_modifier");
            reveal_strlit("charisma_modifier");
            reveal_strlit("proficiency_bonus");
            reveal_strlit("spell_attack_bonus");
            reveal_strlit("spell_save_dc");
        }
        let a = &character_data.abilities;
        let mut calculated: Vec<(String, String)> = Vec::new();
        calculated.push(
            (String::from_str("strength_modifier"), i32_to_string(
                modifier_of_score(a.strength) as i32,
            )),
        );
        calculated.push(
            (String::from_str("dexterity_modifier"), i32_to_string(
                modifier_of_score(a.dexterity) as i32,
            )),
        );
        calculated.push(
            (String::from_str("constitution_modifier"), i32_to_string(
                modifier_of_score(a.constitution) as i32,
            )),
        );
        calculated.push(
            (String::from_str("intelligence_modifier"), i32_to_string(
                modifier_of_score(a.intelligence) as i32,
            )),
        );
        calculated.push(
            (String::from_str("wisdom_modifier"), i32_to_string(
                modifier_of_score(a.wisdom) as i32,
            )),
        );
        calculated.push(
            (String::from_str("charisma_modifier"), i32_to_string(
                modifier_of_score(a.charisma) as i32,
            )),
        );
        let prof = DndValidator::proficiency_bonus(character_data.character.level);
        calculated.push((String::from_str("proficiency_bonus"), u32_to_string(prof as u32)));
        if let Option::Some(sp) = &character_data.spells {
            if let Option::Some(ab) = &sp.spellcasting_ability {
                let m = SpellSystem::get_spellcasting_ability_modifier(ab.as_str(), a);
                let attack: i32 = (m as i32) + (prof as i32);
                let dc: i32 = 8 + (m as i32) + (prof as i32);
                calculated.push((String::from_str("spell_attack_bonus"), i32_to_string(attack)));
                calculated.push((String::from_str("spell_save_dc"), i32_to_string(dc)));
            }
        }
        proof {
            assert(pairs_view(calculated@) =~= derived_values_model(*character_data));
        }
        calculated
    }

    /// The font size chosen for an output field by its identifier.
    pub fn get_font_size_for_field(&self, field_name: &str) -> (r: u8)
        ensures
            r as int == font_size_for(field_name@),
    {
        if str_contains(field_name, "CharacterName") || str_contains(field_name, "PlayerName") {
            12
        } else if str_starts_with(field_name, "Spells") {
            8
        } else if str_contains(field_name, "Traits") || str_contains(field_name, "Features")
            || str_contains(field_name, "Ideals") || str_contains(field_name, "Bonds")
            || str_contains(field_name, "Flaws") {
            9
        } else {
            10
        }
    }

    /// The whole record as a plain-text report, section by section.
    pub fn generate_character_sheet_text(&self, character_data: &CharacterData) -> (content:
        String)
        ensures
            content@ == sheet_text_model(*character_data),
    {
        let mut content = String::new();
        append_header(&mut content, &character_data.character);
        append_abilities(&mut content, &character_data.abilities);
        append_combat(&mut content, &character_data.combat);
        append_spells_section(&mut content, &character_data.spells);
        append_narrative_section(&mut content, &character_data.narrative);
        append_equipment_section(&mut content, &character_data.equipment);
        append_calculated(&mut content, character_data);
        proof {
            assert(Seq::<char>::empty() + sheet_header_text(character_data.character)
                =~= sheet_header_text(character_data.character));
            assert(content@ == sheet_text_model(*character_data));
        }
        content
    }

    /// The appearance string of an output field: Helvetica at the chosen
    /// size, black.
    pub fn create_default_appearance(&self, field_name: &str) -> (r: String)
        ensures
            r@ == default_appearance(field_name@),
    {
        proof {
            reveal_strlit("/Helv ");
            reveal_strlit(" Tf 0 g");
        }
        let size = self.get_font_size_for_field(field_name);
        let mut s = String::from_str("/Helv ");
        let num = u32_to_string(size as u32);
        s.append(num.as_str());
        s.append(" Tf 0 g");
        proof {
            assert(s@ =~= default_appearance(field_name@));
        }
        s
    }
}


/// Appends one labelled line for an optional text value.
fn append_opt_line(text: &mut String, label: &'static str, v: &Option<String>)
    ensures
        final(text)@ == old(text)@ + opt_line(label@, *v),
{
    if let Option::Some(s) = v {
        text.append(label);
        text.append(s.as_str());
        text.append("\n");
    }
    proof {
        assert(text@ =~= old(text)@ + opt_line(label@, *v));
    }
}

/// Appends one labelled text line.
fn append_text_line(text: &mut String, label: &'static str, v: &str)
    ensures
        final(text)@ == old(text)@ + text_line(label@, v@),
{
    text.append(label);
    text.append(v);
    text.append("\n");
    proof {
        assert(text@ =~= old(text)@ + text_line(label@, v@));
    }
}

/// Appends one labelled number line, closed by `suffix`.
fn append_num_line(text: &mut String, label: &'static str, n: u32, suffix: &'static str)
    ensures
        final(text)@ == old(text)@ + num_line(label@, n as int, suffix@),
{
    text.append(label);
    let num = u32_to_string(n);
    text.append(num.as_str());
    text.append(suffix);
    proof {
        assert(text@ =~= old(text)@ + num_line(label@, n as int, suffix@));
    }
}

/// Appends the number line of an optional u8.
fn append_opt_u8_line(text: &mut String, label: &'static str, v: Option<u8>, suffix: &'static str)
    ensures
        final(text)@ == old(text)@ + (match v {
            Option::Some(n) => num_line(label@, n as int, suffix@),
            Option::None => Seq::empty(),
        }),
{
    if let Option::Some(n) = v {
        append_num_line(text, label, n as u32, suffix);
    }
    proof {
        assert(text@ =~= old(text)@ + (match v {
            Option::Some(n) => num_line(label@, n as int, suffix@),
            Option::None => Seq::empty(),
        }));
    }
}

/// Appends the number line of an optional u16.
fn append_opt_u16_line(
    text: &mut String,
    label: &'static str,
    v: Option<u16>,
    suffix: &'static str,
)
    ensures
        final(text)@ == old(text)@ + (match v {
            Option::Some(n) => num_line(label@, n as int, suffix@),
            Option::None => Seq::empty(),
        }),
{
    if let Option::Some(n) = v {
        append_num_line(text, label, n as u32, suffix);
    }
    proof {
        assert(text@ =~= old(text)@ + (match v {
            Option::Some(n) => num_line(label@, n as int, suffix@),
            Option::None => Seq::empty(),
        }));
    }
}

/// Appends the number line of an optional u32.
fn append_opt_u32_line(
    text: &mut String,
    label: &'static str,
    v: Option<u32>,
    suffix: &'static str,
)
    ensures
        final(text)@ == old(text)@ + (match v {
            Option::Some(n) => num_line(label@, n as int, suffix@),
            Option::None => Seq::empty(),
        }),
{
    if let Option::Some(n) = v {
        append_num_line(text, label, n, suffix);
    }
    proof {
        assert(text@ =~= old(text)@ + (match v {
            Option::Some(n) => num_line(label@, n as int, suffix@),
            Option::None => Seq::empty(),
        }));
    }
}

/// Appends the class-and-level line.
fn append_class_level(text: &mut String, c: &Character)
    ensures
        final(text)@ == old(text)@ + class_level_line(*c),
{
    text.append("Class & Level: ");
    text.append(c.class.as_str());
    text.append(" ");
    let num = u32_to_string(c.level as u32);
    text.append(num.as_str());
    text.append("\n");
    proof {
        assert(text@ =~= old(text)@ + class_level_line(*c));
    }
}

/// Appends the report's identity header.
fn append_header(text: &mut String, c: &Character)
    ensures
        final(text)@ == old(text)@ + sheet_header_text(*c),
{
    text.append("=== D&D 5e CHARACTER SHEET ===\n\n");
    append_text_line(text, "Character Name: ", c.name.as_str());
    append_class_level(text, c);
    append_text_line(text, "Race: ", c.race.as_str());
    append_opt_line(text, "Background: ", &c.background);
    append_opt_line(text, "Alignment: ", &c.alignment);
    append_opt_u32_line(text, "Experience Points: ", c.experience_points, "\n");
    proof {
        let pv = old(text)@;
        let t1 = "=== D&D 5e CHARACTER SHEET ===\n\n"@;
        let t2 = text_line("Character Name: "@, c.name@);
        let t3 = class_level_line(*c);
        let t4 = text_line("Race: "@, c.race@);
        let t5 = opt_line("Background: "@, c.background);
        let t6 = opt_line("Alignment: "@, c.alignment);
        let t7 = (match c.experience_points {
            Option::Some(xp) => num_line("Experience Points: "@, xp as int, "\n"@),
            Option::None => Seq::empty(),
        });
        vstd::seq_lib::lemma_concat_associative(pv, t1, t2);
        vstd::seq_lib::lemma_concat_associative(pv, t1 + t2, t3);
        vstd::seq_lib::lemma_concat_associative(pv, t1 + t2 + t3, t4);
        vstd::seq_lib::lemma_concat_associative(pv, t1 + t2 + t3 + t4, t5);
        vstd::seq_lib::lemma_concat_associative(pv, t1 + t2 + t3 + t4 + t5, t6);
        vstd::seq_lib::lemma_concat_associative(pv, t1 + t2 + t3 + t4 + t5 + t6, t7);
        assert(text@ == old(text)@ + sheet_header_text(*c));
    }
}

/// Appends one ability's score-and-modifier line.
fn append_ability_line(text: &mut String, label: &'static str, score: u8)
    ensures
        final(text)@ == old(text)@ + ability_line(label@, score),
{
    text.append(label);
    let num = u32_to_string(score as u32);
    text.append(num.as_str());
    text.append(" (");
    let m = modifier_of_score(score);
    let m_str = i32_to_string(m as i32);
    text.append(m_str.as_str());
    text.append(")\n");
    proof {
        assert(text@ =~= old(text)@ + ability_line(label@, score));
    }
}

/// Appends the report's ability-score block.
fn append_abilities(text: &mut String, a: &AbilityScores)
    ensures
        final(text)@ == old(text)@ + sheet_abilities_text(*a),
{
    text.append("\n=== ABILITY SCORES ===\n");
    append_ability_line(text, "Strength: ", a.strength);
    append_ability_line(text, "Dexterity: ", a.dexterity);
    append_ability_line(text, "Constitution: ", a.constitution);
    append_ability_line(text, "Intelligence: ", a.intelligence);
    append_ability_line(text, "Wisdom: ", a.wisdom);
    append_ability_line(text, "Charisma: ", a.charisma);
    proof {
        let pv = old(text)@;
        let t1 = "\n=== ABILITY SCORES ===\n"@;
        let t2 = ability_line("Strength: "@, a.strength);
        let t3 = ability_line("Dexterity: "@, a.dexterity);
        let t4 = ability_line("Constitution: "@, a.constitution);
        let t5 = ability_line("Intelligence: "@, a.intelligence);
        let t6 = ability_line("Wisdom: "@, a.wisdom);
        let t7 = ability_line("Charisma: "@, a.charisma);
        vstd::seq_lib::lemma_concat_associative(pv, t1, t2);
        vstd::seq_lib::lemma_concat_associative(pv, t1 + t2, t3);
        vstd::seq_lib::lemma_concat_associative(pv, t1 + t2 + t3, t4);
        vstd::seq_lib::lemma_concat_associative(pv, t1 + t2 + t3 + t4, t5);
        vstd::seq_lib::lemma_concat_associative(pv, t1 + t2 + t3 + t4 + t5, t6);
        vstd::seq_lib::lemma_concat_associative(pv, t1 + t2 + t3 + t4 + t5 + t6, t7);
        assert(text@ == old(text)@ + sheet_abilities_text(*a));
    }
}

/// Appends the report's combat block, when combat data is present.
fn append_combat(text: &mut String, combat: &Option<Combat>)
    ensures
        final(text)@ == old(text)@ + sheet_combat_text(*combat),
{
    if let Option::Some(cb) = combat {
        text.append("\n=== COMBAT STATS ===\n");
        append_opt_u8_line(text, "Armor Class: ", cb.armor_class, "\n");
        append_opt_u16_line(text, "Hit Points: ", cb.hit_point_maximum, "\n");
        append_opt_u8_line(text, "Speed: ", cb.speed, " ft\n");
        proof {
            let pv = old(text)@;
            let t1 = "\n=== COMBAT STATS ===\n"@;
            let t2 = (match cb.armor_class {
                Option::Some(v) => num_line("Armor Class: "@, v as int, "\n"@),
                Option::None => Seq::empty(),
            });
            let t3 = (match cb.hit_point_maximum {
                Option::Some(v) => num_line("Hit Points: "@, v as int, "\n"@),
                Option::None => Seq::empty(),
            });
            let t4 = (match cb.speed {
                Option::Some(v) => num_line("Speed: "@, v as int, " ft\n"@),
                Option::None => Seq::empty(),
            });
            vstd::seq_lib::lemma_concat_associative(pv, t1, t2);
            vstd::seq_lib::lemma_concat_associative(pv, t1 + t2, t3);
            vstd::seq_lib::lemma_concat_associative(pv, t1 + t2 + t3, t4);
        }
    } else {
        proof {
            assert(old(text)@ + Seq::<char>::empty() =~= old(text)@);
        }
    }
    proof {
        assert(text@ == old(text)@ + sheet_combat_text(*combat));
    }
}

/// Appends one spell's report line.
fn append_spell_line(text: &mut String, s: &Spell)
    ensures
        final(text)@ == old(text)@ + spell_line(*s),
{
    text.append("  - ");
    text.append(s.name.as_str());
    if s.prepared {
        text.append(" (Prepared)");
    }
    text.append("\n");
    proof {
        assert(text@ =~= old(text)@ + spell_line(*s));
    }
}

/// Appends the report lines of one bucket's spells, in order.
fn append_spell_lines(text: &mut String, list: &Vec<Spell>)
    ensures
        final(text)@ == old(text)@ + spell_lines(list@),
{
    let mut i: usize = 0;
    while i < list.len()
        invariant
            0 <= i <= list@.len(),
            text@ == old(text)@ + spell_lines(list@.take(i as int)),
        decreases list@.len() - i,
    {
        proof {
            assert(list@.take(i + 1).drop_last() =~= list@.take(i as int));
            assert(list@.take(i + 1).last() == list@[i as int]);
        }
        append_spell_line(text, &list[i]);
        proof {
            assert(text@ =~= old(text)@ + spell_lines(list@.take(i + 1)));
        }
        i = i + 1;
    }
    proof {
        assert(list@.take(list@.len() as int) =~= list@);
    }
}

/// Appends one bucket's report block, skipping empty buckets.
fn append_bucket(text: &mut String, level: u8, list: &Vec<Spell>)
    ensures
        final(text)@ == old(text)@ + sheet_bucket_text(level as int, list@),
{
    if list.len() > 0 {
        text.append("\n");
        if level == 0 {
            text.append("Cantrips");
        } else {
            text.append("Level ");
            let num = u32_to_string(level as u32);
            text.append(num.as_str());
            text.append(" Spells");
        }
        text.append(":\n");
        append_spell_lines(text, list);
        proof {
            assert(text@ =~= old(text)@ + sheet_bucket_text(level as int, list@));
        }
    } else {
        proof {
            assert(text@ =~= old(text)@ + sheet_bucket_text(level as int, list@));
        }
    }
}

/// Appends the report's spell block, when a spell aggregate is present.
fn append_spells_section(text: &mut String, spells: &Option<Spells>)
    ensures
        final(text)@ == old(text)@ + sheet_spells_text(*spells),
{
    if let Option::Some(sp) = spells {
        text.append("\n=== SPELLS ===\n");
        append_opt_line(text, "Spellcasting Class: ", &sp.spellcasting_class);
        append_opt_line(text, "Spellcasting Ability: ", &sp.spellcasting_ability);
        append_bucket(text, 0, &sp.cantrips);
        append_bucket(text, 1, &sp.first_level);
        append_bucket(text, 2, &sp.second_level);
        append_bucket(text, 3, &sp.third_level);
        append_bucket(text, 4, &sp.fourth_level);
        append_bucket(text, 5, &sp.fifth_level);
        append_bucket(text, 6, &sp.sixth_level);
        append_bucket(text, 7, &sp.seventh_level);
        append_bucket(text, 8, &sp.eighth_level);
        append_bucket(text, 9, &sp.ninth_level);
        proof {
            let pv = old(text)@;
            let t1 = "\n=== SPELLS ===\n"@;
            let t2 = opt_line("Spellcasting Class: "@, sp.spellcasting_class);
            let t3 = opt_line("Spellcasting Ability: "@, sp.spellcasting_ability);
            let t4 = sheet_bucket_text(0, sp.cantrips@);
            let t5 = sheet_bucket_text(1, sp.first_level@);
            let t6 = sheet_bucket_text(2, sp.second_level@);
            let t7 = sheet_bucket_text(3, sp.third_level@);
            let t8 = sheet_bucket_text(4, sp.fourth_level@);
            let t9 = sheet_bucket_text(5, sp.fifth_level@);
            let t10 = sheet_bucket_text(6, sp.sixth_level@);
            let t11 = sheet_bucket_text(7, sp.seventh_level@);
            let t12 = sheet_bucket_text(8, sp.eighth_level@);
            let t13 = sheet_bucket_text(9, sp.ninth_level@);
            vstd::seq_lib::lemma_concat_associative(pv, t1, t2);
            vstd::seq_lib::lemma_concat_associative(pv, t1 + t2, t3);
            vstd::seq_lib::lemma_concat_associative(pv, t1 + t2 + t3, t4);
            vstd::seq_lib::lemma_concat_associative(pv, t1 + t2 + t3 + t4, t5);
            vstd::seq_lib::lemma_concat_associative(pv, t1 + t2 + t3 + t4 + t5, t6);
            vstd::seq_lib::lemma_concat_associative(pv, t1 + t2 + t3 + t4 + t5 + t6, t7);
            vstd::seq_lib::lemma_concat_associative(pv, t1 + t2 + t3 + t4 + t5 + t6 + t7, t8);
            vstd::seq_lib::lemma_concat_associative(pv, t1 + t2 + t3 + t4 + t5 + t6 + t7 + t8, t9);
            vstd::seq_lib::lemma_concat_associative(pv, t1 + t2 + t3 + t4 + t5 + t6 + t7 + t8 + t9, t10);
            vstd::seq_lib::lemma_concat_associative(pv, t1 + t2 + t3 + t4 + t5 + t6 + t7 + t8 + t9 + t10, t11);
            vstd::seq_lib::lemma_concat_associative(pv, t1 + t2 + t3 + t4 + t5 + t6 + t7 + t8 + t9 + t10 + t11, t12);
            vstd::seq_lib::lemma_concat_associative(pv, t1 + t2 + t3 + t4 + t5 + t6 + t7 + t8 + t9 + t10 + t11 + t12, t13);
        }
    } else {
        proof {
            assert(old(text)@ + Seq::<char>::empty() =~= old(text)@);
        }
    }
    proof {
        assert(text@ == old(text)@ + sheet_spells_text(*spells));
    }
}

/// Appends the report's narrative block, when narrative data is present.
fn append_narrative_section(
    text: &mut String,
    n: &Option<crate::character_model::CharacterNarrative>,
)
    ensures
        final(text)@ == old(text)@ + sheet_narrative_text(*n),
{
    if let Option::Some(nn) = n {
        text.append("\n=== CHARACTER DETAILS ===\n");
        append_opt_line(text, "Personality Traits: ", &nn.personality_traits);
        append_opt_line(text, "Ideals: ", &nn.ideals);
        append_opt_line(text, "Bonds: ", &nn.bonds);
        append_opt_line(text, "Flaws: ", &nn.flaws);
        proof {
            let pv = old(text)@;
            let t1 = "\n=== CHARACTER DETAILS ===\n"@;
            let t2 = opt_line("Personality Traits: "@, nn.personality_traits);
            let t3 = opt_line("Ideals: "@, nn.ideals);
            let t4 = opt_line("Bonds: "@, nn.bonds);
            let t5 = opt_line("Flaws: "@, nn.flaws);
            vstd::seq_lib::lemma_concat_associative(pv, t1, t2);
            vstd::seq_lib::lemma_concat_associative(pv, t1 + t2, t3);
            vstd::seq_lib::lemma_concat_associative(pv, t1 + t2 + t3, t4);
            vstd::seq_lib::lemma_concat_associative(pv, t1 + t2 + t3 + t4, t5);
        }
    } else {
        proof {
            assert(old(text)@ + Seq::<char>::empty() =~= old(text)@);
        }
    }
    proof {
        assert(text@ == old(text)@ + sheet_narrative_text(*n));
    }
}

/// Appends the one-line coin summary of a currency block.
fn append_currency_line(text: &mut String, cur: &Currency)
    ensures
        final(text)@ == old(text)@ + currency_line(*cur),
{
    text.append("Currency: ");
    let cp = u32_to_string(cur.cp);
    text.append(cp.as_str());
    text.append(" cp, ");
    let sp_num = u32_to_string(cur.sp);
    text.append(sp_num.as_str());
    text.append(" sp, ");
    let ep = u32_to_string(cur.ep);
    text.append(ep.as_str());
    text.append(" ep, ");
    let gp = u32_to_string(cur.gp);
    text.append(gp.as_str());
    text.append(" gp, ");
    let pp = u32_to_string(cur.pp);
    text.append(pp.as_str());
    text.append(" pp\n");
    proof {
        assert(text@ =~= old(text)@ + currency_line(*cur));
    }
}

/// Appends the report's equipment block, when equipment data is present.
fn append_equipment_section(text: &mut String, e: &Option<Equipment>)
    ensures
        final(text)@ == old(text)@ + sheet_equipment_text(*e),
{
    if let Option::Some(eq) = e {
        text.append("\n=== EQUIPMENT ===\n");
        if let Option::Some(cur) = &eq.currency {
            append_currency_line(text, cur);
        }
        append_opt_line(text, "Items: ", &eq.items);
        proof {
            let pv = old(text)@;
            let t1 = "\n=== EQUIPMENT ===\n"@;
            let t2 = (match &eq.currency {
                Option::Some(cur) => currency_line(*cur),
                Option::None => Seq::empty(),
            });
            let t3 = opt_line("Items: "@, eq.items);
            vstd::seq_lib::lemma_concat_associative(pv, t1, t2);
            vstd::seq_lib::lemma_concat_associative(pv, t1 + t2, t3);
            assert(text@ == old(text)@ + "\n=== EQUIPMENT ===\n"@ + (match &eq.currency {
                Option::Some(cur) => currency_line(*cur),
                Option::None => Seq::empty(),
            }) + opt_line("Items: "@, eq.items));
        }
    } else {
        proof {
            assert(old(text)@ + Seq::<char>::empty() =~= old(text)@);
        }
    }
    proof {
        assert(text@ == old(text)@ + sheet_equipment_text(*e));
    }
}

/// Appends one derived value's report line.
fn append_calc_line(text: &mut String, label: &'static str, v: String)
    ensures
        final(text)@ == old(text)@ + calc_line(label@, v@),
{
    text.append(label);
    text.append(": ");
    text.append(v.as_str());
    text.append("\n");
    proof {
        assert(text@ =~= old(text)@ + calc_line(label@, v@));
    }
}

/// Appends the spell statistics of the derived-value block, when the
/// record names a spellcasting ability.
fn append_spell_calc_lines(text: &mut String, d: &CharacterData)
    ensures
        final(text)@ == old(text)@ + spell_calc_lines(*d),
{
    if let Option::Some(sp) = &d.spells {
        if let Option::Some(ab) = &sp.spellcasting_ability {
            let m = SpellSystem::get_spellcasting_ability_modifier(ab.as_str(), &d.abilities);
            let prof = get_proficiency_bonus(d.character.level);
            let attack: i32 = (m as i32) + (prof as i32);
            let dc: i32 = 8 + (m as i32) + (prof as i32);
            append_calc_line(text, "SPELL ATTACK BONUS", i32_to_string(attack));
            append_calc_line(text, "SPELL SAVE DC", i32_to_string(dc));
            proof {
                let pv = old(text)@;
                let hm = spellcasting_modifier(ab@, d.abilities);
                let pb = proficiency_bonus_for(d.character.level as int);
                vstd::seq_lib::lemma_concat_associative(
                    pv,
                    calc_line("SPELL ATTACK BONUS"@, int_rep(hm + pb)),
                    calc_line("SPELL SAVE DC"@, int_rep(8 + hm + pb)),
                );
            }
        } else {
            proof {
                assert(old(text)@ + Seq::<char>::empty() =~= old(text)@);
            }
        }
    } else {
        proof {
            assert(old(text)@ + Seq::<char>::empty() =~= old(text)@);
        }
    }
    proof {
        assert(text@ == old(text)@ + spell_calc_lines(*d));
    }
}

/// Appends the report's derived-value block.
fn append_calculated(text: &mut String, d: &CharacterData)
    ensures
        final(text)@ == old(text)@ + sheet_calculated_text(*d),
{
    text.append("\n=== CALCULATED VALUES ===\n");
    let a = &d.abilities;
    append_calc_line(
        text,
        "STRENGTH MODIFIER",
        i32_to_string(modifier_of_score(a.strength) as i32),
    );
    append_calc_line(
        text,
        "DEXTERITY MODIFIER",
        i32_to_string(modifier_of_score(a.dexterity) as i32),
    );
    append_calc_line(
        text,
        "CONSTITUTION MODIFIER",
        i32_to_string(modifier_of_score(a.constitution) as i32),
    );
    append_calc_line(
        text,
        "INTELLIGENCE MODIFIER",
        i32_to_string(modifier_of_score(a.intelligence) as i32),
    );
    append_calc_line(
        text,
        "WISDOM MODIFIER",
        i32_to_string(modifier_of_score(a.wisdom) as i32),
    );
    append_calc_line(
        text,
        "CHARISMA MODIFIER",
        i32_to_string(modifier_of_score(a.charisma) as i32),
    );
    let prof = get_proficiency_bonus(d.character.level);
    append_calc_line(text, "PROFICIENCY BONUS", u32_to_string(prof as u32));
    append_spell_calc_lines(text, d);
    proof {
        let pv = old(text)@;
        let pb = proficiency_bonus_for(d.character.level as int);
        let t1 = "\n=== CALCULATED VALUES ===\n"@;
        let t2 = calc_line("STRENGTH MODIFIER"@, int_rep(ability_modifier(d.abilities.strength as int)));
        let t3 = calc_line("DEXTERITY MODIFIER"@, int_rep(ability_modifier(d.abilities.dexterity as int)));
        let t4 = calc_line("CONSTITUTION MODIFIER"@, int_rep(ability_modifier(d.abilities.constitution as int)));
        let t5 = calc_line("INTELLIGENCE MODIFIER"@, int_rep(ability_modifier(d.abilities.intelligence as int)));
        let t6 = calc_line("WISDOM MODIFIER"@, int_rep(ability_modifier(d.abilities.wisdom as int)));
        let t7 = calc_line("CHARISMA MODIFIER"@, int_rep(ability_modifier(d.abilities.charisma as int)));
        let t8 = calc_line("PROFICIENCY BONUS"@, dec_rep(pb));
        let t9 = spell_calc_lines(*d);
        vstd::seq_lib::lemma_concat_associative(pv, t1, t2);
        vstd::seq_lib::lemma_concat_associative(pv, t1 + t2, t3);
        vstd::seq_lib::lemma_concat_associative(pv, t1 + t2 + t3, t4);
        vstd::seq_lib::lemma_concat_associative(pv, t1 + t2 + t3 + t4, t5);
        vstd::seq_lib::lemma_concat_associative(pv, t1 + t2 + t3 + t4 + t5, t6);
        vstd::seq_lib::lemma_concat_associative(pv, t1 + t2 + t3 + t4 + t5 + t6, t7);
        vstd::seq_lib::lemma_concat_associative(pv, t1 + t2 + t3 + t4 + t5 + t6 + t7, t8);
        vstd::seq_lib::lemma_concat_associative(pv, t1 + t2 + t3 + t4 + t5 + t6 + t7 + t8, t9);
        assert(text@ == old(text)@ + sheet_calculated_text(*d));
    }
}

/// The hit-die name of a class (exact names), with d8 for anything
/// unknown.
pub fn hit_die_type(class: &str) -> (r: &'static str)
    ensures
        r@ == hit_die_name(class@),
{
    if str_eq(class, "Barbarian") {
        "d12"
    } else if str_eq(class, "Fighter") || str_eq(class, "Paladin") || str_eq(class, "Ranger") {
        "d10"
    } else if str_eq(class, "Bard") || str_eq(class, "Cleric") || str_eq(class, "Druid") || str_eq(
        class,
        "Monk",
    ) || str_eq(class, "Rogue") || str_eq(class, "Warlock") {
        "d8"
    } else if str_eq(class, "Sorcerer") || str_eq(class, "Wizard") {
        "d6"
    } else {
        "d8"
    }
}

/// The logical key of one spell-slot count, for slot levels 1..=9.
fn slot_key_str(n: u8) -> (r: &'static str)
    requires
        1 <= n <= 9,
    ensures
        r@ == slot_key(n as int),
{
    if n == 1 {
        "spell_slots_1"
    } else if n == 2 {
        "spell_slots_2"
    } else if n == 3 {
        "spell_slots_3"
    } else if n == 4 {
        "spell_slots_4"
    } else if n == 5 {
        "spell_slots_5"
    } else if n == 6 {
        "spell_slots_6"
    } else if n == 7 {
        "spell_slots_7"
    } else if n == 8 {
        "spell_slots_8"
    } else {
        "spell_slots_9"
    }
}

} // verus!
