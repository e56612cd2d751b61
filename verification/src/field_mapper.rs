//! The static field-mapping table: logical keys to output-field
//! identifiers, and the positional-index naming of repeated spell rows and
//! preparation checkboxes.
//!
//! A logical key outside the table maps to nothing, and the caller skips
//! the value; this tolerates partially-known target layouts.

use vstd::prelude::*;
use crate::text::{dec_rep, str_eq, u32_to_string};

verus! {

/// The mapping from logical keys to output-field identifiers.
#[derive(Debug, Clone, Copy)]
pub struct FieldMapper;

/// The output-field identifier of a logical key, if the table knows it.
#[verifier::opaque]
pub open spec fn pdf_field_name(key: Seq<char>) -> Option<Seq<char>> {
    if key == "character_name"@ {
        Option::Some("CharacterName"@)
    } else if key == "class_level"@ {
        Option::Some("ClassLevel"@)
    } else if key == "background"@ {
        Option::Some("Background"@)
    } else if key == "player_name"@ {
        Option::Some("PlayerName"@)
    } else if key == "race"@ {
        Option::Some("Race"@)
    } else if key == "alignment"@ {
        Option::Some("Alignment"@)
    } else if key == "experience_points"@ {
        Option::Some("ExperiencePoints"@)
    } else if key == "strength"@ {
        Option::Some("STR"@)
    } else if key == "strength_modifier"@ {
        Option::Some("STRmod"@)
    } else if key == "dexterity"@ {
        Option::Some("DEX"@)
    } else if key == "dexterity_modifier"@ {
        Option::Some("DEXmod"@)
    } else if key == "constitution"@ {
        Option::Some("CON"@)
    } else if key == "constitution_modifier"@ {
        Option::Some("CONmod"@)
    } else if key == "intelligence"@ {
        Option::Some("INT"@)
    } else if key == "intelligence_modifier"@ {
        Option::Some("INTmod"@)
    } else if key == "wisdom"@ {
        Option::Some("WIS"@)
    } else if key == "wisdom_modifier"@ {
        Option::Some("WISmod"@)
    } else if key == "charisma"@ {
        Option::Some("CHA"@)
    } else if key == "charisma_modifier"@ {
        Option::Some("CHAmod"@)
    } else if key == "armor_class"@ {
        Option::Some("AC"@)
    } else if key == "initiative"@ {
        Option::Some("Initiative"@)
    } else if key == "speed"@ {
        Option::Some("Speed"@)
    } else if key == "hit_point_maximum"@ {
        Option::Some("HPMax"@)
    } else if key == "current_hit_points"@ {
        Option::Some("HPCurrent"@)
    } else if key == "temporary_hit_points"@ {
        Option::Some("HPTemp"@)
    } else if key == "acrobatics"@ {
        Option::Some("Acrobatics"@)
    } else if key == "animal_handling"@ {
        Option::Some("Animal"@)
    } else if key == "arcana"@ {
        Option::Some("Arcana"@)
    } else if key == "athletics"@ {
        Option::Some("Athletics"@)
    } else if key == "deception"@ {
        Option::Some("Deception"@)
    } else if key == "history"@ {
        Option::Some("History"@)
    } else if key == "insight"@ {
        Option::Some("Insight"@)
    } else if key == "intimidation"@ {
        Option::Some("Intimidation"@)
    } else if key == "investigation"@ {
        Option::Some("Investigation"@)
    } else if key == "medicine"@ {
        Option::Some("Medicine"@)
    } else if key == "nature"@ {
        Option::Some("Nature"@)
    } else if key == "perception"@ {
        Option::Some("Perception"@)
    } else if key == "performance"@ {
        Option::Some("Performance"@)
    } else if key == "persuasion"@ {
        Option::Some("Persuasion"@)
    } else if key == "religion"@ {
        Option::Some("Religion"@)
    } else if key == "sleight_of_hand"@ {
        Option::Some("SleightofHand"@)
    } else if key == "stealth"@ {
        Option::Some("Stealth"@)
    } else if key == "survival"@ {
        Option::Some("Survival"@)
    } else if key == "personality_traits"@ {
        Option::Some("Personality"@)
    } else if key == "ideals"@ {
        Option::Some("Ideals"@)
    } else if key == "bonds"@ {
        Option::Some("Bonds"@)
    } else if key == "flaws"@ {
        Option::Some("Flaws"@)
    } else if key == "copper_pieces"@ {
        Option::Some("CP"@)
    } else if key == "silver_pieces"@ {
        Option::Some("SP"@)
    } else if key == "electrum_pieces"@ {
        Option::Some("EP"@)
    } else if key == "gold_pieces"@ {
        Option::Some("GP"@)
    } else if key == "platinum_pieces"@ {
        Option::Some("PP"@)
    } else if key == "proficiency_bonus"@ {
        Option::Some("ProfBonus"@)
    } else if key == "spell_attack_bonus"@ {
        Option::Some("SpellAtkBonus 2"@)
    } else if key == "spell_save_dc"@ {
        Option::Some("SpellSaveDC  2"@)
    } else if key == "spellcasting_class"@ {
        Option::Some("Spellcasting Class 2"@)
    } else if key == "spellcasting_ability"@ {
        Option::Some("SpellcastingAbility 2"@)
    } else if key == "spell_slots_1"@ {
        Option::Some("SlotsTotal 19"@)
    } else if key == "spell_slots_2"@ {
        Option::Some("SlotsTotal 20"@)
    } else if key == "spell_slots_3"@ {
        Option::Some("SlotsTotal 21"@)
    } else if key == "spell_slots_4"@ {
        Option::Some("SlotsTotal 22"@)
    } else if key == "spell_slots_5"@ {
        Option::Some("SlotsTotal 23"@)
    } else if key == "spell_slots_6"@ {
        Option::Some("SlotsTotal 24"@)
    } else if key == "spell_slots_7"@ {
        Option::Some("SlotsTotal 25"@)
    } else if key == "spell_slots_8"@ {
        Option::Some("SlotsTotal 26"@)
    } else if key == "spell_slots_9"@ {
        Option::Some("SlotsTotal 27"@)
    } else if key == "strength_save"@ {
        Option::Some("ST Strength"@)
    } else if key == "dexterity_save"@ {
        Option::Some("ST Dexterity"@)
    } else if key == "constitution_save"@ {
        Option::Some("ST Constitution"@)
    } else if key == "intelligence_save"@ {
        Option::Some("ST Intelligence"@)
    } else if key == "wisdom_save"@ {
        Option::Some("ST Wisdom"@)
    } else if key == "charisma_save"@ {
        Option::Some("ST Charisma"@)
    } else if key == "strength_save_prof"@ {
        Option::Some("Check Box 11"@)
    } else if key == "dexterity_save_prof"@ {
        Option::Some("Check Box 18"@)
    } else if key == "constitution_save_prof"@ {
        Option::Some("Check Box 19"@)
    } else if key == "intelligence_save_prof"@ {
        Option::Some("Check Box 20"@)
    } else if key == "wisdom_save_prof"@ {
        Option::Some("Check Box 21"@)
    } else if key == "charisma_save_prof"@ {
        Option::Some("Check Box 22"@)
    } else if key == "acrobatics_prof"@ {
        Option::Some("Check Box 23"@)
    } else if key == "animal_handling_prof"@ {
        Option::Some("Check Box 24"@)
    } else if key == "arcana_prof"@ {
        Option::Some("Check Box 25"@)
    } else if key == "athletics_prof"@ {
        Option::Some("Check Box 26"@)
    } else if key == "deception_prof"@ {
        Option::Some("Check Box 27"@)
    } else if key == "history_prof"@ {
        Option::Some("Check Box 28"@)
    } else if key == "insight_prof"@ {
        Option::Some("Check Box 29"@)
    } else if key == "intimidation_prof"@ {
        Option::Some("Check Box 30"@)
    } else if key == "investigation_prof"@ {
        Option::Some("Check Box 31"@)
    } else if key == "medicine_prof"@ {
        Option::Some("Check Box 32"@)
    } else if key == "nature_prof"@ {
        Option::Some("Check Box 33"@)
    } else if key == "perception_prof"@ {
        Option::Some("Check Box 34"@)
    } else if key == "performance_prof"@ {
        Option::Some("Check Box 35"@)
    } else if key == "persuasion_prof"@ {
        Option::Some("Check Box 36"@)
    } else if key == "religion_prof"@ {
        Option::Some("Check Box 37"@)
    } else if key == "sleight_of_hand_prof"@ {
        Option::Some("Check Box 38"@)
    } else if key == "stealth_prof"@ {
        Option::Some("Check Box 39"@)
    } else if key == "survival_prof"@ {
        Option::Some("Check Box 40"@)
    } else {
        Option::None
    }
}

/// The fixed sequence of field numbers for one spell level's rows.
pub open spec fn spell_row_nums(level: int) -> Seq<u32> {
    if level == 0 {
        seq![1014, 1016, 1017, 1018, 1019, 1020, 1021, 1022]
    } else if level == 1 {
        seq![1015, 1023, 1024, 1025, 1026, 1027, 1028, 1029, 1030, 1031, 1032, 1033]
    } else if level == 2 {
        seq![1046, 1034, 1035, 1036, 1037, 1038, 1039, 1040, 1041, 1042, 1043, 1044, 1045]
    } else if level == 3 {
        seq![1048, 1047, 1049, 1050, 1051, 1052, 1053, 1054, 1055, 1056, 1057, 1059]
    } else if level == 4 {
        seq![1061, 1060, 1062, 1063, 1064, 1065, 1066, 1067, 1068, 1069, 1070, 1071, 1072]
    } else if level == 5 {
        seq![1074, 1073, 1075, 1076, 1077, 1078, 1079, 1080, 1081]
    } else if level == 6 {
        seq![1083, 1082, 1084, 1085, 1086, 1087, 1088, 1089, 1090]
    } else if level == 7 {
        seq![1092, 1091, 1093, 1094, 1095, 1096, 1097, 1098, 1099]
    } else if level == 8 {
        seq![10101, 10100, 10102, 10103, 10104, 10105, 10106]
    } else if level == 9 {
        seq![10108, 10107, 10109, 101010, 101011, 101012, 101013]
    } else {
        Seq::empty()
    }
}

/// The arithmetic fallback base for a spell level's rows.
pub open spec fn spell_row_base(level: int) -> u32 {
    if level == 0 {
        1014
    } else if level == 1 {
        1015
    } else if level == 2 {
        1034
    } else if level == 3 {
        1047
    } else if level == 4 {
        1060
    } else if level == 5 {
        1073
    } else if level == 6 {
        1082
    } else if level == 7 {
        1091
    } else if level == 8 {
        10100
    } else if level == 9 {
        10107
    } else {
        0
    }
}

/// The identifier of the row that shows the spell at `index` within the
/// given level: from the fixed sequence while it lasts, then the
/// arithmetic fallback.
#[verifier::opaque]
pub open spec fn spell_field_name_spec(level: int, index: int) -> Seq<char> {
    if 0 <= level <= 9 {
        "Spells "@ + dec_rep(
            if index < spell_row_nums(level).len() {
                spell_row_nums(level)[index] as int
            } else {
                spell_row_base(level) + index
            },
        )
    } else {
        "Unknown Spell Level "@ + dec_rep(level)
    }
}

/// The fixed sequence of checkbox numbers for one spell level.
pub open spec fn prepared_box_nums(level: int) -> Seq<u32> {
    if level == 1 {
        seq![251, 309, 3010, 3011, 3012, 3013, 3014, 3015, 3016, 3017, 3018, 3019]
    } else if level == 2 {
        seq![313, 310, 3020, 3021, 3022, 3023, 3024, 3025, 3026, 3027, 3028, 3029, 3030]
    } else if level == 3 {
        seq![315, 314, 3031, 3032, 3033, 3034, 3035, 3036, 3037, 3038, 3039, 3040, 3041]
    } else if level == 4 {
        seq![317, 316, 3042, 3043, 3044, 3045, 3046, 3047, 3048, 3049, 3050, 3051, 3052]
    } else if level == 5 {
        seq![319, 318, 3053, 3054, 3055, 3056, 3057, 3058, 3059]
    } else if level == 6 {
        seq![321, 320, 3060, 3061, 3062, 3063, 3064, 3065, 3066]
    } else if level == 7 {
        seq![323, 322, 3067, 3068, 3069, 3070, 3071, 3072, 3073]
    } else if level == 8 {
        seq![325, 324, 3074, 3075, 3076, 3077, 3078]
    } else if level == 9 {
        seq![327, 326, 3079, 3080, 3081, 3082, 3083]
    } else {
        Seq::empty()
    }
}

/// The arithmetic fallback base for a spell level's checkboxes.
pub open spec fn prepared_box_base(level: int) -> u32 {
    if level == 1 {
        3010
    } else if level == 2 {
        3020
    } else if level == 3 {
        3031
    } else if level == 4 {
        3042
    } else if level == 5 {
        3053
    } else if level == 6 {
        3060
    } else if level == 7 {
        3067
    } else if level == 8 {
        3074
    } else if level == 9 {
        3079
    } else {
        0
    }
}

/// The identifier of the preparation checkbox for the spell at `index`
/// within the given level.  Cantrips have no preparation checkboxes.
#[verifier::opaque]
pub open spec fn spell_prepared_checkbox_spec(level: int, index: int) -> Seq<char> {
    if level == 0 {
        "No checkbox needed for cantrips"@
    } else if 1 <= level <= 9 {
        "Check Box "@ + dec_rep(
            if index < prepared_box_nums(level).len() {
                prepared_box_nums(level)[index] as int
            } else {
                prepared_box_base(level) + index - 2
            },
        )
    } else {
        "Unknown spell level "@ + dec_rep(level)
    }
}

impl FieldMapper {
    /// A mapper over the fixed table.
    pub fn new() -> (m: Self) {
        FieldMapper
    }

    /// Looks a logical key up in the table.
    pub fn get_pdf_field_name(&self, json_field: &str) -> (r: Option<&'static str>)
        ensures
            match r {
                Option::Some(s) => pdf_field_name(json_field@) == Option::Some(s@),
                Option::None => pdf_field_name(json_field@) is None,
            },
    {
        proof {
            reveal(pdf_field_name);
        }
        if str_eq(json_field, "character_name") {
            Option::Some("CharacterName")
        } else if str_eq(json_field, "class_level") {
            Option::Some("ClassLevel")
        } else if str_eq(json_field, "background") {
            Option::Some("Background")
        } else if str_eq(json_field, "player_name") {
            Option::Some("PlayerName")
        } else if str_eq(json_field, "race") {
            Option::Some("Race")
        } else if str_eq(json_field, "alignment") {
            Option::Some("Alignment")
        } else if str_eq(json_field, "experience_points") {
            Option::Some("ExperiencePoints")
        } else if str_eq(json_field, "strength") {
            Option::Some("STR")
        } else if str_eq(json_field, "strength_modifier") {
            Option::Some("STRmod")
        } else if str_eq(json_field, "dexterity") {
            Option::Some("DEX")
        } else if str_eq(json_field, "dexterity_modifier") {
            Option::Some("DEXmod")
        } else if str_eq(json_field, "constitution") {
            Option::Some("CON")
        } else if str_eq(json_field, "constitution_modifier") {
            Option::Some("CONmod")
        } else if str_eq(json_field, "intelligence") {
            Option::Some("INT")
        } else if str_eq(json_field, "intelligence_modifier") {
            Option::Some("INTmod")
        } else if str_eq(json_field, "wisdom") {
            Option::Some("WIS")
        } else if str_eq(json_field, "wisdom_modifier") {
            Option::Some("WISmod")
        } else if str_eq(json_field, "charisma") {
            Option::Some("CHA")
        } else if str_eq(json_field, "charisma_modifier") {
            Option::Some("CHAmod")
        } else if str_eq(json_field, "armor_class") {
            Option::Some("AC")
        } else if str_eq(json_field, "initiative") {
            Option::Some("Initiative")
        } else if str_eq(json_field, "speed") {
            Option::Some("Speed")
        } else if str_eq(json_field, "hit_point_maximum") {
            Option::Some("HPMax")
        } else if str_eq(json_field, "current_hit_points") {
            Option::Some("HPCurrent")
        } else if str_eq(json_field, "temporary_hit_points") {
            Option::Some("HPTemp")
        } else if str_eq(json_field, "acrobatics") {
            Option::Some("Acrobatics")
        } else if str_eq(json_field, "animal_handling") {
            Option::Some("Animal")
        } else if str_eq(json_field, "arcana") {
            Option::Some("Arcana")
        } else if str_eq(json_field, "athletics") {
            Option::Some("Athletics")
        } else if str_eq(json_field, "deception") {
            Option::Some("Deception")
        } else if str_eq(json_field, "history") {
            Option::Some("History")
        } else if str_eq(json_field, "insight") {
            Option::Some("Insight")
        } else if str_eq(json_field, "intimidation") {
            Option::Some("Intimidation")
        } else if str_eq(json_field, "investigation") {
            Option::Some("Investigation")
        } else if str_eq(json_field, "medicine") {
            Option::Some("Medicine")
        } else if str_eq(json_field, "nature") {
            Option::Some("Nature")
        } else if str_eq(json_field, "perception") {
            Option::Some("Perception")
        } else if str_eq(json_field, "performance") {
            Option::Some("Performance")
        } else if str_eq(json_field, "persuasion") {
            Option::Some("Persuasion")
        } else if str_eq(json_field, "religion") {
            Option::Some("Religion")
        } else if str_eq(json_field, "sleight_of_hand") {
            Option::Some("SleightofHand")
        } else if str_eq(json_field, "stealth") {
            Option::Some("Stealth")
        } else if str_eq(json_field, "survival") {
            Option::Some("Survival")
        } else if str_eq(json_field, "personality_traits") {
            Option::Some("Personality")
        } else if str_eq(json_field, "ideals") {
            Option::Some("Ideals")
        } else if str_eq(json_field, "bonds") {
            Option::Some("Bonds")
        } else if str_eq(json_field, "flaws") {
            Option::Some("Flaws")
        } else if str_eq(json_field, "copper_pieces") {
            Option::Some("CP")
        } else if str_eq(json_field, "silver_pieces") {
            Option::Some("SP")
        } else if str_eq(json_field, "electrum_pieces") {
            Option::Some("EP")
        } else if str_eq(json_field, "gold_pieces") {
            Option::Some("GP")
        } else if str_eq(json_field, "platinum_pieces") {
            Option::Some("PP")
        } else if str_eq(json_field, "proficiency_bonus") {
            Option::Some("ProfBonus")
        } else if str_eq(json_field, "spell_attack_bonus") {
            Option::Some("SpellAtkBonus 2")
        } else if str_eq(json_field, "spell_save_dc") {
            Option::Some("SpellSaveDC  2")
        } else if str_eq(json_field, "spellcasting_class") {
            Option::Some("Spellcasting Class 2")
        } else if str_eq(json_field, "spellcasting_ability") {
            Option::Some("SpellcastingAbility 2")
        } else if str_eq(json_field, "spell_slots_1") {
            Option::Some("SlotsTotal 19")
        } else if str_eq(json_field, "spell_slots_2") {
            Option::Some("SlotsTotal 20")
        } else if str_eq(json_field, "spell_slots_3") {
            Option::Some("SlotsTotal 21")
        } else if str_eq(json_field, "spell_slots_4") {
            Option::Some("SlotsTotal 22")
        } else if str_eq(json_field, "spell_slots_5") {
            Option::Some("SlotsTotal 23")
        } else if str_eq(json_field, "spell_slots_6") {
            Option::Some("SlotsTotal 24")
        } else if str_eq(json_field, "spell_slots_7") {
            Option::Some("SlotsTotal 25")
        } else if str_eq(json_field, "spell_slots_8") {
            Option::Some("SlotsTotal 26")
        } else if str_eq(json_field, "spell_slots_9") {
            Option::Some("SlotsTotal 27")
        } else if str_eq(json_field, "strength_save") {
            Option::Some("ST Strength")
        } else if str_eq(json_field, "dexterity_save") {
            Option::Some("ST Dexterity")
        } else if str_eq(json_field, "constitution_save") {
            Option::Some("ST Constitution")
        } else if str_eq(json_field, "intelligence_save") {
            Option::Some("ST Intelligence")
        } else if str_eq(json_field, "wisdom_save") {
            Option::Some("ST Wisdom")
        } else if str_eq(json_field, "charisma_save") {
            Option::Some("ST Charisma")
        } else if str_eq(json_field, "strength_save_prof") {
            Option::Some("Check Box 11")
        } else if str_eq(json_field, "dexterity_save_prof") {
            Option::Some("Check Box 18")
        } else if str_eq(json_field, "constitution_save_prof") {
            Option::Some("Check Box 19")
        } else if str_eq(json_field, "intelligence_save_prof") {
            Option::Some("Check Box 20")
        } else if str_eq(json_field, "wisdom_save_prof") {
            Option::Some("Check Box 21")
        } else if str_eq(json_field, "charisma_save_prof") {
            Option::Some("Check Box 22")
        } else if str_eq(json_field, "acrobatics_prof") {
            Option::Some("Check Box 23")
        } else if str_eq(json_field, "animal_handling_prof") {
            Option::Some("Check Box 24")
        } else if str_eq(json_field, "arcana_prof") {
            Option::Some("Check Box 25")
        } else if str_eq(json_field, "athletics_prof") {
            Option::Some("Check Box 26")
        } else if str_eq(json_field, "deception_prof") {
            Option::Some("Check Box 27")
        } else if str_eq(json_field, "history_prof") {
            Option::Some("Check Box 28")
        } else if str_eq(json_field, "insight_prof") {
            Option::Some("Check Box 29")
        } else if str_eq(json_field, "intimidation_prof") {
            Option::Some("Check Box 30")
        } else if str_eq(json_field, "investigation_prof") {
            Option::Some("Check Box 31")
        } else if str_eq(json_field, "medicine_prof") {
            Option::Some("Check Box 32")
        } else if str_eq(json_field, "nature_prof") {
            Option::Some("Check Box 33")
        } else if str_eq(json_field, "perception_prof") {
            Option::Some("Check Box 34")
        } else if str_eq(json_field, "performance_prof") {
            Option::Some("Check Box 35")
        } else if str_eq(json_field, "persuasion_prof") {
            Option::Some("Check Box 36")
        } else if str_eq(json_field, "religion_prof") {
            Option::Some("Check Box 37")
        } else if str_eq(json_field, "sleight_of_hand_prof") {
            Option::Some("Check Box 38")
        } else if str_eq(json_field, "stealth_prof") {
            Option::Some("Check Box 39")
        } else if str_eq(json_field, "survival_prof") {
            Option::Some("Check Box 40")
        } else {
            Option::None
        }
    }

    /// The identifier of the spell row at `index` within `level`.
    pub fn get_spell_field_name(&self, level: u8, index: usize) -> (s: String)
        requires
            index <= 100000,
        ensures
            s@ == spell_field_name_spec(level as int, index as int),
    {
        proof {
            reveal(spell_field_name_spec);
        }
        if level <= 9 {
            let num: u32 = spell_row_num(level, index);
            proof {
                reveal_strlit("Spells ");
            }
            let mut s = String::from_str("Spells ");
            let tail = u32_to_string(num);
            s.append(tail.as_str());
            proof {
                assert(s@ =~= spell_field_name_spec(level as int, index as int));
            }
            s
        } else {
            proof {
                reveal_strlit("Unknown Spell Level ");
            }
            let mut s = String::from_str("Unknown Spell Level ");
            let tail = u32_to_string(level as u32);
            s.append(tail.as_str());
            proof {
                assert(s@ =~= spell_field_name_spec(level as int, index as int));
            }
            s
        }
    }

    /// The identifier of the preparation checkbox at `index` within
    /// `level`.
    pub fn get_spell_prepared_checkbox(&self, level: u8, index: usize) -> (s: String)
        requires
            index <= 100000,
        ensures
            s@ == spell_prepared_checkbox_spec(level as int, index as int),
    {
        proof {
            reveal(spell_prepared_checkbox_spec);
        }
        if level == 0 {
            proof {
                reveal_strlit("No checkbox needed for cantrips");
            }
            String::from_str("No checkbox needed for cantrips")
        } else if level <= 9 {
            let num: u32 = prepared_box_num(level, index);
            proof {
                reveal_strlit("Check Box ");
            }
            let mut s = String::from_str("Check Box ");
            let tail = u32_to_string(num);
            s.append(tail.as_str());
            proof {
                assert(s@ =~= spell_prepared_checkbox_spec(level as int, index as int));
            }
            s
        } else {
            proof {
                reveal_strlit("Unknown spell level ");
            }
            let mut s = String::from_str("Unknown spell level ");
            let tail = u32_to_string(level as u32);
            s.append(tail.as_str());
            proof {
                assert(s@ =~= spell_prepared_checkbox_spec(level as int, index as int));
            }
            s
        }
    }
}

/// The field number of the spell row at `index` within `level`.
fn spell_row_num(level: u8, index: usize) -> (n: u32)
    requires
        level <= 9,
        index <= 100000,
    ensures
        n as int == if index < spell_row_nums(level as int).len() {
            spell_row_nums(level as int)[index as int] as int
        } else {
            spell_row_base(level as int) + index
        },
{
    if level == 0 {
        let nums: Vec<u32> = vec![1014, 1016, 1017, 1018, 1019, 1020, 1021, 1022];
        proof {
            assert(nums@ =~= spell_row_nums(0));
        }
        if index < nums.len() {
            nums[index]
        } else {
            1014 + (index as u32)
        }
    } else if level == 1 {
        let nums: Vec<u32> = vec![1015, 1023, 1024, 1025, 1026, 1027, 1028, 1029, 1030, 1031, 1032, 1033];
        proof {
            assert(nums@ =~= spell_row_nums(1));
        }
        if index < nums.len() {
            nums[index]
        } else {
            1015 + (index as u32)
        }
    } else if level == 2 {
        let nums: Vec<u32> = vec![1046, 1034, 1035, 1036, 1037, 1038, 1039, 1040, 1041, 1042, 1043, 1044, 1045];
        proof {
            assert(nums@ =~= spell_row_nums(2));
        }
        if index < nums.len() {
            nums[index]
        } else {
            1034 + (index as u32)
        }
    } else if level == 3 {
        let nums: Vec<u32> = vec![1048, 1047, 1049, 1050, 1051, 1052, 1053, 1054, 1055, 1056, 1057, 1059];
        proof {
            assert(nums@ =~= spell_row_nums(3));
        }
        if index < nums.len() {
            nums[index]
        } else {
            1047 + (index as u32)
        }
    } else if level == 4 {
        let nums: Vec<u32> = vec![1061, 1060, 1062, 1063, 1064, 1065, 1066, 1067, 1068, 1069, 1070, 1071, 1072];
        proof {
            assert(nums@ =~= spell_row_nums(4));
        }
        if index < nums.len() {
            nums[index]
        } else {
            1060 + (index as u32)
        }
    } else if level == 5 {
        let nums: Vec<u32> = vec![1074, 1073, 1075, 1076, 1077, 1078, 1079, 1080, 1081];
        proof {
            assert(nums@ =~= spell_row_nums(5));
        }
        if index < nums.len() {
            nums[index]
        } else {
            1073 + (index as u32)
        }
    } else if level == 6 {
        let nums: Vec<u32> = vec![1083, 1082, 1084, 1085, 1086, 1087, 1088, 1089, 1090];
        proof {
            assert(nums@ =~= spell_row_nums(6));
        }
        if index < nums.len() {
            nums[index]
        } else {
            1082 + (index as u32)
        }
    } else if level == 7 {
        let nums: Vec<u32> = vec![1092, 1091, 1093, 1094, 1095, 1096, 1097, 1098, 1099];
        proof {
            assert(nums@ =~= spell_row_nums(7));
        }
        if index < nums.len() {
            nums[index]
        } else {
            1091 + (index as u32)
        }
    } else if level == 8 {
        let nums: Vec<u32> = vec![10101, 10100, 10102, 10103, 10104, 10105, 10106];
        proof {
            assert(nums@ =~= spell_row_nums(8));
        }
        if index < nums.len() {
            nums[index]
        } else {
            10100 + (index as u32)
        }
    } else if level == 9 {
        let nums: Vec<u32> = vec![10108, 10107, 10109, 101010, 101011, 101012, 101013];
        proof {
            assert(nums@ =~= spell_row_nums(9));
        }
        if index < nums.len() {
            nums[index]
        } else {
            10107 + (index as u32)
        }
    } else {
        0
    }
}

/// The checkbox number of the prepared mark at `index` within `level`.
fn prepared_box_num(level: u8, index: usize) -> (n: u32)
    requires
        1 <= level <= 9,
        index <= 100000,
    ensures
        n as int == if index < prepared_box_nums(level as int).len() {
            prepared_box_nums(level as int)[index as int] as int
        } else {
            prepared_box_base(level as int) + index - 2
        },
{
    if level == 1 {
        let nums: Vec<u32> = vec![251, 309, 3010, 3011, 3012, 3013, 3014, 3015, 3016, 3017, 3018, 3019];
        proof {
            assert(nums@ =~= prepared_box_nums(1));
        }
        if index < nums.len() {
            nums[index]
        } else {
            3010 + (index as u32) - 2
        }
    } else if level == 2 {
        let nums: Vec<u32> = vec![313, 310, 3020, 3021, 3022, 3023, 3024, 3025, 3026, 3027, 3028, 3029, 3030];
        proof {
            assert(nums@ =~= prepared_box_nums(2));
        }
        if index < nums.len() {
            nums[index]
        } else {
            3020 + (index as u32) - 2
        }
    } else if level == 3 {
        let nums: Vec<u32> = vec![315, 314, 3031, 3032, 3033, 3034, 3035, 3036, 3037, 3038, 3039, 3040, 3041];
        proof {
            assert(nums@ =~= prepared_box_nums(3));
        }
        if index < nums.len() {
            nums[index]
        } else {
            3031 + (index as u32) - 2
        }
    } else if level == 4 {
        let nums: Vec<u32> = vec![317, 316, 3042, 3043, 3044, 3045, 3046, 3047, 3048, 3049, 3050, 3051, 3052];
        proof {
            assert(nums@ =~= prepared_box_nums(4));
        }
        if index < nums.len() {
            nums[index]
        } else {
            3042 + (index as u32) - 2
        }
    } else if level == 5 {
        let nums: Vec<u32> = vec![319, 318, 3053, 3054, 3055, 3056, 3057, 3058, 3059];
        proof {
            assert(nums@ =~= prepared_box_nums(5));
        }
        if index < nums.len() {
            nums[index]
        } else {
            3053 + (index as u32) - 2
        }
    } else if level == 6 {
        let nums: Vec<u32> = vec![321, 320, 3060, 3061, 3062, 3063, 3064, 3065, 3066];
        proof {
            assert(nums@ =~= prepared_box_nums(6));
        }
        if index < nums.len() {
            nums[index]
        } else {
            3060 + (index as u32) - 2
        }
    } else if level == 7 {
        let nums: Vec<u32> = vec![323, 322, 3067, 3068, 3069, 3070, 3071, 3072, 3073];
        proof {
            assert(nums@ =~= prepared_box_nums(7));
        }
        if index < nums.len() {
            nums[index]
        } else {
            3067 + (index as u32) - 2
        }
    } else if level == 8 {
        let nums: Vec<u32> = vec![325, 324, 3074, 3075, 3076, 3077, 3078];
        proof {
            assert(nums@ =~= prepared_box_nums(8));
        }
        if index < nums.len() {
            nums[index]
        } else {
            3074 + (index as u32) - 2
        }
    } else if level == 9 {
        let nums: Vec<u32> = vec![327, 326, 3079, 3080, 3081, 3082, 3083];
        proof {
            assert(nums@ =~= prepared_box_nums(9));
        }
        if index < nums.len() {
            nums[index]
        } else {
            3079 + (index as u32) - 2
        }
    } else {
        0
    }
}

} // verus!
