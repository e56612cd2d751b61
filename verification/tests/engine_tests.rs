use dnd_character_sheet_filler::character_model::{
    calculate_saving_throw_bonus, calculate_skill_bonus, get_proficiency_bonus, get_skill_ability,
    AbilityScores, Character, CharacterData, CharacterNarrative, Currency, Equipment,
    FeaturesTraits, Proficiencies, Spell, Spells,
};
use dnd_character_sheet_filler::dnd_validator::DndValidator;
use dnd_character_sheet_filler::errors::ValidationError;
use dnd_character_sheet_filler::narrative_handler::NarrativeHandler;
use dnd_character_sheet_filler::pdf_filler::{hit_die_type, PdfFiller};
use dnd_character_sheet_filler::spell_system::{CasterType, SpellSystem};

fn abilities(st: u8, dx: u8, cn: u8, iq: u8, ws: u8, ch: u8) -> AbilityScores {
    AbilityScores {
        strength: st,
        dexterity: dx,
        constitution: cn,
        intelligence: iq,
        wisdom: ws,
        charisma: ch,
    }
}

fn base_character(class: &str, level: u8, scores: AbilityScores) -> CharacterData {
    CharacterData {
        character: Character {
            name: "Hero".to_string(),
            class: class.to_string(),
            level,
            race: "Human".to_string(),
            background: None,
            player_name: None,
            alignment: None,
            experience_points: None,
        },
        abilities: scores,
        proficiencies: None,
        combat: None,
        spells: None,
        equipment: None,
        narrative: None,
        features_traits: None,
    }
}

fn empty_spells() -> Spells {
    Spells {
        spellcasting_class: None,
        spellcasting_ability: None,
        cantrips: vec![],
        first_level: vec![],
        second_level: vec![],
        third_level: vec![],
        fourth_level: vec![],
        fifth_level: vec![],
        sixth_level: vec![],
        seventh_level: vec![],
        eighth_level: vec![],
        ninth_level: vec![],
    }
}

fn field<'a>(fields: &'a [(String, String)], key: &str) -> Option<&'a str> {
    fields.iter().rev().find(|e| e.0 == key).map(|e| e.1.as_str())
}

#[test]
fn ability_modifier_spot_values() {
    let filler = PdfFiller::new(false);
    assert_eq!(filler.calculate_modifier(10), 0);
    assert_eq!(filler.calculate_modifier(16), 3);
    assert_eq!(filler.calculate_modifier(8), -1);
    assert_eq!(filler.calculate_modifier(1), -5);
    assert_eq!(filler.calculate_modifier(20), 5);
    let scores = abilities(1, 8, 10, 16, 20, 11);
    assert_eq!(scores.modifier("strength"), -5);
    assert_eq!(scores.modifier("dexterity"), -1);
    assert_eq!(scores.modifier("constitution"), 0);
    assert_eq!(scores.modifier("intelligence"), 3);
    assert_eq!(scores.modifier("wisdom"), 5);
    assert_eq!(scores.modifier("charisma"), 0);
    assert_eq!(scores.modifier("luck"), 0);
    assert_eq!(scores.get_ability_score("wisdom"), 20);
    assert_eq!(scores.get_ability_score("unknown"), 10);
}

#[test]
fn proficiency_bonus_steps() {
    assert_eq!(get_proficiency_bonus(1), 2);
    assert_eq!(get_proficiency_bonus(4), 2);
    assert_eq!(get_proficiency_bonus(5), 3);
    assert_eq!(get_proficiency_bonus(8), 3);
    assert_eq!(get_proficiency_bonus(9), 4);
    assert_eq!(get_proficiency_bonus(12), 4);
    assert_eq!(get_proficiency_bonus(13), 5);
    assert_eq!(get_proficiency_bonus(16), 5);
    assert_eq!(get_proficiency_bonus(17), 6);
    assert_eq!(get_proficiency_bonus(20), 6);
    // Non-decreasing across the whole range, and the defensive default.
    let mut last = 0u8;
    for level in 1u8..=20 {
        let b = get_proficiency_bonus(level);
        assert!(b >= last);
        last = b;
    }
    assert_eq!(get_proficiency_bonus(0), 2);
    assert_eq!(get_proficiency_bonus(21), 2);
}

#[test]
fn saving_throw_spot_values() {
    assert_eq!(calculate_saving_throw_bonus(14, 5, true), 5);
    assert_eq!(calculate_saving_throw_bonus(16, 5, false), 3);
    assert_eq!(calculate_saving_throw_bonus(8, 1, true), 1);
    assert_eq!(calculate_saving_throw_bonus(6, 1, false), -2);
    assert_eq!(calculate_skill_bonus(14, 5, true), 5);
    assert_eq!(get_skill_ability("athletics"), "strength");
    assert_eq!(get_skill_ability("stealth"), "dexterity");
    assert_eq!(get_skill_ability("perception"), "wisdom");
    assert_eq!(get_skill_ability("persuasion"), "charisma");
    assert_eq!(get_skill_ability("arcana"), "intelligence");
    assert_eq!(get_skill_ability("made_up"), "intelligence");
}

#[test]
fn level_5_wizard_end_to_end() {
    // Proficiency +3 at level 5, Intelligence 16 gives +3:
    // attack +6, save DC 14; full-caster slots 4/3/2.
    let data = base_character("Wizard", 5, abilities(10, 14, 13, 16, 12, 8));
    let fields = PdfFiller::new(false).get_field_values(&data);
    assert_eq!(field(&fields, "SlotsTotal 19"), Some("4"));
    assert_eq!(field(&fields, "SlotsTotal 20"), Some("3"));
    assert_eq!(field(&fields, "SlotsTotal 21"), Some("2"));
    assert_eq!(field(&fields, "SlotsTotal 22"), None);
    assert_eq!(field(&fields, "SpellAtkBonus 2"), Some("+6"));
    assert_eq!(field(&fields, "SpellSaveDC  2"), Some("14"));
    assert_eq!(field(&fields, "ClassLevel"), Some("Wizard 5"));
    assert_eq!(field(&fields, "CharacterName"), Some("Hero"));
    assert_eq!(field(&fields, "INT"), Some("16"));
    assert_eq!(field(&fields, "INTmod"), Some("+3"));
    assert_eq!(field(&fields, "ProfBonus"), Some("+3"));
}

#[test]
fn level_5_paladin_slots() {
    let data = base_character("Paladin", 5, abilities(16, 10, 14, 8, 12, 15));
    let fields = PdfFiller::new(false).get_field_values(&data);
    assert_eq!(field(&fields, "SlotsTotal 19"), Some("4"));
    assert_eq!(field(&fields, "SlotsTotal 20"), Some("2"));
    assert_eq!(field(&fields, "SlotsTotal 21"), None);
}

#[test]
fn level_5_barbarian_empty_slots() {
    let data = base_character("Barbarian", 5, abilities(16, 14, 15, 8, 12, 10));
    assert!(SpellSystem::calculate_spell_slots(&data).is_empty());
    let fields = PdfFiller::new(false).get_field_values(&data);
    for n in 19..=27 {
        assert_eq!(field(&fields, &format!("SlotsTotal {}", n)), None);
    }
}

#[test]
fn spell_slots_computed_twice_are_identical() {
    let data = base_character("Druid", 9, abilities(10, 12, 14, 10, 17, 11));
    let first = SpellSystem::calculate_spell_slots(&data);
    let second = SpellSystem::calculate_spell_slots(&data);
    assert_eq!(first, second);
    assert!(first.iter().all(|e| e.1 > 0));
}

#[test]
fn out_of_range_levels_are_clamped() {
    let low = SpellSystem::get_spell_slots_for_single_class(0, CasterType::Full);
    assert_eq!(low, vec![(1u8, 2u8)]);
    let high = SpellSystem::get_spell_slots_for_single_class(25, CasterType::Full);
    let top = SpellSystem::get_spell_slots_for_single_class(20, CasterType::Full);
    assert_eq!(high, top);
}

#[test]
fn field_mapping_is_deterministic() {
    let mut data = base_character("Bard", 7, abilities(9, 13, 12, 10, 11, 17));
    data.proficiencies = Some(Proficiencies {
        saving_throws: vec!["charisma".to_string()],
        skills: vec!["performance".to_string(), "persuasion".to_string()],
    });
    let filler = PdfFiller::new(false);
    let first = filler.get_field_values(&data);
    let second = filler.get_field_values(&data);
    assert_eq!(first, second);
    let boxes_first = filler.get_checkbox_fields(&data);
    let boxes_second = filler.get_checkbox_fields(&data);
    assert_eq!(boxes_first, boxes_second);
}

#[test]
fn insufficient_experience_strict_and_permissive() {
    let mut data = base_character("Wizard", 5, abilities(10, 10, 10, 16, 12, 8));
    data.character.experience_points = Some(6000);
    let strict = DndValidator::new(false).validate(&data);
    match strict {
        Err(errors) => {
            assert_eq!(errors.len(), 1);
            assert!(matches!(
                errors[0],
                ValidationError::ExperiencePoints { xp: 6000, level: 5, required: 6500 }
            ));
        },
        Ok(_) => panic!("strict validation accepted insufficient experience"),
    }
    let permissive = DndValidator::new(true).validate(&data);
    match permissive {
        Ok(warnings) => {
            assert_eq!(warnings.len(), 1);
            assert!(matches!(warnings[0], ValidationError::ExperiencePoints { .. }));
        },
        Err(_) => panic!("permissive validation refused the record"),
    }
}

#[test]
fn sufficient_experience_passes() {
    let mut data = base_character("Wizard", 5, abilities(10, 10, 10, 16, 12, 8));
    data.character.experience_points = Some(6500);
    let strict = DndValidator::new(false).validate(&data);
    assert!(matches!(strict, Ok(ref w) if w.is_empty()));
}

#[test]
fn misfiled_spell_is_reported_and_dropped() {
    let mut data = base_character("Wizard", 5, abilities(10, 10, 10, 16, 12, 8));
    let mut spells = empty_spells();
    spells.spellcasting_ability = Some("Intelligence".to_string());
    spells.third_level.push(Spell {
        name: "Shatter".to_string(),
        level: 2,
        prepared: false,
    });
    data.spells = Some(spells);

    let strict = DndValidator::new(false).validate(&data);
    match strict {
        Err(errors) => {
            assert_eq!(errors.len(), 1);
            match &errors[0] {
                ValidationError::Spell { spell, level, expected_level } => {
                    assert_eq!(spell, "Shatter");
                    assert_eq!(*level, 2);
                    assert_eq!(*expected_level, 3);
                },
                other => panic!("unexpected violation: {:?}", other),
            }
        },
        Ok(_) => panic!("strict validation accepted a misfiled spell"),
    }

    // The mapping layer drops the misfiled spell, whatever the mode.
    let fields = PdfFiller::new(true).get_field_values(&data);
    assert!(fields.iter().all(|e| e.1 != "Shatter"));
    assert_eq!(field(&fields, "Spells 1048"), None);
}

#[test]
fn well_filed_spells_are_rendered() {
    let mut data = base_character("Wizard", 5, abilities(10, 10, 10, 16, 12, 8));
    let mut spells = empty_spells();
    spells.spellcasting_ability = Some("Intelligence".to_string());
    spells.cantrips.push(Spell {
        name: "Fire Bolt".to_string(),
        level: 0,
        prepared: false,
    });
    spells.first_level.push(Spell {
        name: "Magic Missile".to_string(),
        level: 1,
        prepared: true,
    });
    spells.second_level.push(Spell {
        name: "Shatter".to_string(),
        level: 2,
        prepared: false,
    });
    data.spells = Some(spells);
    let fields = PdfFiller::new(false).get_field_values(&data);
    assert_eq!(field(&fields, "Spells 1014"), Some("Fire Bolt"));
    assert_eq!(field(&fields, "Spells 1015"), Some("Magic Missile"));
    assert_eq!(field(&fields, "Check Box 251"), Some("Yes"));
    assert_eq!(field(&fields, "Spells 1046"), Some("Shatter"));
    // The explicit spellcasting header is used as given.
    assert_eq!(field(&fields, "SpellcastingAbility 2"), Some("Intelligence"));
    assert_eq!(field(&fields, "SpellAtkBonus 2"), Some("+6"));
    assert_eq!(field(&fields, "SpellSaveDC  2"), Some("14"));
}

#[test]
fn validator_collects_every_violation() {
    let mut data = base_character("Wizard", 21, abilities(0, 25, 10, 16, 12, 8));
    data.character.experience_points = Some(5);
    let strict = DndValidator::new(false).validate(&data);
    match strict {
        Err(errors) => {
            // Strength low, dexterity high, level out of range; the XP
            // check does not apply outside levels 1..=20.
            assert_eq!(errors.len(), 3);
            assert!(matches!(errors[0], ValidationError::AbilityScore { value: 0, .. }));
            assert!(matches!(errors[1], ValidationError::AbilityScore { value: 25, .. }));
            assert!(matches!(errors[2], ValidationError::Level { level: 21 }));
        },
        Ok(_) => panic!("strict validation accepted an invalid record"),
    }
}

#[test]
fn saving_throw_and_skill_rendering() {
    let mut data = base_character("Wizard", 5, abilities(8, 10, 10, 16, 12, 10));
    data.proficiencies = Some(Proficiencies {
        saving_throws: vec!["intelligence".to_string()],
        skills: vec!["perception".to_string()],
    });
    let fields = PdfFiller::new(false).get_field_values(&data);
    // Intelligence save: +3 modifier +3 proficiency.
    assert_eq!(field(&fields, "ST Intelligence"), Some("+6"));
    // Strength save: -1 modifier, not proficient.
    assert_eq!(field(&fields, "ST Strength"), Some("-1"));
    // Perception skill: +1 modifier +3 proficiency.
    assert_eq!(field(&fields, "Perception"), Some("+4"));
    // Stealth: +0 and not proficient; zero renders with a sign.
    assert_eq!(field(&fields, "Stealth"), Some("+0"));
}

#[test]
fn out_of_range_score_renders_error_marker() {
    let filler = PdfFiller::new(true);
    assert_eq!(filler.calculate_modifier_safe(25, "strength"), "ERROR");
    assert_eq!(filler.calculate_modifier_safe(10, "strength"), "+0");
    assert_eq!(filler.calculate_saving_throw_safe(0, 5, true, "wisdom"), "ERROR");
    assert_eq!(filler.calculate_skill_safe(14, 5, true, "wisdom"), "+5");
}

#[test]
fn checkbox_fields_mark_proficiencies() {
    let mut data = base_character("Cleric", 3, abilities(10, 10, 10, 10, 15, 12));
    data.proficiencies = Some(Proficiencies {
        saving_throws: vec!["wisdom".to_string(), "charisma".to_string()],
        skills: vec!["insight".to_string()],
    });
    let boxes = PdfFiller::new(false).get_checkbox_fields(&data);
    let get = |key: &str| boxes.iter().find(|e| e.0 == key).map(|e| e.1);
    assert_eq!(get("Check Box 21"), Some(true));
    assert_eq!(get("Check Box 22"), Some(true));
    assert_eq!(get("Check Box 11"), Some(false));
    assert_eq!(get("Check Box 29"), Some(true));
    assert_eq!(get("Check Box 23"), Some(false));
    assert_eq!(boxes.len(), 24);
}

#[test]
fn checkbox_fields_empty_without_proficiencies() {
    let data = base_character("Cleric", 3, abilities(10, 10, 10, 10, 15, 12));
    assert!(PdfFiller::new(false).get_checkbox_fields(&data).is_empty());
}

#[test]
fn narrative_truncation() {
    assert_eq!(NarrativeHandler::truncate_if_needed("hi", 8), "hi");
    assert_eq!(NarrativeHandler::truncate_if_needed("hello world", 8), "hello...");
    let long = "x".repeat(600);
    let cut = NarrativeHandler::truncate_if_needed(&long, 500);
    assert_eq!(cut.chars().count(), 500);
    assert!(cut.ends_with("..."));

    let narrative = CharacterNarrative {
        personality_traits: Some(long.clone()),
        ideals: None,
        bonds: Some("Loyal".to_string()),
        flaws: None,
    };
    let pairs = NarrativeHandler::format_narrative_fields(&narrative);
    assert_eq!(pairs.len(), 2);
    assert_eq!(pairs[0].0, "personality_traits");
    assert_eq!(pairs[1], ("bonds".to_string(), "Loyal".to_string()));

    let mut data = base_character("Monk", 2, abilities(10, 10, 10, 10, 10, 10));
    data.narrative = Some(narrative);
    let fields = PdfFiller::new(false).get_field_values(&data);
    let rendered = field(&fields, "Personality").unwrap();
    assert_eq!(rendered.chars().count(), 500);
    assert!(rendered.ends_with("..."));
    assert_eq!(field(&fields, "Bonds"), Some("Loyal"));
}

#[test]
fn currency_and_identity_fields() {
    let mut data = base_character("Monk", 2, abilities(10, 10, 10, 10, 10, 10));
    data.character.background = Some("Hermit".to_string());
    data.character.alignment = Some("Lawful Good".to_string());
    data.character.experience_points = Some(300);
    data.equipment = Some(Equipment {
        currency: Some(Currency { cp: 1, sp: 2, ep: 0, gp: 30, pp: 4 }),
        items: Some("Staff".to_string()),
    });
    let fields = PdfFiller::new(false).get_field_values(&data);
    assert_eq!(field(&fields, "Background"), Some("Hermit"));
    assert_eq!(field(&fields, "Alignment"), Some("Lawful Good"));
    assert_eq!(field(&fields, "ExperiencePoints"), Some("300"));
    assert_eq!(field(&fields, "CP"), Some("1"));
    assert_eq!(field(&fields, "SP"), Some("2"));
    assert_eq!(field(&fields, "EP"), Some("0"));
    assert_eq!(field(&fields, "GP"), Some("30"));
    assert_eq!(field(&fields, "PP"), Some("4"));
}

#[test]
fn hit_die_table() {
    assert_eq!(hit_die_type("Barbarian"), "d12");
    assert_eq!(hit_die_type("Fighter"), "d10");
    assert_eq!(hit_die_type("Paladin"), "d10");
    assert_eq!(hit_die_type("Cleric"), "d8");
    assert_eq!(hit_die_type("Warlock"), "d8");
    assert_eq!(hit_die_type("Wizard"), "d6");
    assert_eq!(hit_die_type("Sorcerer"), "d6");
    assert_eq!(hit_die_type("Homebrew"), "d8");
}

#[test]
fn caster_classification_ignores_ascii_case() {
    assert_eq!(SpellSystem::get_caster_type("WIZARD"), CasterType::Full);
    assert_eq!(SpellSystem::get_caster_type("paladin"), CasterType::Half);
    assert_eq!(SpellSystem::get_caster_type("RoGuE"), CasterType::Third);
    assert!(SpellSystem::is_known_non_caster("Blood Hunter"));
    assert!(SpellSystem::is_known_non_caster("monk"));
    assert!(!SpellSystem::is_known_non_caster("Chronomancer"));
}

#[test]
fn organize_spells_keeps_level_order() {
    let mut spells = empty_spells();
    spells.cantrips.push(Spell { name: "Light".to_string(), level: 0, prepared: false });
    spells.third_level.push(Spell { name: "Fly".to_string(), level: 3, prepared: true });
    let organized = SpellSystem::organize_spells_by_level(&spells);
    assert_eq!(organized.len(), 2);
    assert_eq!(organized[0].0, 0);
    assert_eq!(organized[0].1[0].name, "Light");
    assert_eq!(organized[1].0, 3);
    assert_eq!(organized[1].1[0].name, "Fly");
}

#[test]
fn derived_values_report() {
    let mut data = base_character("Wizard", 1, abilities(8, 10, 12, 16, 13, 11));
    let mut spells = empty_spells();
    spells.spellcasting_ability = Some("Intelligence".to_string());
    data.spells = Some(spells);
    let derived = PdfFiller::new(false).calculate_derived_values(&data);
    let get = |key: &str| derived.iter().find(|e| e.0 == key).map(|e| e.1.as_str());
    assert_eq!(get("strength_modifier"), Some("-1"));
    assert_eq!(get("dexterity_modifier"), Some("0"));
    assert_eq!(get("intelligence_modifier"), Some("3"));
    assert_eq!(get("proficiency_bonus"), Some("2"));
    assert_eq!(get("spell_attack_bonus"), Some("5"));
    assert_eq!(get("spell_save_dc"), Some("13"));
}

#[test]
fn features_and_traits_block() {
    let mut data = base_character("Monk", 2, abilities(10, 10, 10, 10, 10, 10));
    data.features_traits = Some(FeaturesTraits {
        features: Some(vec!["Ki".to_string(), "Unarmored Defense".to_string()]),
        traits: Some(vec!["Calm".to_string()]),
    });
    // The features text is computed, but the static table holds no entry
    // for it, so the mapping silently skips the value.
    let fields = PdfFiller::new(false).get_field_values(&data);
    assert!(fields.iter().all(|e| !e.1.contains("Ki")));
}

#[test]
fn plain_text_report() {
    let mut data = base_character("Wizard", 3, abilities(8, 14, 12, 17, 10, 11));
    data.character.race = "Elf".to_string();
    data.character.background = Some("Sage".to_string());
    data.character.experience_points = Some(900);
    data.combat = Some(dnd_character_sheet_filler::character_model::Combat {
        armor_class: Some(12),
        initiative: None,
        speed: Some(30),
        hit_point_maximum: Some(20),
        current_hit_points: None,
        temporary_hit_points: None,
        hit_dice: None,
        hit_dice_total: None,
    });
    let mut spells = empty_spells();
    spells.spellcasting_class = Some("Wizard".to_string());
    spells.spellcasting_ability = Some("Intelligence".to_string());
    spells.cantrips.push(Spell { name: "Fire Bolt".to_string(), level: 0, prepared: false });
    spells.first_level.push(Spell { name: "Shield".to_string(), level: 1, prepared: true });
    data.spells = Some(spells);
    data.equipment = Some(Equipment {
        currency: Some(Currency { cp: 1, sp: 2, ep: 3, gp: 4, pp: 5 }),
        items: Some("Pack".to_string()),
    });

    let report = PdfFiller::new(false).generate_character_sheet_text(&data);
    let expected = "=== D&D 5e CHARACTER SHEET ===\n\n\
        Character Name: Hero\n\
        Class & Level: Wizard 3\n\
        Race: Elf\n\
        Background: Sage\n\
        Experience Points: 900\n\
        \n=== ABILITY SCORES ===\n\
        Strength: 8 (-1)\n\
        Dexterity: 14 (2)\n\
        Constitution: 12 (1)\n\
        Intelligence: 17 (3)\n\
        Wisdom: 10 (0)\n\
        Charisma: 11 (0)\n\
        \n=== COMBAT STATS ===\n\
        Armor Class: 12\n\
        Hit Points: 20\n\
        Speed: 30 ft\n\
        \n=== SPELLS ===\n\
        Spellcasting Class: Wizard\n\
        Spellcasting Ability: Intelligence\n\
        \nCantrips:\n\
        \u{20} - Fire Bolt\n\
        \nLevel 1 Spells:\n\
        \u{20} - Shield (Prepared)\n\
        \n=== EQUIPMENT ===\n\
        Currency: 1 cp, 2 sp, 3 ep, 4 gp, 5 pp\n\
        Items: Pack\n\
        \n=== CALCULATED VALUES ===\n\
        STRENGTH MODIFIER: -1\n\
        DEXTERITY MODIFIER: 2\n\
        CONSTITUTION MODIFIER: 1\n\
        INTELLIGENCE MODIFIER: 3\n\
        WISDOM MODIFIER: 0\n\
        CHARISMA MODIFIER: 0\n\
        PROFICIENCY BONUS: 2\n\
        SPELL ATTACK BONUS: 5\n\
        SPELL SAVE DC: 13\n";
    assert_eq!(report, expected);
}

#[test]
fn appearance_and_font_size() {
    let filler = PdfFiller::new(false);
    assert_eq!(filler.get_font_size_for_field("CharacterName"), 12);
    assert_eq!(filler.get_font_size_for_field("Spells 1014"), 8);
    assert_eq!(filler.get_font_size_for_field("Ideals"), 9);
    assert_eq!(filler.get_font_size_for_field("STR"), 10);
    assert_eq!(filler.create_default_appearance("STR"), "/Helv 10 Tf 0 g");
    assert_eq!(filler.create_default_appearance("Spells 1020"), "/Helv 8 Tf 0 g");
}
