use dnd_character_sheet_filler::character_model::{AbilityScores, Character, CharacterData};
use dnd_character_sheet_filler::spell_system::{CasterType, SpellSystem};

fn build_character(name: &str, class: &str, level: u8, abilities: AbilityScores) -> CharacterData {
    CharacterData {
        character: Character {
            name: name.to_string(),
            class: class.to_string(),
            level,
            race: "Human".to_string(),
            background: None,
            player_name: None,
            alignment: None,
            experience_points: None,
        },
        abilities,
        proficiencies: None,
        combat: None,
        spells: None,
        equipment: None,
        narrative: None,
        features_traits: None,
    }
}

fn slot(slots: &[(u8, u8)], n: u8) -> Option<u8> {
    slots.iter().find(|e| e.0 == n).map(|e| e.1)
}

#[test]
fn test_wizard_level_5_spell_slots() {
    let character_data = build_character(
        "Test Wizard",
        "Wizard",
        5,
        AbilityScores {
            strength: 10,
            dexterity: 14,
            constitution: 13,
            intelligence: 16,
            wisdom: 12,
            charisma: 8,
        },
    );

    let spell_slots = SpellSystem::calculate_spell_slots(&character_data);

    assert_eq!(slot(&spell_slots, 1), Some(4));
    assert_eq!(slot(&spell_slots, 2), Some(3));
    assert_eq!(slot(&spell_slots, 3), Some(2));
    assert_eq!(slot(&spell_slots, 4), None);
    assert_eq!(slot(&spell_slots, 5), None);
}

#[test]
fn test_paladin_level_5_spell_slots() {
    let character_data = build_character(
        "Test Paladin",
        "Paladin",
        5,
        AbilityScores {
            strength: 16,
            dexterity: 10,
            constitution: 14,
            intelligence: 8,
            wisdom: 12,
            charisma: 15,
        },
    );

    let spell_slots = SpellSystem::calculate_spell_slots(&character_data);

    assert_eq!(slot(&spell_slots, 1), Some(4));
    assert_eq!(slot(&spell_slots, 2), Some(2));
    assert_eq!(slot(&spell_slots, 3), None);
}

#[test]
fn test_barbarian_no_spell_slots() {
    let character_data = build_character(
        "Test Barbarian",
        "Barbarian",
        5,
        AbilityScores {
            strength: 16,
            dexterity: 14,
            constitution: 15,
            intelligence: 8,
            wisdom: 12,
            charisma: 10,
        },
    );

    let spell_slots = SpellSystem::calculate_spell_slots(&character_data);

    assert!(spell_slots.is_empty());
}

#[test]
fn test_eldritch_knight_fighter_level_7() {
    let character_data = build_character(
        "Test Eldritch Knight",
        "Fighter",
        7,
        AbilityScores {
            strength: 16,
            dexterity: 14,
            constitution: 15,
            intelligence: 14,
            wisdom: 12,
            charisma: 10,
        },
    );

    let spell_slots = SpellSystem::calculate_spell_slots(&character_data);

    assert_eq!(slot(&spell_slots, 1), Some(4));
    assert_eq!(slot(&spell_slots, 2), Some(2));
    assert_eq!(slot(&spell_slots, 3), None);
}

#[test]
fn test_caster_type_classification() {
    assert_eq!(SpellSystem::get_caster_type("Wizard"), CasterType::Full);
    assert_eq!(SpellSystem::get_caster_type("Sorcerer"), CasterType::Full);
    assert_eq!(SpellSystem::get_caster_type("Cleric"), CasterType::Full);
    assert_eq!(SpellSystem::get_caster_type("Druid"), CasterType::Full);
    assert_eq!(SpellSystem::get_caster_type("Bard"), CasterType::Full);

    assert_eq!(SpellSystem::get_caster_type("Paladin"), CasterType::Half);
    assert_eq!(SpellSystem::get_caster_type("Ranger"), CasterType::Half);

    assert_eq!(SpellSystem::get_caster_type("Fighter"), CasterType::Third);
    assert_eq!(SpellSystem::get_caster_type("Rogue"), CasterType::Third);

    assert_eq!(SpellSystem::get_caster_type("Barbarian"), CasterType::NonCaster);
    assert_eq!(SpellSystem::get_caster_type("Monk"), CasterType::NonCaster);
}

#[test]
fn test_spell_slot_progression_tables() {
    let full_slots = SpellSystem::get_spell_slots_for_single_class(5, CasterType::Full);
    assert_eq!(slot(&full_slots, 1), Some(4));
    assert_eq!(slot(&full_slots, 2), Some(3));
    assert_eq!(slot(&full_slots, 3), Some(2));
    assert_eq!(slot(&full_slots, 4), None);

    let half_slots = SpellSystem::get_spell_slots_for_single_class(5, CasterType::Half);
    assert_eq!(slot(&half_slots, 1), Some(4));
    assert_eq!(slot(&half_slots, 2), Some(2));
    assert_eq!(slot(&half_slots, 3), None);

    let third_slots = SpellSystem::get_spell_slots_for_single_class(7, CasterType::Third);
    assert_eq!(slot(&third_slots, 1), Some(4));
    assert_eq!(slot(&third_slots, 2), Some(2));
    assert_eq!(slot(&third_slots, 3), None);

    let no_slots = SpellSystem::get_spell_slots_for_single_class(5, CasterType::NonCaster);
    assert!(no_slots.is_empty());
}
