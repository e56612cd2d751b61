use dnd_character_sheet_filler::character_model::{AbilityScores, Character, CharacterData};
use dnd_character_sheet_filler::pdf_filler::PdfFiller;

fn header_character(class: &str, abilities: AbilityScores) -> CharacterData {
    CharacterData {
        character: Character {
            name: format!("Test {}", class),
            class: class.to_string(),
            level: 1,
            race: "Human".to_string(),
            background: None,
            player_name: None,
            alignment: None,
            experience_points: None,
        },
        abilities,
        proficiencies: None,
        combat: None,
        spells: None,
        equipment: None,
        narrative: None,
        features_traits: None,
    }
}

fn field<'a>(fields: &'a [(String, String)], key: &str) -> Option<&'a str> {
    fields.iter().rev().find(|e| e.0 == key).map(|e| e.1.as_str())
}

#[test]
fn test_wizard_intelligence_16() {
    // Wizard uses Intelligence (16 gives +3); level 1 gives +2 proficiency:
    // save DC 8 + 2 + 3 = 13, attack bonus 2 + 3 = +5.
    let data = header_character(
        "Wizard",
        AbilityScores {
            strength: 10,
            dexterity: 10,
            constitution: 10,
            intelligence: 16,
            wisdom: 10,
            charisma: 10,
        },
    );
    let fields = PdfFiller::new(false).get_field_values(&data);
    assert_eq!(field(&fields, "SpellSaveDC  2"), Some("13"));
    assert_eq!(field(&fields, "SpellAtkBonus 2"), Some("+5"));
    assert_eq!(field(&fields, "Spellcasting Class 2"), Some("Wizard"));
    assert_eq!(field(&fields, "SpellcastingAbility 2"), Some("Intelligence"));
}

#[test]
fn test_cleric_wisdom_14() {
    // Cleric uses Wisdom (14 gives +2); level 1 gives +2 proficiency:
    // save DC 8 + 2 + 2 = 12, attack bonus 2 + 2 = +4.
    let data = header_character(
        "Cleric",
        AbilityScores {
            strength: 10,
            dexterity: 10,
            constitution: 10,
            intelligence: 10,
            wisdom: 14,
            charisma: 10,
        },
    );
    let fields = PdfFiller::new(false).get_field_values(&data);
    assert_eq!(field(&fields, "SpellSaveDC  2"), Some("12"));
    assert_eq!(field(&fields, "SpellAtkBonus 2"), Some("+4"));
}

#[test]
fn test_sorcerer_charisma_18() {
    // Sorcerer uses Charisma (18 gives +4); level 1 gives +2 proficiency:
    // save DC 8 + 2 + 4 = 14, attack bonus 2 + 4 = +6.
    let data = header_character(
        "Sorcerer",
        AbilityScores {
            strength: 10,
            dexterity: 10,
            constitution: 10,
            intelligence: 10,
            wisdom: 10,
            charisma: 18,
        },
    );
    let fields = PdfFiller::new(false).get_field_values(&data);
    assert_eq!(field(&fields, "SpellSaveDC  2"), Some("14"));
    assert_eq!(field(&fields, "SpellAtkBonus 2"), Some("+6"));
}

#[test]
fn test_fighter_no_spellcasting() {
    // A fighter record without a spell aggregate populates no
    // spellcasting header fields.
    let data = header_character(
        "Fighter",
        AbilityScores {
            strength: 16,
            dexterity: 14,
            constitution: 14,
            intelligence: 10,
            wisdom: 10,
            charisma: 10,
        },
    );
    let fields = PdfFiller::new(false).get_field_values(&data);
    assert_eq!(field(&fields, "SpellSaveDC  2"), None);
    assert_eq!(field(&fields, "SpellAtkBonus 2"), None);
    assert_eq!(field(&fields, "Spellcasting Class 2"), None);
    assert_eq!(field(&fields, "SpellcastingAbility 2"), None);
}

#[test]
fn test_rogue_no_spellcasting() {
    let data = header_character(
        "Rogue",
        AbilityScores {
            strength: 10,
            dexterity: 16,
            constitution: 14,
            intelligence: 12,
            wisdom: 12,
            charisma: 10,
        },
    );
    let fields = PdfFiller::new(false).get_field_values(&data);
    assert_eq!(field(&fields, "SpellSaveDC  2"), None);
    assert_eq!(field(&fields, "SpellAtkBonus 2"), None);
}
