use dnd_character_sheet_filler::spell_system::{CasterType, SpellSystem};

#[test]
fn wizard_intelligence_16() {
    // Wizard, level 1: proficiency +2, Intelligence 16 gives modifier +3;
    // save DC 8 + 2 + 3 = 13, attack 2 + 3 = +5.
    assert_eq!(SpellSystem::calculate_spell_save_dc(3, 2), 13);
    assert_eq!(SpellSystem::calculate_spell_attack_bonus(3, 2), 5);
}

#[test]
fn fighter_no_spellcasting() {
    // A fighter record carries no spellcasting header; the class alone
    // classifies as a third caster only for its spell slots.
    assert_eq!(SpellSystem::get_caster_type("Fighter"), CasterType::Third);
    assert_eq!(SpellSystem::get_spellcasting_ability_modifier(
        "strength",
        &dnd_character_sheet_filler::character_model::AbilityScores {
            strength: 16,
            dexterity: 14,
            constitution: 14,
            intelligence: 10,
            wisdom: 10,
            charisma: 10,
        },
    ), 0);
}
