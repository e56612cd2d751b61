use dnd_character_sheet_filler::character_model::Ability;
use dnd_character_sheet_filler::errors::{PdfError, SaveError, ValidationError};
use dnd_character_sheet_filler::field_mapper::FieldMapper;
use dnd_character_sheet_filler::path_validator::{OutputPathConfig, PathValidator};
use dnd_character_sheet_filler::save_result::SaveOperationResult;

#[test]
fn static_table_lookups() {
    let mapper = FieldMapper::new();
    assert_eq!(mapper.get_pdf_field_name("character_name"), Some("CharacterName"));
    assert_eq!(mapper.get_pdf_field_name("strength"), Some("STR"));
    assert_eq!(mapper.get_pdf_field_name("strength_modifier"), Some("STRmod"));
    assert_eq!(mapper.get_pdf_field_name("spell_save_dc"), Some("SpellSaveDC  2"));
    assert_eq!(mapper.get_pdf_field_name("spell_slots_1"), Some("SlotsTotal 19"));
    assert_eq!(mapper.get_pdf_field_name("spell_slots_9"), Some("SlotsTotal 27"));
    assert_eq!(mapper.get_pdf_field_name("wisdom_save"), Some("ST Wisdom"));
    assert_eq!(mapper.get_pdf_field_name("survival_prof"), Some("Check Box 40"));
    assert_eq!(mapper.get_pdf_field_name("passive_perception"), None);
    assert_eq!(mapper.get_pdf_field_name("hit_dice_total"), None);
    assert_eq!(mapper.get_pdf_field_name("no_such_key"), None);
}

#[test]
fn positional_spell_names() {
    let mapper = FieldMapper::new();
    // The fixed sequences.
    assert_eq!(mapper.get_spell_field_name(0, 0), "Spells 1014");
    assert_eq!(mapper.get_spell_field_name(0, 1), "Spells 1016");
    assert_eq!(mapper.get_spell_field_name(1, 0), "Spells 1015");
    assert_eq!(mapper.get_spell_field_name(2, 0), "Spells 1046");
    assert_eq!(mapper.get_spell_field_name(2, 1), "Spells 1034");
    assert_eq!(mapper.get_spell_field_name(9, 3), "Spells 101010");
    // The arithmetic fallback once a sequence is exhausted.
    assert_eq!(mapper.get_spell_field_name(1, 12), "Spells 1027");
    assert_eq!(mapper.get_spell_field_name(5, 9), "Spells 1082");
}

#[test]
fn positional_prepared_checkboxes() {
    let mapper = FieldMapper::new();
    assert_eq!(mapper.get_spell_prepared_checkbox(0, 0), "No checkbox needed for cantrips");
    assert_eq!(mapper.get_spell_prepared_checkbox(1, 0), "Check Box 251");
    assert_eq!(mapper.get_spell_prepared_checkbox(1, 1), "Check Box 309");
    assert_eq!(mapper.get_spell_prepared_checkbox(1, 2), "Check Box 3010");
    assert_eq!(mapper.get_spell_prepared_checkbox(9, 1), "Check Box 326");
    // The arithmetic fallback once a sequence is exhausted.
    assert_eq!(mapper.get_spell_prepared_checkbox(1, 12), "Check Box 3020");
    assert_eq!(mapper.get_spell_prepared_checkbox(5, 9), "Check Box 3060");
}

#[test]
fn validation_messages() {
    let e = ValidationError::AbilityScore { ability: Ability::Strength, value: 25 };
    assert_eq!(e.message(), "Strength score 25 must be between 1 and 20");
    let e = ValidationError::Level { level: 21 };
    assert_eq!(e.message(), "Character level 21 must be between 1 and 20");
    let e = ValidationError::ExperiencePoints { xp: 6000, level: 5, required: 6500 };
    assert_eq!(e.message(), "Experience points 6000 insufficient for level 5 (requires 6500)");
    let e = ValidationError::Spell {
        spell: "Shatter".to_string(),
        level: 2,
        expected_level: 3,
    };
    assert_eq!(e.message(), "Spell 'Shatter' has level 2 but was placed in the level 3 list");
}

#[test]
fn pdf_error_messages() {
    assert_eq!(
        PdfError::FileNotFound("a.pdf".to_string()).message(),
        "PDF file not found: a.pdf"
    );
    assert_eq!(PdfError::WriteError("disk".to_string()).message(), "PDF write error: disk");
}

#[test]
fn save_error_kinds_and_suggestions() {
    let e = SaveError::InvalidPath("bad".to_string());
    assert_eq!(e.error_type(), "InvalidPath");
    assert_eq!(e.message(), "Invalid path: bad");
    assert_eq!(e.suggestions().len(), 3);
    let e = SaveError::DiskSpaceFull("full".to_string());
    assert_eq!(e.error_type(), "DiskSpaceFull");
    assert_eq!(e.suggestions()[0], "Free up disk space on the target drive");
}

#[test]
fn save_operation_results() {
    let ok = SaveOperationResult::success("out.pdf".to_string(), 1234, 1700000000);
    assert!(ok.success);
    assert!(ok.validation_passed);
    assert_eq!(ok.output_path.as_deref(), Some("out.pdf"));
    assert_eq!(ok.file_size_bytes, Some(1234));
    assert_eq!(ok.error_type(), None);
    assert_eq!(ok.error_message(), "Operation completed successfully");
    assert!(ok.suggestions().is_empty());

    let bad = SaveOperationResult::failure(SaveError::PermissionDenied("denied".to_string()));
    assert!(!bad.success);
    assert_eq!(bad.error_type(), Some("PermissionDenied"));
    assert_eq!(bad.error_message(), "Permission denied: denied");
    assert_eq!(bad.suggestions().len(), 3);
}

#[test]
fn path_text_checks() {
    assert!(PathValidator::validate_path_format("/tmp/out.pdf").is_ok());
    assert!(matches!(
        PathValidator::validate_path_format("bad\u{0}path.pdf"),
        Err(SaveError::InvalidPath(m)) if m == "Path contains null character"
    ));

    assert!(PathValidator::validate_filename("dir/sheet.pdf").is_ok());
    assert!(PathValidator::validate_filename("dir/SHEET.PDF").is_ok());
    assert!(matches!(
        PathValidator::validate_filename("dir/sheet.txt"),
        Err(SaveError::InvalidPath(m)) if m == "Output file must have .pdf extension"
    ));
    assert!(matches!(
        PathValidator::validate_filename("dir/"),
        Err(SaveError::InvalidPath(m)) if m == "Filename cannot be empty"
    ));
    let long_name = format!("dir/{}.pdf", "a".repeat(300));
    assert!(matches!(
        PathValidator::validate_filename(&long_name),
        Err(SaveError::InvalidPath(m)) if m == "Filename is too long"
    ));

    assert!(PathValidator::validate_path_length("short.pdf").is_ok());
    let long_path = format!("{}/x.pdf", "d".repeat(5000));
    assert!(matches!(
        PathValidator::validate_path_length(&long_path),
        Err(SaveError::InvalidPath(m)) if m == "Path is too long"
    ));
}

#[test]
fn output_path_format_check() {
    assert!(OutputPathConfig::validate_path_format("/tmp/sheet.pdf").is_ok());
    assert!(OutputPathConfig::validate_path_format("sheet.PDF").is_ok());
    assert!(matches!(
        OutputPathConfig::validate_path_format("sheet.doc"),
        Err(SaveError::InvalidPath(m)) if m == "Output file must have .pdf extension"
    ));
    assert!(matches!(
        OutputPathConfig::validate_path_format("nul\u{0}.pdf"),
        Err(SaveError::InvalidPath(m)) if m == "Path contains null character"
    ));
}
