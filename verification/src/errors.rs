//! Error taxonomy: rule violations found by the validator, document-level
//! errors, and save-operation errors, each with a verified message
//! rendering.

use vstd::prelude::*;
use crate::character_model::Ability;
use crate::text::dec_rep;

verus! {

/// One violation of the game rules found while validating a character.
#[derive(Debug, Clone, PartialEq)]
pub enum ValidationError {
    /// An ability score lies outside 1..=20.
    AbilityScore { ability: Ability, value: u8 },
    /// The character level lies outside 1..=20.
    Level { level: u8 },
    /// The stated experience points fall short of the level's threshold.
    ExperiencePoints { xp: u32, level: u8, required: u32 },
    /// A spell's stored level differs from the bucket holding it.
    Spell { spell: String, level: u8, expected_level: u8 },
    /// A proficiency entry violates a rule.
    Proficiency { skill: String },
}

/// The capitalized display name of an ability.
pub open spec fn ability_display_name(a: Ability) -> Seq<char> {
    match a {
        Ability::Strength => "Strength"@,
        Ability::Dexterity => "Dexterity"@,
        Ability::Constitution => "Constitution"@,
        Ability::Intelligence => "Intelligence"@,
        Ability::Wisdom => "Wisdom"@,
        Ability::Charisma => "Charisma"@,
    }
}

/// The capitalized display name of an ability.
pub fn ability_display_str(a: Ability) -> (s: &'static str)
    ensures
        s@ == ability_display_name(a),
{
    match a {
        Ability::Strength => "Strength",
        Ability::Dexterity => "Dexterity",
        Ability::Constitution => "Constitution",
        Ability::Intelligence => "Intelligence",
        Ability::Wisdom => "Wisdom",
        Ability::Charisma => "Charisma",
    }
}

/// The message text of a rule violation.
pub open spec fn validation_message(e: ValidationError) -> Seq<char> {
    match e {
        ValidationError::AbilityScore { ability, value } => ability_display_name(ability)
            + " score "@ + dec_rep(value as int) + " must be between 1 and 20"@,
        ValidationError::Level { level } => "Character level "@ + dec_rep(level as int)
            + " must be between 1 and 20"@,
        ValidationError::ExperiencePoints { xp, level, required } => "Experience points "@
            + dec_rep(xp as int) + " insufficient for level "@ + dec_rep(level as int)
            + " (requires "@ + dec_rep(required as int) + ")"@,
        ValidationError::Spell { spell, level, expected_level } => "Spell '"@ + spell@
            + "' has level "@ + dec_rep(level as int) + " but was placed in the level "@
            + dec_rep(expected_level as int) + " list"@,
        ValidationError::Proficiency { skill } => "Skill '"@ + skill@
            + "' violates a proficiency rule"@,
    }
}

impl ValidationError {
    /// Renders the violation as a human-readable diagnostic line.
    pub fn message(&self) -> (s: String)
        ensures
            s@ == validation_message(*self),
    {
        match self {
            ValidationError::AbilityScore { ability, value } => {
                proof {
                    reveal_strlit(" score ");
                    reveal_strlit(" must be between 1 and 20");
                }
                let mut s = String::from_str(ability_display_str(*ability));
                let num = crate::text::u32_to_string(*value as u32);
                s.append(" score ");
                s.append(num.as_str());
                s.append(" must be between 1 and 20");
                proof {
                    assert(s@ =~= validation_message(*self));
                }
                s
            },
            ValidationError::Level { level } => {
                proof {
                    reveal_strlit("Character level ");
                    reveal_strlit(" must be between 1 and 20");
                }
                let mut s = String::from_str("Character level ");
                let num = crate::text::u32_to_string(*level as u32);
                s.append(num.as_str());
                s.append(" must be between 1 and 20");
                proof {
                    assert(s@ =~= validation_message(*self));
                }
                s
            },
            ValidationError::ExperiencePoints { xp, level, required } => {
                proof {
                    reveal_strlit("Experience points ");
                    reveal_strlit(" insufficient for level ");
                    reveal_strlit(" (requires ");
                    reveal_strlit(")");
                }
                let mut s = String::from_str("Experience points ");
                let xp_num = crate::text::u32_to_string(*xp);
                s.append(xp_num.as_str());
                s.append(" insufficient for level ");
                let level_num = crate::text::u32_to_string(*level as u32);
                s.append(level_num.as_str());
                s.append(" (requires ");
                let req_num = crate::text::u32_to_string(*required);
                s.append(req_num.as_str());
                s.append(")");
                proof {
                    assert(s@ =~= validation_message(*self));
                }
                s
            },
            ValidationError::Spell { spell, level, expected_level } => {
                proof {
                    reveal_strlit("Spell '");
                    reveal_strlit("' has level ");
                    reveal_strlit(" but was placed in the level ");
                    reveal_strlit(" list");
                }
                let mut s = String::from_str("Spell '");
                s.append(spell.as_str());
                s.append("' has level ");
                let level_num = crate::text::u32_to_string(*level as u32);
                s.append(level_num.as_str());
                s.append(" but was placed in the level ");
                let exp_num = crate::text::u32_to_string(*expected_level as u32);
                s.append(exp_num.as_str());
                s.append(" list");
                proof {
                    assert(s@ =~= validation_message(*self));
                }
                s
            },
            ValidationError::Proficiency { skill } => {
                proof {
                    reveal_strlit("Skill '");
                    reveal_strlit("' violates a proficiency rule");
                }
                let mut s = String::from_str("Skill '");
                s.append(skill.as_str());
                s.append("' violates a proficiency rule");
                proof {
                    assert(s@ =~= validation_message(*self));
                }
                s
            },
        }
    }
}

/// Errors that arise while working with the target document.
#[derive(Debug, Clone, PartialEq)]
pub enum PdfError {
    FileNotFound(String),
    ParseError(String),
    FieldNotFound(String),
    WriteError(String),
}

/// The message text of a document error.
pub open spec fn pdf_error_message(e: PdfError) -> Seq<char> {
    match e {
        PdfError::FileNotFound(path) => "PDF file not found: "@ + path@,
        PdfError::ParseError(msg) => "PDF parse error: "@ + msg@,
        PdfError::FieldNotFound(field) => "PDF field not found: "@ + field@,
        PdfError::WriteError(msg) => "PDF write error: "@ + msg@,
    }
}

impl PdfError {
    /// Renders the error as a human-readable line.
    pub fn message(&self) -> (s: String)
        ensures
            s@ == pdf_error_message(*self),
    {
        proof {
            reveal_strlit("PDF file not found: ");
            reveal_strlit("PDF parse error: ");
            reveal_strlit("PDF field not found: ");
            reveal_strlit("PDF write error: ");
        }
        let mut s = match self {
            PdfError::FileNotFound(_) => String::from_str("PDF file not found: "),
            PdfError::ParseError(_) => String::from_str("PDF parse error: "),
            PdfError::FieldNotFound(_) => String::from_str("PDF field not found: "),
            PdfError::WriteError(_) => String::from_str("PDF write error: "),
        };
        let tail = match self {
            PdfError::FileNotFound(t) => t,
            PdfError::ParseError(t) => t,
            PdfError::FieldNotFound(t) => t,
            PdfError::WriteError(t) => t,
        };
        s.append(tail.as_str());
        proof {
            assert(s@ =~= pdf_error_message(*self));
        }
        s
    }
}

/// Errors that can end a save operation.
#[derive(Debug, Clone, PartialEq)]
pub enum SaveError {
    InvalidPath(String),
    PermissionDenied(String),
    DiskSpaceFull(String),
    DirectoryCreationFailed(String),
    PdfWriteFailed(String),
    IntegrityCheckFailed(String),
}

/// The stable name of a save error's kind.
pub open spec fn save_error_type_name(e: SaveError) -> Seq<char> {
    match e {
        SaveError::InvalidPath(_) => "InvalidPath"@,
        SaveError::PermissionDenied(_) => "PermissionDenied"@,
        SaveError::DiskSpaceFull(_) => "DiskSpaceFull"@,
        SaveError::DirectoryCreationFailed(_) => "DirectoryCreationFailed"@,
        SaveError::PdfWriteFailed(_) => "PdfWriteFailed"@,
        SaveError::IntegrityCheckFailed(_) => "IntegrityCheckFailed"@,
    }
}

/// The message text of a save error.
pub open spec fn save_error_message(e: SaveError) -> Seq<char> {
    match e {
        SaveError::InvalidPath(d) => "Invalid path: "@ + d@,
        SaveError::PermissionDenied(d) => "Permission denied: "@ + d@,
        SaveError::DiskSpaceFull(d) => "Disk space full: "@ + d@,
        SaveError::DirectoryCreationFailed(d) => "Directory creation failed: "@ + d@,
        SaveError::PdfWriteFailed(d) => "PDF write failed: "@ + d@,
        SaveError::IntegrityCheckFailed(d) => "Integrity check failed: "@ + d@,
    }
}

impl SaveError {
    /// The stable name of this error's kind.
    pub fn error_type(&self) -> (s: &'static str)
        ensures
            s@ == save_error_type_name(*self),
    {
        match self {
            SaveError::InvalidPath(_) => "InvalidPath",
            SaveError::PermissionDenied(_) => "PermissionDenied",
            SaveError::DiskSpaceFull(_) => "DiskSpaceFull",
            SaveError::DirectoryCreationFailed(_) => "DirectoryCreationFailed",
            SaveError::PdfWriteFailed(_) => "PdfWriteFailed",
            SaveError::IntegrityCheckFailed(_) => "IntegrityCheckFailed",
        }
    }

    /// Renders the error as a human-readable line.
    pub fn message(&self) -> (s: String)
        ensures
            s@ == save_error_message(*self),
    {
        proof {
            reveal_strlit("Invalid path: ");
            reveal_strlit("Permission denied: ");
            reveal_strlit("Disk space full: ");
            reveal_strlit("Directory creation failed: ");
            reveal_strlit("PDF write failed: ");
            reveal_strlit("Integrity check failed: ");
        }
        let mut s = match self {
            SaveError::InvalidPath(_) => String::from_str("Invalid path: "),
            SaveError::PermissionDenied(_) => String::from_str("Permission denied: "),
            SaveError::DiskSpaceFull(_) => String::from_str("Disk space full: "),
            SaveError::DirectoryCreationFailed(_) => String::from_str(
                "Directory creation failed: ",
            ),
            SaveError::PdfWriteFailed(_) => String::from_str("PDF write failed: "),
            SaveError::IntegrityCheckFailed(_) => String::from_str("Integrity check failed: "),
        };
        let tail = match self {
            SaveError::InvalidPath(t) => t,
            SaveError::PermissionDenied(t) => t,
            SaveError::DiskSpaceFull(t) => t,
            SaveError::DirectoryCreationFailed(t) => t,
            SaveError::PdfWriteFailed(t) => t,
            SaveError::IntegrityCheckFailed(t) => t,
        };
        s.append(tail.as_str());
        proof {
            assert(s@ =~= save_error_message(*self));
        }
        s
    }

    /// Three actionable suggestions for recovering from this error.
    pub fn suggestions(&self) -> (r: Vec<String>)
        ensures
            r@.len() == 3,
            forall|i: int| 0 <= i < 3 ==> #[trigger] r@[i]@ == save_error_suggestion(
                *self,
                i,
            ),
    {
        let mut r: Vec<String> = Vec::new();
        match self {
            SaveError::InvalidPath(_) => {
                r.push(String::from_str(
                    "Check that the path format is valid for your operating system",
                ));
                r.push(String::from_str("Ensure the path doesn't contain invalid characters"));
                r.push(String::from_str(
                    "Try using an absolute path instead of a relative path",
                ));
            },
            SaveError::PermissionDenied(_) => {
                r.push(String::from_str(
                    "Check that you have write permissions to the target directory",
                ));
                r.push(String::from_str("Try running with elevated permissions if necessary"));
                r.push(String::from_str(
                    "Choose a different output location where you have write access",
                ));
            },
            SaveError::DiskSpaceFull(_) => {
                r.push(String::from_str("Free up disk space on the target drive"));
                r.push(String::from_str(
                    "Choose a different output location with more available space",
                ));
                r.push(String::from_str("Delete unnecessary files to make room for the PDF"));
            },
            SaveError::DirectoryCreationFailed(_) => {
                r.push(String::from_str("Check permissions on the parent directory"));
                r.push(String::from_str("Ensure the parent path exists and is accessible"));
                r.push(String::from_str("Try creating the directory manually first"));
            },
            SaveError::PdfWriteFailed(_) => {
                r.push(String::from_str("Verify that the character data is valid"));
                r.push(String::from_str(
                    "Check that the PDF template file is not corrupted",
                ));
                r.push(String::from_str(
                    "Try the operation again - this may be a temporary issue",
                ));
            },
            SaveError::IntegrityCheckFailed(_) => {
                r.push(String::from_str("Retry the save operation"));
                r.push(String::from_str(
                    "Check available system resources (memory, disk space)",
                ));
                r.push(String::from_str("Verify the PDF template is not corrupted"));
            },
        }
        r
    }
}

/// The i-th suggestion text for a save error, for i in 0..3.
pub open spec fn save_error_suggestion(e: SaveError, i: int) -> Seq<char> {
    match e {
        SaveError::InvalidPath(_) => if i == 0 {
            "Check that the path format is valid for your operating system"@
        } else if i == 1 {
            "Ensure the path doesn't contain invalid characters"@
        } else {
            "Try using an absolute path instead of a relative path"@
        },
        SaveError::PermissionDenied(_) => if i == 0 {
            "Check that you have write permissions to the target directory"@
        } else if i == 1 {
            "Try running with elevated permissions if necessary"@
        } else {
            "Choose a different output location where you have write access"@
        },
        SaveError::DiskSpaceFull(_) => if i == 0 {
            "Free up disk space on the target drive"@
        } else if i == 1 {
            "Choose a different output location with more available space"@
        } else {
            "Delete unnecessary files to make room for the PDF"@
        },
        SaveError::DirectoryCreationFailed(_) => if i == 0 {
            "Check permissions on the parent directory"@
        } else if i == 1 {
            "Ensure the parent path exists and is accessible"@
        } else {
            "Try creating the directory manually first"@
        },
        SaveError::PdfWriteFailed(_) => if i == 0 {
            "Verify that the character data is valid"@
        } else if i == 1 {
            "Check that the PDF template file is not corrupted"@
        } else {
            "Try the operation again - this may be a temporary issue"@
        },
        SaveError::IntegrityCheckFailed(_) => if i == 0 {
            "Retry the save operation"@
        } else if i == 1 {
            "Check available system resources (memory, disk space)"@
        } else {
            "Verify the PDF template is not corrupted"@
        },
    }
}

} // verus!
