//! The structured outcome of one save operation, with its error kind,
//! message and recovery suggestions.

use vstd::prelude::*;
use crate::errors::{save_error_message, save_error_suggestion, save_error_type_name, SaveError};

verus! {

/// The outcome of one save operation.  The application performs the
/// writing and the clock reading; the fields here are plain values.
#[derive(Debug, Clone)]
pub struct SaveOperationResult {
    pub success: bool,
    pub output_path: Option<String>,
    pub file_size_bytes: Option<u64>,
    pub created_at_secs: Option<u64>,
    pub error: Option<SaveError>,
    pub validation_passed: bool,
}

/// The message a save result renders: its error's message, or a fixed
/// line by success.
pub open spec fn save_result_message(r: SaveOperationResult) -> Seq<char> {
    match r.error {
        Option::Some(e) => save_error_message(e),
        Option::None => if r.success {
            "Operation completed successfully"@
        } else {
            "Unknown error occurred"@
        },
    }
}

impl SaveOperationResult {
    /// A successful outcome; the caller supplies the creation time as
    /// seconds since the epoch.
    pub fn success(output_path: String, file_size: u64, created_at_secs: u64) -> (r: Self)
        ensures
            r.success,
            r.output_path == Option::Some(output_path),
            r.file_size_bytes == Option::Some(file_size),
            r.created_at_secs == Option::Some(created_at_secs),
            r.error is None,
            r.validation_passed,
    {
        SaveOperationResult {
            success: true,
            output_path: Option::Some(output_path),
            file_size_bytes: Option::Some(file_size),
            created_at_secs: Option::Some(created_at_secs),
            error: Option::None,
            validation_passed: true,
        }
    }

    /// A failed outcome carrying its error.
    pub fn failure(error: SaveError) -> (r: Self)
        ensures
            !r.success,
            r.output_path is None,
            r.file_size_bytes is None,
            r.created_at_secs is None,
            r.error == Option::Some(error),
            !r.validation_passed,
    {
        SaveOperationResult {
            success: false,
            output_path: Option::None,
            file_size_bytes: Option::None,
            created_at_secs: Option::None,
            error: Option::Some(error),
            validation_passed: false,
        }
    }

    /// The stable kind name of the error, when there is one.
    pub fn error_type(&self) -> (r: Option<&'static str>)
        ensures
            match self.error {
                Option::Some(e) => r matches Option::Some(s) && s@ == save_error_type_name(e),
                Option::None => r is None,
            },
    {
        match &self.error {
            Option::Some(e) => Option::Some(e.error_type()),
            Option::None => Option::None,
        }
    }

    /// The outcome's message: the error's message, or a fixed line by
    /// success.
    pub fn error_message(&self) -> (r: String)
        ensures
            r@ == save_result_message(*self),
    {
        proof {
            reveal_strlit("Operation completed successfully");
            reveal_strlit("Unknown error occurred");
        }
        match &self.error {
            Option::Some(e) => e.message(),
            Option::None => if self.success {
                String::from_str("Operation completed successfully")
            } else {
                String::from_str("Unknown error occurred")
            },
        }
    }

    /// The error's recovery suggestions; empty without an error.
    pub fn suggestions(&self) -> (r: Vec<String>)
        ensures
            match self.error {
                Option::Some(e) => r@.len() == 3 && forall|i: int|
                    0 <= i < 3 ==> #[trigger] r@[i]@ == save_error_suggestion(e, i),
                Option::None => r@.len() == 0,
            },
    {
        match &self.error {
            Option::Some(e) => e.suggestions(),
            Option::None => Vec::new(),
        }
    }
}

} // verus!
