//! Pure text checks on output paths: format, filename and length rules.
//! Everything that touches the file system (resolving against the current
//! directory, creating directories, probing permissions or disk space)
//! belongs to the surrounding application.

use vstd::prelude::*;
use crate::errors::SaveError;
use crate::text::{ends_with, lower_chars, seq_contains_char, str_contains_char,
    str_ends_with_lower};

verus! {

/// Index of the first character after the last '/' (the whole string's
/// length when it ends with '/', 0 when it holds none).
pub open spec fn filename_start(s: Seq<char>) -> int
    decreases s.len(),
{
    if s.len() == 0 {
        0
    } else if s[s.len() - 1] == '/' {
        s.len() as int
    } else {
        filename_start(s.drop_last())
    }
}

/// The first problem the path format check finds, if any.
pub open spec fn path_format_issue(p: Seq<char>) -> Option<Seq<char>> {
    if seq_contains_char(p, '\u{0}') {
        Option::Some("Path contains null character"@)
    } else {
        Option::None
    }
}

/// The first problem the filename check finds, if any: the name after the
/// last '/' must be non-empty, carry a .pdf extension in any case, and be
/// at most 255 characters.
pub open spec fn filename_issue(p: Seq<char>) -> Option<Seq<char>> {
    let name = p.subrange(filename_start(p), p.len() as int);
    if name.len() == 0 {
        Option::Some("Filename cannot be empty"@)
    } else if !ends_with(".pdf"@, lower_chars(name)) {
        Option::Some("Output file must have .pdf extension"@)
    } else if name.len() > 255 {
        Option::Some("Filename is too long"@)
    } else {
        Option::None
    }
}

/// The first problem the path length check finds, if any.
pub open spec fn path_length_issue(p: Seq<char>) -> Option<Seq<char>> {
    if p.len() > 4096 {
        Option::Some("Path is too long"@)
    } else {
        Option::None
    }
}

/// The first problem a combined output-path check finds, if any: no null
/// character, at most 4096 characters, a .pdf extension in any case, and a
/// non-empty filename.
pub open spec fn output_path_issue(p: Seq<char>) -> Option<Seq<char>> {
    if seq_contains_char(p, '\u{0}') {
        Option::Some("Path contains null character"@)
    } else if p.len() > 4096 {
        Option::Some("Path is too long"@)
    } else if !ends_with(".pdf"@, lower_chars(p)) {
        Option::Some("Output file must have .pdf extension"@)
    } else if filename_start(p) == p.len() {
        Option::Some("Filename cannot be empty"@)
    } else {
        Option::None
    }
}

/// The pure text checks on output paths.
#[derive(Debug, Clone, Copy)]
pub struct PathValidator;

/// Finds the index right after the last '/' of `path`.
fn find_filename_start(path: &str) -> (k: usize)
    ensures
        k == filename_start(path@),
        k <= path@.len(),
{
    let len = path.unicode_len();
    proof {
        assert(path@.take(len as int) =~= path@);
    }
    let mut i: usize = len;
    while i > 0
        invariant
            0 <= i <= len,
            len == path@.len(),
            filename_start(path@) == filename_start(path@.take(i as int)),
        decreases i,
    {
        proof {
            assert(path@.take(i as int).drop_last() =~= path@.take(i - 1));
            assert(path@.take(i as int).last() == path@[i - 1]);
        }
        if path.get_char(i - 1) == '/' {
            return i;
        }
        i = i - 1;
    }
    proof {
        assert(path@.take(0) =~= Seq::<char>::empty());
    }
    0
}

impl PathValidator {
    /// Checks the path's format: it may not contain a null character.
    pub fn validate_path_format(path: &str) -> (r: Result<(), SaveError>)
        ensures
            match r {
                Result::Ok(()) => path_format_issue(path@) is None,
                Result::Err(e) => e matches SaveError::InvalidPath(m) && path_format_issue(path@)
                    == Option::Some(m@),
            },
    {
        if str_contains_char(path, '\u{0}') {
            Result::Err(SaveError::InvalidPath(String::from_str("Path contains null character")))
        } else {
            Result::Ok(())
        }
    }

    /// Checks the filename after the last '/': non-empty, a .pdf
    /// extension in any case, at most 255 characters.
    pub fn validate_filename(path: &str) -> (r: Result<(), SaveError>)
        ensures
            match r {
                Result::Ok(()) => filename_issue(path@) is None,
                Result::Err(e) => e matches SaveError::InvalidPath(m) && filename_issue(path@)
                    == Option::Some(m@),
            },
    {
        let len = path.unicode_len();
        let start = find_filename_start(path);
        let name = path.substring_char(start, len);
        proof {
            assert(name@ == path@.subrange(filename_start(path@), path@.len() as int));
        }
        if name.unicode_len() == 0 {
            Result::Err(SaveError::InvalidPath(String::from_str("Filename cannot be empty")))
        } else if !str_ends_with_lower(name, ".pdf") {
            Result::Err(
                SaveError::InvalidPath(String::from_str("Output file must have .pdf extension")),
            )
        } else if name.unicode_len() > 255 {
            Result::Err(SaveError::InvalidPath(String::from_str("Filename is too long")))
        } else {
            Result::Ok(())
        }
    }

    /// Checks the whole path's length: at most 4096 characters.
    pub fn validate_path_length(path: &str) -> (r: Result<(), SaveError>)
        ensures
            match r {
                Result::Ok(()) => path_length_issue(path@) is None,
                Result::Err(e) => e matches SaveError::InvalidPath(m) && path_length_issue(path@)
                    == Option::Some(m@),
            },
    {
        if path.unicode_len() > 4096 {
            Result::Err(SaveError::InvalidPath(String::from_str("Path is too long")))
        } else {
            Result::Ok(())
        }
    }
}

/// The text of an output-path configuration: the resolved target path,
/// its parent directory, the filename, and whether the target already
/// existed when the configuration was built.  The application resolves and
/// probes the file system and fills these in.
#[derive(Debug, Clone)]
pub struct OutputPathConfig {
    pub target_path: String,
    pub parent_dir: String,
    pub filename: String,
    pub exists: bool,
}

impl OutputPathConfig {
    /// Checks an output path's text: no null character, at most 4096
    /// characters, a .pdf extension in any case, a non-empty filename.
    pub fn validate_path_format(path: &str) -> (r: Result<(), SaveError>)
        ensures
            match r {
                Result::Ok(()) => output_path_issue(path@) is None,
                Result::Err(e) => e matches SaveError::InvalidPath(m) && output_path_issue(path@)
                    == Option::Some(m@),
            },
    {
        if str_contains_char(path, '\u{0}') {
            Result::Err(SaveError::InvalidPath(String::from_str("Path contains null character")))
        } else if path.unicode_len() > 4096 {
            Result::Err(SaveError::InvalidPath(String::from_str("Path is too long")))
        } else if !str_ends_with_lower(path, ".pdf") {
            Result::Err(
                SaveError::InvalidPath(String::from_str("Output file must have .pdf extension")),
            )
        } else {
            let len = path.unicode_len();
            let start = find_filename_start(path);
            if start == len {
                Result::Err(SaveError::InvalidPath(String::from_str("Filename cannot be empty")))
            } else {
                Result::Ok(())
            }
        }
    }
}

} // verus!
