use vstd::prelude::*;
use crate::text::{chars_equal, chars_of};

verus! {

/// Limits on one upload, read from the deployment's configuration.
#[derive(Clone, Debug)]
pub struct ValidationLimits {
    pub max_files: usize,
    pub max_file_size: u64,
    pub allowed_formats: Vec<String>,
}

/// Why an upload is refused.
#[derive(Clone, Copy, Debug, PartialEq, Eq, Structural)]
pub enum ValidationError {
    /// More files than allowed were uploaded.
    TooManyFiles { max: usize, got: usize },
    /// The file at this index is larger than allowed.
    FileTooLarge { index: usize },
    /// The target format is not in the allowed list.
    FormatNotAllowed,
}

pub open spec fn first_too_large(files: Seq<(String, Vec<u8>)>, max: nat, k: nat) -> Option<nat>
    decreases files.len() - k,
{
    if k >= files.len() {
        None
    } else if files[k as int].1@.len() > max {
        Some(k)
    } else {
        first_too_large(files, max, k + 1)
    }
}

pub open spec fn format_allowed(allowed: Seq<String>, format: Seq<char>) -> bool {
    exists|i: int| 0 <= i < allowed.len() && (#[trigger] allowed[i])@ == format
}

/// The verdict on an upload: too many files first, then the first file over
/// the size limit, then a format that is not allowed.
pub open spec fn validation_spec(files: Seq<(String, Vec<u8>)>, format: Seq<char>, limits: ValidationLimits) -> Result<(), ValidationError> {
    if files.len() > limits.max_files {
        Err(ValidationError::TooManyFiles { max: limits.max_files, got: files.len() as usize })
    } else if let Some(i) = first_too_large(files, limits.max_file_size as nat, 0) {
        Err(ValidationError::FileTooLarge { index: i as usize })
    } else if !format_allowed(limits.allowed_formats@, format) {
        Err(ValidationError::FormatNotAllowed)
    } else {
        Ok(())
    }
}


/// Checks an upload against the limits: the number of files, each file's
/// size, and the target format.
pub fn files_validation(files: &Vec<(String, Vec<u8>)>, format: &str, limits: &ValidationLimits) -> (r: Result<(), ValidationError>)
    ensures
        r == validation_spec(files@, format@, *limits),
{
    if files.len() > limits.max_files {
        return Err(ValidationError::TooManyFiles { max: limits.max_files, got: files.len() });
    }
    let mut k: usize = 0;
    while k < files.len()
        invariant
            k <= files@.len(),
            files@.len() <= limits.max_files,
            first_too_large(files@, limits.max_file_size as nat, 0) == first_too_large(files@, limits.max_file_size as nat, k as nat),
        decreases files@.len() - k,
    {
        if files[k].1.len() as u64 > limits.max_file_size {
            return Err(ValidationError::FileTooLarge { index: k });
        }
        k = k + 1;
    }
    let f = chars_of(format);
    let mut i: usize = 0;
    while i < limits.allowed_formats.len()
        invariant
            i <= limits.allowed_formats@.len(),
            f@ == format@,
            files@.len() <= limits.max_files,
            first_too_large(files@, limits.max_file_size as nat, 0) is None,
            forall|j: int| 0 <= j < i ==> (#[trigger] limits.allowed_formats@[j])@ != format@,
        decreases limits.allowed_formats@.len() - i,
    {
        let a = chars_of(limits.allowed_formats[i].as_str());
        if chars_equal(&a, &f) {
            assert(format_allowed(limits.allowed_formats@, format@));
            return Ok(());
        }
        i = i + 1;
    }
    Err(ValidationError::FormatNotAllowed)
}

} // verus!
