//! The storage format of the tensors in a model file, and the integer code
//! under which a GGML header records it.
use llm_base::FileType as LlmFileType;
use vstd::prelude::*;

verus! {

/// How the tensors are stored in a GGML model file.
#[derive(Debug, Clone, Copy, PartialEq, Eq, Structural)]
pub enum FileType {
    /// All tensors are stored as f32.
    F32,
    /// Mostly f16, except for the 1D tensors.
    MostlyF16,
    /// Mostly Q4_0, except for the 1D tensors.
    MostlyQ4_0,
    /// Mostly Q4_1, except for the 1D tensors.
    MostlyQ4_1,
    /// Mostly Q4_1, except for the 1D tensors and two f16 tensors.
    MostlyQ4_1SomeF16,
    /// Mostly Q4_2, except for the 1D tensors.
    MostlyQ4_2,
    /// Mostly Q8_0, except for the 1D tensors.
    MostlyQ8_0,
    /// Mostly Q5_0, except for the 1D tensors.
    MostlyQ5_0,
    /// Mostly Q5_1, except for the 1D tensors.
    MostlyQ5_1,
}

/// The code that a GGML header stores for `ft`.
pub open spec fn file_type_code(ft: FileType) -> i32 {
    match ft {
        FileType::F32 => 0,
        FileType::MostlyF16 => 1,
        FileType::MostlyQ4_0 => 2,
        FileType::MostlyQ4_1 => 3,
        FileType::MostlyQ4_1SomeF16 => 4,
        FileType::MostlyQ4_2 => 5,
        FileType::MostlyQ8_0 => 7,
        FileType::MostlyQ5_0 => 8,
        FileType::MostlyQ5_1 => 9,
    }
}

/// The file type that a GGML header code stands for, if any.
pub open spec fn file_type_from_code(code: i32) -> Option<FileType> {
    if code == 0 {
        Some(FileType::F32)
    } else if code == 1 {
        Some(FileType::MostlyF16)
    } else if code == 2 {
        Some(FileType::MostlyQ4_0)
    } else if code == 3 {
        Some(FileType::MostlyQ4_1)
    } else if code == 4 {
        Some(FileType::MostlyQ4_1SomeF16)
    } else if code == 5 {
        Some(FileType::MostlyQ4_2)
    } else if code == 7 {
        Some(FileType::MostlyQ8_0)
    } else if code == 8 {
        Some(FileType::MostlyQ5_0)
    } else if code == 9 {
        Some(FileType::MostlyQ5_1)
    } else {
        None
    }
}

/// Calls `TryFrom<i32>` of `llm_base::FileType` and tells its variants apart.
/// Trusted, not proved: llm-base maps the codes 0, 1, 2, 3, 4, 5, 7, 8, 9 to
/// its variants in the order of their declaration and every other code to an
/// error, which is what `file_type_from_code` states.
#[verifier::external_body]
fn llm_file_type_from_code(code: i32) -> (r: Option<FileType>)
    ensures
        r == file_type_from_code(code),
{
    match LlmFileType::try_from(code) {
        Ok(LlmFileType::F32) => Some(FileType::F32),
        Ok(LlmFileType::MostlyF16) => Some(FileType::MostlyF16),
        Ok(LlmFileType::MostlyQ4_0) => Some(FileType::MostlyQ4_0),
        Ok(LlmFileType::MostlyQ4_1) => Some(FileType::MostlyQ4_1),
        Ok(LlmFileType::MostlyQ4_1SomeF16) => Some(FileType::MostlyQ4_1SomeF16),
        Ok(LlmFileType::MostlyQ4_2) => Some(FileType::MostlyQ4_2),
        Ok(LlmFileType::MostlyQ8_0) => Some(FileType::MostlyQ8_0),
        Ok(LlmFileType::MostlyQ5_0) => Some(FileType::MostlyQ5_0),
        Ok(LlmFileType::MostlyQ5_1) => Some(FileType::MostlyQ5_1),
        Err(()) => None,
    }
}

/// Calls `From<llm_base::FileType> for i32` on the variant of the same name.
/// Trusted, not proved: llm-base maps its variants, in the order of their
/// declaration, to 0, 1, 2, 3, 4, 5, 7, 8, 9, which is what `file_type_code`
/// states.
#[verifier::external_body]
fn llm_file_type_code(ft: FileType) -> (c: i32)
    ensures
        c == file_type_code(ft),
{
    i32::from(match ft {
        FileType::F32 => LlmFileType::F32,
        FileType::MostlyF16 => LlmFileType::MostlyF16,
        FileType::MostlyQ4_0 => LlmFileType::MostlyQ4_0,
        FileType::MostlyQ4_1 => LlmFileType::MostlyQ4_1,
        FileType::MostlyQ4_1SomeF16 => LlmFileType::MostlyQ4_1SomeF16,
        FileType::MostlyQ4_2 => LlmFileType::MostlyQ4_2,
        FileType::MostlyQ8_0 => LlmFileType::MostlyQ8_0,
        FileType::MostlyQ5_0 => LlmFileType::MostlyQ5_0,
        FileType::MostlyQ5_1 => LlmFileType::MostlyQ5_1,
    })
}

/// Calls `Default::default` of `llm_base::FileType` and tells its variants
/// apart. Trusted, not proved: llm-base marks `MostlyF16` as its default
/// variant.
#[verifier::external_body]
fn llm_default_file_type() -> (ft: FileType)
    ensures
        ft == FileType::MostlyF16,
{
    match LlmFileType::default() {
        LlmFileType::F32 => FileType::F32,
        LlmFileType::MostlyF16 => FileType::MostlyF16,
        LlmFileType::MostlyQ4_0 => FileType::MostlyQ4_0,
        LlmFileType::MostlyQ4_1 => FileType::MostlyQ4_1,
        LlmFileType::MostlyQ4_1SomeF16 => FileType::MostlyQ4_1SomeF16,
        LlmFileType::MostlyQ4_2 => FileType::MostlyQ4_2,
        LlmFileType::MostlyQ8_0 => FileType::MostlyQ8_0,
        LlmFileType::MostlyQ5_0 => FileType::MostlyQ5_0,
        LlmFileType::MostlyQ5_1 => FileType::MostlyQ5_1,
    }
}

impl FileType {
    /// The file type that the header code `code` stands for; `None` for a
    /// code that names no file type.
    pub fn from_code(code: i32) -> (r: Option<FileType>)
        ensures
            r == file_type_from_code(code),
    {
        llm_file_type_from_code(code)
    }

    /// The code under which a GGML header records this file type.
    pub fn code(self) -> (c: i32)
        ensures
            c == file_type_code(self),
    {
        llm_file_type_code(self)
    }
}

impl Default for FileType {
    fn default() -> (ft: FileType)
        ensures
            ft == FileType::MostlyF16,
    {
        llm_default_file_type()
    }
}

/// The code of each file type, and the file type of each code: 0 to 5 name
/// `F32`, `MostlyF16`, `MostlyQ4_0`, `MostlyQ4_1`, `MostlyQ4_1SomeF16` and
/// `MostlyQ4_2`, 7 to 9 name `MostlyQ8_0`, `MostlyQ5_0` and `MostlyQ5_1`, and
/// no other code names a file type.
pub proof fn lemma_file_type_codes(code: i32)
    ensures
        file_type_code(FileType::F32) == 0,
        file_type_code(FileType::MostlyF16) == 1,
        file_type_code(FileType::MostlyQ4_0) == 2,
        file_type_code(FileType::MostlyQ4_1) == 3,
        file_type_code(FileType::MostlyQ4_1SomeF16) == 4,
        file_type_code(FileType::MostlyQ4_2) == 5,
        file_type_code(FileType::MostlyQ8_0) == 7,
        file_type_code(FileType::MostlyQ5_0) == 8,
        file_type_code(FileType::MostlyQ5_1) == 9,
        file_type_from_code(code) is Some <==> (0 <= code <= 5 || 7 <= code <= 9),
        file_type_from_code(code) matches Some(ft) ==> file_type_code(ft) == code,
{
}

/// A file type survives being recorded as its code and read back.
pub proof fn lemma_code_roundtrip(ft: FileType)
    ensures
        file_type_from_code(file_type_code(ft)) == Some(ft),
{
}

/// A code that names a file type is the code of that file type.
pub proof fn lemma_from_code_roundtrip(code: i32)
    requires
        file_type_from_code(code) is Some,
    ensures
        file_type_code(file_type_from_code(code).unwrap()) == code,
{
}

} // verus!
