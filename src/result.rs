//! Status codes reported by the reflection engine, and the errors of this library.
use vstd::prelude::*;

verus! {

pub const RESULT_SUCCESS: i32 = 0;
pub const RESULT_NOT_READY: i32 = 1;
pub const RESULT_ERROR_PARSE_FAILED: i32 = 2;
pub const RESULT_ERROR_ALLOC_FAILED: i32 = 3;
pub const RESULT_ERROR_RANGE_EXCEEDED: i32 = 4;
pub const RESULT_ERROR_NULL_POINTER: i32 = 5;
pub const RESULT_ERROR_INTERNAL_ERROR: i32 = 6;
pub const RESULT_ERROR_COUNT_MISMATCH: i32 = 7;
pub const RESULT_ERROR_ELEMENT_NOT_FOUND: i32 = 8;
pub const RESULT_ERROR_SPIRV_INVALID_CODE_SIZE: i32 = 9;
pub const RESULT_ERROR_SPIRV_INVALID_MAGIC_NUMBER: i32 = 10;
pub const RESULT_ERROR_SPIRV_UNEXPECTED_EOF: i32 = 11;
pub const RESULT_ERROR_SPIRV_INVALID_ID_REFERENCE: i32 = 12;
pub const RESULT_ERROR_SPIRV_SET_NUMBER_OVERFLOW: i32 = 13;
pub const RESULT_ERROR_SPIRV_INVALID_STORAGE_CLASS: i32 = 14;
pub const RESULT_ERROR_SPIRV_RECURSION: i32 = 15;
pub const RESULT_ERROR_SPIRV_INVALID_INSTRUCTION: i32 = 16;
pub const RESULT_ERROR_SPIRV_UNEXPECTED_BLOCK_DATA: i32 = 17;
pub const RESULT_ERROR_SPIRV_INVALID_BLOCK_MEMBER_REFERENCE: i32 = 18;
pub const RESULT_ERROR_SPIRV_INVALID_ENTRY_POINT: i32 = 19;
pub const RESULT_ERROR_SPIRV_INVALID_EXECUTION_MODE: i32 = 20;

/// The text that describes a status code; codes this library does not know
/// share one generic text.
pub open spec fn result_text(code: i32) -> Seq<char> {
    if code == RESULT_SUCCESS {
        "SPV_REFLECT_RESULT_SUCCESS"@
    } else if code == RESULT_NOT_READY {
        "SPV_REFLECT_RESULT_NOT_READY"@
    } else if code == RESULT_ERROR_PARSE_FAILED {
        "SPV_REFLECT_RESULT_ERROR_PARSE_FAILED"@
    } else if code == RESULT_ERROR_ALLOC_FAILED {
        "SPV_REFLECT_RESULT_ERROR_ALLOC_FAILED"@
    } else if code == RESULT_ERROR_RANGE_EXCEEDED {
        "SPV_REFLECT_RESULT_ERROR_RANGE_EXCEEDED"@
    } else if code == RESULT_ERROR_NULL_POINTER {
        "SPV_REFLECT_RESULT_ERROR_NULL_POINTER"@
    } else if code == RESULT_ERROR_INTERNAL_ERROR {
        "SPV_REFLECT_RESULT_ERROR_INTERNAL_ERROR"@
    } else if code == RESULT_ERROR_COUNT_MISMATCH {
        "SPV_REFLECT_RESULT_ERROR_COUNT_MISMATCH"@
    } else if code == RESULT_ERROR_ELEMENT_NOT_FOUND {
        "SPV_REFLECT_RESULT_ERROR_ELEMENT_NOT_FOUND"@
    } else if code == RESULT_ERROR_SPIRV_INVALID_CODE_SIZE {
        "SPV_REFLECT_RESULT_ERROR_SPIRV_INVALID_CODE_SIZE"@
    } else if code == RESULT_ERROR_SPIRV_INVALID_MAGIC_NUMBER {
        "SPV_REFLECT_RESULT_ERROR_SPIRV_INVALID_MAGIC_NUMBER"@
    } else if code == RESULT_ERROR_SPIRV_UNEXPECTED_EOF {
        "SPV_REFLECT_RESULT_ERROR_SPIRV_UNEXPECTED_EOF"@
    } else if code == RESULT_ERROR_SPIRV_INVALID_ID_REFERENCE {
        "SPV_REFLECT_RESULT_ERROR_SPIRV_INVALID_ID_REFERENCE"@
    } else if code == RESULT_ERROR_SPIRV_SET_NUMBER_OVERFLOW {
        "SPV_REFLECT_RESULT_ERROR_SPIRV_SET_NUMBER_OVERFLOW"@
    } else if code == RESULT_ERROR_SPIRV_INVALID_STORAGE_CLASS {
        "SPV_REFLECT_RESULT_ERROR_SPIRV_INVALID_STORAGE_CLASS"@
    } else if code == RESULT_ERROR_SPIRV_RECURSION {
        "SPV_REFLECT_RESULT_ERROR_SPIRV_RECURSION"@
    } else if code == RESULT_ERROR_SPIRV_INVALID_INSTRUCTION {
        "SPV_REFLECT_RESULT_ERROR_SPIRV_INVALID_INSTRUCTION"@
    } else if code == RESULT_ERROR_SPIRV_UNEXPECTED_BLOCK_DATA {
        "SPV_REFLECT_RESULT_ERROR_SPIRV_UNEXPECTED_BLOCK_DATA"@
    } else if code == RESULT_ERROR_SPIRV_INVALID_BLOCK_MEMBER_REFERENCE {
        "SPV_REFLECT_RESULT_ERROR_SPIRV_INVALID_BLOCK_MEMBER_REFERENCE"@
    } else if code == RESULT_ERROR_SPIRV_INVALID_ENTRY_POINT {
        "SPV_REFLECT_RESULT_ERROR_SPIRV_INVALID_ENTRY_POINT"@
    } else if code == RESULT_ERROR_SPIRV_INVALID_EXECUTION_MODE {
        "SPV_REFLECT_RESULT_ERROR_SPIRV_INVALID_EXECUTION_MODE"@
    } else {
        "SPV_REFLECT_RESULT_UNKNOWN"@
    }
}

/// Renders an engine status code as stable, human-readable text.
pub fn result_to_string(code: i32) -> (r: &'static str)
    ensures
        r@ == result_text(code),
{
    if code == RESULT_SUCCESS {
        "SPV_REFLECT_RESULT_SUCCESS"
    } else if code == RESULT_NOT_READY {
        "SPV_REFLECT_RESULT_NOT_READY"
    } else if code == RESULT_ERROR_PARSE_FAILED {
        "SPV_REFLECT_RESULT_ERROR_PARSE_FAILED"
    } else if code == RESULT_ERROR_ALLOC_FAILED {
        "SPV_REFLECT_RESULT_ERROR_ALLOC_FAILED"
    } else if code == RESULT_ERROR_RANGE_EXCEEDED {
        "SPV_REFLECT_RESULT_ERROR_RANGE_EXCEEDED"
    } else if code == RESULT_ERROR_NULL_POINTER {
        "SPV_REFLECT_RESULT_ERROR_NULL_POINTER"
    } else if code == RESULT_ERROR_INTERNAL_ERROR {
        "SPV_REFLECT_RESULT_ERROR_INTERNAL_ERROR"
    } else if code == RESULT_ERROR_COUNT_MISMATCH {
        "SPV_REFLECT_RESULT_ERROR_COUNT_MISMATCH"
    } else if code == RESULT_ERROR_ELEMENT_NOT_FOUND {
        "SPV_REFLECT_RESULT_ERROR_ELEMENT_NOT_FOUND"
    } else if code == RESULT_ERROR_SPIRV_INVALID_CODE_SIZE {
        "SPV_REFLECT_RESULT_ERROR_SPIRV_INVALID_CODE_SIZE"
    } else if code == RESULT_ERROR_SPIRV_INVALID_MAGIC_NUMBER {
        "SPV_REFLECT_RESULT_ERROR_SPIRV_INVALID_MAGIC_NUMBER"
    } else if code == RESULT_ERROR_SPIRV_UNEXPECTED_EOF {
        "SPV_REFLECT_RESULT_ERROR_SPIRV_UNEXPECTED_EOF"
    } else if code == RESULT_ERROR_SPIRV_INVALID_ID_REFERENCE {
        "SPV_REFLECT_RESULT_ERROR_SPIRV_INVALID_ID_REFERENCE"
    } else if code == RESULT_ERROR_SPIRV_SET_NUMBER_OVERFLOW {
        "SPV_REFLECT_RESULT_ERROR_SPIRV_SET_NUMBER_OVERFLOW"
    } else if code == RESULT_ERROR_SPIRV_INVALID_STORAGE_CLASS {
        "SPV_REFLECT_RESULT_ERROR_SPIRV_INVALID_STORAGE_CLASS"
    } else if code == RESULT_ERROR_SPIRV_RECURSION {
        "SPV_REFLECT_RESULT_ERROR_SPIRV_RECURSION"
    } else if code == RESULT_ERROR_SPIRV_INVALID_INSTRUCTION {
        "SPV_REFLECT_RESULT_ERROR_SPIRV_INVALID_INSTRUCTION"
    } else if code == RESULT_ERROR_SPIRV_UNEXPECTED_BLOCK_DATA {
        "SPV_REFLECT_RESULT_ERROR_SPIRV_UNEXPECTED_BLOCK_DATA"
    } else if code == RESULT_ERROR_SPIRV_INVALID_BLOCK_MEMBER_REFERENCE {
        "SPV_REFLECT_RESULT_ERROR_SPIRV_INVALID_BLOCK_MEMBER_REFERENCE"
    } else if code == RESULT_ERROR_SPIRV_INVALID_ENTRY_POINT {
        "SPV_REFLECT_RESULT_ERROR_SPIRV_INVALID_ENTRY_POINT"
    } else if code == RESULT_ERROR_SPIRV_INVALID_EXECUTION_MODE {
        "SPV_REFLECT_RESULT_ERROR_SPIRV_INVALID_EXECUTION_MODE"
    } else {
        "SPV_REFLECT_RESULT_UNKNOWN"
    }
}

/// Why an operation of this library failed, with the engine's status code.
#[derive(Clone, Copy, Debug, PartialEq, Eq, Structural)]
pub enum ReflectError {
    /// The engine could not decode the shader binary.
    DecodeFailure(i32),
    /// The engine refused to enumerate the descriptor sets of a module.
    EnumerationFailure(i32),
}

impl ReflectError {
    /// The status code that the engine reported.
    pub fn code(&self) -> (r: i32)
        ensures
            r == match *self {
                ReflectError::DecodeFailure(c) => c,
                ReflectError::EnumerationFailure(c) => c,
            },
    {
        match *self {
            ReflectError::DecodeFailure(c) => c,
            ReflectError::EnumerationFailure(c) => c,
        }
    }

    /// Human-readable text for the status code carried by the error.
    pub fn message(&self) -> (r: &'static str)
        ensures
            r@ == result_text(match *self {
                ReflectError::DecodeFailure(c) => c,
                ReflectError::EnumerationFailure(c) => c,
            }),
    {
        result_to_string(self.code())
    }
}

} // verus!
