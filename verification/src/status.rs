//! The closed set of status codes that may cross the native boundary.
//!
//! Exactly one of these integers is produced per invocation; callers see
//! nothing richer. The set is closed by design: richer diagnostics go to the
//! local log, never across the boundary.

use vstd::prelude::*;

verus! {

/// Transcode completed and the output was written.
pub const STATUS_SUCCESS: i32 = 0;

/// The transcoding routine is not implemented in this build; the caller must
/// fall back to an alternate transcoder.
pub const STATUS_FALLBACK: i32 = -1;

/// One or both path arguments were absent.
pub const STATUS_NULL_ARGUMENT: i32 = -2;

/// The input path was present but not decodable as valid text.
pub const STATUS_INPUT_NOT_UTF8: i32 = -3;

/// The output path was present but not decodable as valid text.
pub const STATUS_OUTPUT_NOT_UTF8: i32 = -4;

/// An internal fault was intercepted at the boundary.
pub const STATUS_INTERNAL_FAULT: i32 = -99;

/// True of exactly the codes that an invocation may report.
pub open spec fn is_status_code(c: int) -> bool {
    c == STATUS_SUCCESS || c == STATUS_FALLBACK || c == STATUS_NULL_ARGUMENT
        || c == STATUS_INPUT_NOT_UTF8 || c == STATUS_OUTPUT_NOT_UTF8
        || c == STATUS_INTERNAL_FAULT
}

} // verus!
