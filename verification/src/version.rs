//! Feature and build introspection: a packed version code for feature
//! detection by the caller, and an optional build timestamp for crash
//! correlation.
//!
//! Both are stateless accessors over build-time constants. The version is
//! packed as `major * 10000 + minor * 100 + patch`, and the packing is
//! proved reversible, so a caller can recover the components from the code.

use vstd::prelude::*;
use vstd::arithmetic::div_mod::lemma_fundamental_div_mod_converse;

verus! {

/// Major component of this build's version.
pub const VERSION_MAJOR: i32 = 0;

/// Minor component of this build's version.
pub const VERSION_MINOR: i32 = 1;

/// Patch component of this build's version.
pub const VERSION_PATCH: i32 = 0;

/// The packed form of a version triple.
pub open spec fn packed_version(major: int, minor: int, patch: int) -> int {
    major * 10000 + minor * 100 + patch
}

/// The major component recovered from a packed version code.
pub open spec fn major_of(v: int) -> int {
    v / 10000
}

/// The minor component recovered from a packed version code.
pub open spec fn minor_of(v: int) -> int {
    (v % 10000) / 100
}

/// The patch component recovered from a packed version code.
pub open spec fn patch_of(v: int) -> int {
    v % 100
}

/// The version code of this build: the packed form of the version triple,
/// stable and deterministic for a given build.
pub fn heshur_transcoder_version() -> (v: i32)
    ensures
        v as int == packed_version(
            VERSION_MAJOR as int,
            VERSION_MINOR as int,
            VERSION_PATCH as int,
        ),
{
    VERSION_MAJOR * 10000 + VERSION_MINOR * 100 + VERSION_PATCH
}

/// The value embedded at build time when there is one, and the Unix epoch
/// otherwise.
pub open spec fn timestamp_or_default(embedded: Option<i64>) -> i64 {
    match embedded {
        Option::Some(t) => t,
        Option::None => 0,
    }
}

/// The build timestamp, in Unix-epoch seconds, reported across the
/// boundary: the value embedded at build time, or 0 where none was
/// embedded.
pub fn heshur_transcoder_build_timestamp(embedded: Option<i64>) -> (t: i64)
    ensures
        t == timestamp_or_default(embedded),
{
    match embedded {
        Option::Some(t) => t,
        Option::None => 0,
    }
}

/// Packing a version triple is reversible: unpacking the packed code
/// recovers exactly the major, minor and patch it was built from, for every
/// triple whose minor and patch fit their two decimal digits.
pub proof fn lemma_version_round_trip(major: int, minor: int, patch: int)
    requires
        0 <= major,
        0 <= minor < 100,
        0 <= patch < 100,
    ensures
        major_of(packed_version(major, minor, patch)) == major,
        minor_of(packed_version(major, minor, patch)) == minor,
        patch_of(packed_version(major, minor, patch)) == patch,
{
    let v = packed_version(major, minor, patch);
    lemma_fundamental_div_mod_converse(v, 10000, major, minor * 100 + patch);
    lemma_fundamental_div_mod_converse(minor * 100 + patch, 100, minor, patch);
    assert(major * 10000 + minor * 100 + patch == (major * 100 + minor) * 100 + patch)
        by (nonlinear_arith);
    lemma_fundamental_div_mod_converse(v, 100, major * 100 + minor, patch);
}

} // verus!
