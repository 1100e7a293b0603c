//! The transcode operation: validate a transcode request and dispatch it,
//! through the safe call gateway, to the transcoding routine.
//!
//! A request carries two externally supplied, untrusted path arguments. The
//! checks run in a fixed order, cheapest and most certain first: presence of
//! both arguments, then decodability of the input path, then of the output
//! path. Each stage reports its own status code so the caller can localize
//! the failing argument. In the current generation the transcoding routine
//! itself is unimplemented, so a fully valid request is answered with the
//! fallback code, instructing the caller to use an alternate transcoder.

use vstd::prelude::*;
use crate::gateway::safe_call;
use crate::status::{
    STATUS_FALLBACK,
    STATUS_INPUT_NOT_UTF8,
    STATUS_NULL_ARGUMENT,
    STATUS_OUTPUT_NOT_UTF8,
    STATUS_SUCCESS,
    is_status_code,
};
use crate::utf8::{is_utf8, is_valid_utf8};

verus! {

/// The byte sequences of a request's two path arguments, absent where the
/// caller passed no argument.
pub open spec fn opt_bytes_view(o: Option<Vec<u8>>) -> Option<Seq<u8>> {
    match o {
        Option::Some(v) => Option::Some(v@),
        Option::None => Option::None,
    }
}

/// The status code owed for a transcode request in the current generation:
/// the missing-argument code when either path argument is absent; otherwise
/// the input-decode-error code when the input path is not valid text; then
/// the output-decode-error code when the output path is not; and for a
/// fully valid request the fallback code, since the transcoding routine is
/// not implemented in this build.
pub open spec fn transcode_status(input: Option<Seq<u8>>, output: Option<Seq<u8>>) -> int {
    if input is None || output is None {
        STATUS_NULL_ARGUMENT as int
    } else if !is_utf8(input->0) {
        STATUS_INPUT_NOT_UTF8 as int
    } else if !is_utf8(output->0) {
        STATUS_OUTPUT_NOT_UTF8 as int
    } else {
        STATUS_FALLBACK as int
    }
}

/// Transcode a video clip read from the input path, writing the result at
/// the output path.
///
/// The sole observable output is one status code from the closed set, and
/// it is exactly `transcode_status` of the two arguments: absent argument,
/// undecodable input path, undecodable output path, or — for a valid
/// request in this build — the instruction to fall back to an alternate
/// transcoder.
pub fn transcode_15s(input: Option<Vec<u8>>, output: Option<Vec<u8>>) -> (r: i32)
    ensures
        r as int == transcode_status(opt_bytes_view(input), opt_bytes_view(output)),
{
    let ghost vi = opt_bytes_view(input);
    let ghost vo = opt_bytes_view(output);
    let work = move || -> (code: i32)
        ensures
            code as int == transcode_status(vi, vo),
        { validate_and_dispatch(input, output) };
    safe_call(work)
}

/// One run through the operation's stages: validate the two path arguments
/// in order, then dispatch to the (currently unimplemented) transcoding
/// routine.
fn validate_and_dispatch(input: Option<Vec<u8>>, output: Option<Vec<u8>>) -> (r: i32)
    ensures
        r as int == transcode_status(opt_bytes_view(input), opt_bytes_view(output)),
{
    let input_bytes = match input {
        Option::Some(v) => v,
        Option::None => { return STATUS_NULL_ARGUMENT; },
    };
    let output_bytes = match output {
        Option::Some(v) => v,
        Option::None => { return STATUS_NULL_ARGUMENT; },
    };
    if !is_valid_utf8(&input_bytes) {
        return STATUS_INPUT_NOT_UTF8;
    }
    if !is_valid_utf8(&output_bytes) {
        return STATUS_OUTPUT_NOT_UTF8;
    }
    STATUS_FALLBACK
}

/// Every status an invocation reports is drawn from the closed set, and in
/// this generation it is never the success code: the transcoding routine is
/// not implemented, so success cannot be claimed.
pub proof fn lemma_status_in_closed_set(input: Option<Seq<u8>>, output: Option<Seq<u8>>)
    ensures
        is_status_code(transcode_status(input, output)),
        transcode_status(input, output) != STATUS_SUCCESS as int,
{
}

/// An absent path argument is answered with the missing-argument code,
/// whatever the other argument holds.
pub proof fn lemma_absent_argument(input: Option<Seq<u8>>, output: Option<Seq<u8>>)
    requires
        input is None || output is None,
    ensures
        transcode_status(input, output) == STATUS_NULL_ARGUMENT as int,
{
}

/// A present but undecodable input path is answered with the input-decode
/// error code, even where the output path is also invalid: the input is
/// checked first.
pub proof fn lemma_input_checked_first(input: Option<Seq<u8>>, output: Option<Seq<u8>>)
    requires
        input is Some,
        output is Some,
        !is_utf8(input->0),
    ensures
        transcode_status(input, output) == STATUS_INPUT_NOT_UTF8 as int,
{
}

/// Where the input path decodes and the output path does not, the answer is
/// the output-decode error code.
pub proof fn lemma_output_checked_second(input: Option<Seq<u8>>, output: Option<Seq<u8>>)
    requires
        input is Some,
        output is Some,
        is_utf8(input->0),
        !is_utf8(output->0),
    ensures
        transcode_status(input, output) == STATUS_OUTPUT_NOT_UTF8 as int,
{
}

/// A fully valid request — both arguments present and decodable — is always
/// answered with the fallback code in this generation: never success, never
/// an argument error.
pub proof fn lemma_valid_request_falls_back(input: Option<Seq<u8>>, output: Option<Seq<u8>>)
    requires
        input is Some,
        output is Some,
        is_utf8(input->0),
        is_utf8(output->0),
    ensures
        transcode_status(input, output) == STATUS_FALLBACK as int,
{
}

} // verus!
