//! A safety boundary between a managed caller runtime and a native
//! video-transcoding routine.
//!
//! Every operation exposed across the boundary returns a plain status code
//! from a closed set ([`status`]), and an internal fault is intercepted at
//! the boundary and reported as a reserved sentinel code instead of
//! propagating into the caller ([`gateway`]). The sole operation of the
//! current generation is the transcode request ([`transcode`]), which
//! validates its two untrusted path arguments ([`utf8`]) and answers every
//! fully valid request with the fallback code while the transcoding routine
//! itself is unimplemented. [`version`] exposes build metadata for feature
//! detection and crash correlation.

pub mod gateway;
pub mod status;
pub mod transcode;
pub mod utf8;
pub mod version;
