//! Build-time helper logic for fetching a remote ZIP archive and unpacking
//! it, with a one-level nested-archive special case.
//!
//! The decisions of the helper live here as verified code: which downloader
//! binary to invoke for a build target, the exact argument list handed to it,
//! how a process exit is classified, how paths are joined, and when a freshly
//! extracted directory triggers the nested-archive step. The driver that
//! actually spawns the downloader and touches the filesystem performs each
//! [`session::Action`] it is handed and reports the outcome back as a
//! [`session::Event`].

use vstd::prelude::*;

pub mod fetch;
pub mod session;
pub mod unpack;

verus! {

/// Relies on `String::push_str`: appends the slice's characters to the end of
/// the string.
pub assume_specification[ String::push_str ](s: &mut String, other: &str)
    ensures
        final(s)@ == old(s)@ + other@,
;

} // verus!
