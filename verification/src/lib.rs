//! A verified safe-binding layer over a native multimedia library.
//!
//! The native library is reached through a C interface whose calls return
//! opaque handles, sentinel values and a global last-error message.  This
//! crate verifies the binding layer's own logic: every observable result of
//! a native call enters the library as a plain value (a handle, a status
//! code, a reported name), every lifecycle effect the library issues is
//! recorded in a [`native::CallLog`], and the contracts pin down how the
//! layer reacts to every possible native outcome — which outcomes become
//! typed errors, which handles are owned, and when each owned handle is
//! released.

use vstd::prelude::*;

pub mod audio;
pub mod color;
pub mod event;
pub mod geo;
pub mod native;
pub mod ttf;
pub mod video;

verus! {

/// The error taxonomy of the binding layer.
#[derive(Debug, PartialEq, Eq, Clone)]
pub enum SdlError {
    /// A native allocation failed; recognized from the last-error message.
    OutOfMemory,
    /// The native call reported that the operation is not supported for
    /// this configuration.
    UnsupportedFeature,
    /// Any other native failure, carrying the last-error message captured
    /// at the point of failure.
    Others { msg: String },
}

/// The result type of every fallible operation of the binding layer.
pub type SdlResult<T> = Result<T, SdlError>;

/// Whether a string can be handed to the native layer as a C string: it
/// must not contain an interior NUL character.  Handing a string with one
/// to the native layer is a programmer error, so the functions that
/// forward strings require this.
pub open spec fn c_string_safe(s: Seq<char>) -> bool {
    forall|i: int| 0 <= i < s.len() ==> s[i] != '\0'
}

/// Translates the last-error message of a failed native allocation into a
/// typed error.
///
/// The native layer signals out-of-memory only through the exact text of
/// its last-error message, so the fragile string comparison is isolated
/// here: should the native layer ever expose a structured error code, this
/// is the one function to replace.
pub fn classify_alloc_failure(msg: String) -> (e: SdlError)
    ensures
        msg@ == "Out of memory"@ ==> e == SdlError::OutOfMemory,
        msg@ != "Out of memory"@ ==> e == (SdlError::Others { msg: msg }),
{
    let oom: String = "Out of memory".to_owned();
    if msg == oom {
        SdlError::OutOfMemory
    } else {
        SdlError::Others { msg }
    }
}

} // verus!
