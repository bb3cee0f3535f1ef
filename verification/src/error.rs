//! Error taxonomy of the bridge.
//!
//! Every adapter operation returns a `Result` with one of these errors;
//! none of the verified operations panics on a boundary failure.

use vstd::prelude::*;

verus! {

/// The ways a boundary operation can fail.
///
/// - `RuntimeAttachFailed`: the calling thread could not be bound into the
///   host runtime (attachment error; fatal to the triggering operation only).
/// - `ClassNotFound`: a required host type descriptor is missing from the
///   descriptor cache (resolution error), carrying the requested type name.
/// - `StaticMethodFailed`: a host-side static lookup call failed (resolution
///   error), carrying the target class, the method name and its signature.
/// - `MethodCallFailed`: a boundary call itself failed (invocation error),
///   carrying the host method name.
/// - `StringMarshalFailed`: a session-description string could not be turned
///   into a host string object.
/// - `NullConnectionObject`: the host connection factory returned an absent
///   object where a concrete one was required (null-result error).
/// - `GlobalRefFailed`: a host object could not be pinned for use beyond
///   the current boundary call.
/// - `MediaStreamWrapFailed`: a native media stream could not be wrapped
///   into a host media-stream object.
/// - `ListBuildFailed`: an ordered host collection could not be constructed
///   or extended.
#[derive(Clone, Debug, PartialEq, Eq)]
pub enum BridgeError {
    RuntimeAttachFailed,
    ClassNotFound(String),
    StaticMethodFailed(String, String, String),
    MethodCallFailed(String),
    StringMarshalFailed,
    NullConnectionObject,
    GlobalRefFailed,
    MediaStreamWrapFailed,
    ListBuildFailed,
}

} // verus!
