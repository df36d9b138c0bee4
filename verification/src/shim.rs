//! Decision rules of the plugin boundary.  The host drives a plugin through
//! create, input, run, output and destroy, passing an opaque handle and,
//! for input and output, a path as a raw byte string; either pointer may be
//! null.  The boundary has no error channel, so every bad argument degrades
//! to a no-op: a call with a null handle or a null path does nothing, and a
//! path whose bytes are not valid UTF-8 reaches the plugin as the empty
//! string.  `dispatch` fixes, for every call the host can make, what the
//! boundary layer must do with the plugin instance.

use vstd::prelude::*;

verus! {

use crate::codec::decode_path;
use crate::codec::decoded_or_empty;

/// One lifecycle call as it arrives from the host, after the raw pointers
/// are read: a path argument is `None` when the host passed a null pointer,
/// and the raw bytes of the string otherwise.
pub enum HostCall {
    Input { path: Option<Vec<u8>> },
    Run,
    Output { path: Option<Vec<u8>> },
    Destroy,
}

/// What the boundary layer must do with the plugin instance in answer to
/// one lifecycle call.
pub enum ShimAction {
    /// Do nothing: the host passed a null handle or a null path.
    Ignore,
    /// Call the instance's input operation with the decoded path.
    CallInput { path: String },
    /// Call the instance's run operation.
    CallRun,
    /// Call the instance's output operation with the decoded path.
    CallOutput { path: String },
    /// Reclaim and drop the instance; the handle is dead afterwards.
    DropInstance,
}

/// The action the boundary layer takes for one lifecycle call.
/// `handle_present` is false when the host passed a null handle; such a
/// call is ignored, as is an input or output call with a null path.
pub fn dispatch(handle_present: bool, call: HostCall) -> (action: ShimAction)
    ensures
        !handle_present ==> action == ShimAction::Ignore,
        handle_present ==> match call {
            HostCall::Input { path } => match path {
                None => action == ShimAction::Ignore,
                Some(bytes) => action matches ShimAction::CallInput { path: decoded }
                    && decoded@ == decoded_or_empty(bytes@),
            },
            HostCall::Run => action == ShimAction::CallRun,
            HostCall::Output { path } => match path {
                None => action == ShimAction::Ignore,
                Some(bytes) => action matches ShimAction::CallOutput { path: decoded }
                    && decoded@ == decoded_or_empty(bytes@),
            },
            HostCall::Destroy => action == ShimAction::DropInstance,
        },
{
    if !handle_present {
        return ShimAction::Ignore;
    }
    match call {
        HostCall::Input { path } => match path {
            None => ShimAction::Ignore,
            Some(bytes) => ShimAction::CallInput { path: decode_path(bytes.as_slice()) },
        },
        HostCall::Run => ShimAction::CallRun,
        HostCall::Output { path } => match path {
            None => ShimAction::Ignore,
            Some(bytes) => ShimAction::CallOutput { path: decode_path(bytes.as_slice()) },
        },
        HostCall::Destroy => ShimAction::DropInstance,
    }
}

} // verus!
