//! Library side of a plugin bridge: the host drives a plugin through a small
//! C-style lifecycle (create, input, run, output, destroy) and hands paths
//! across the boundary as raw byte strings.  This crate holds the verified
//! logic of that bridge: UTF-8 decoding of incoming paths, the decision rules
//! for each lifecycle call, and the string helpers the host runtime offers to
//! plugin code.  The unverifiable boundary itself (raw pointers, the actual
//! plugin calls) lives outside and consumes these functions.

pub mod bridge;
pub mod codec;
pub mod shim;

pub use bridge::PluginManager;
pub use codec::decode_path;
pub use shim::dispatch;
pub use shim::HostCall;
pub use shim::ShimAction;
