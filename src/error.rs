use vstd::prelude::*;

verus! {

/// Failures that any operation of the library reports to its caller.
#[derive(Debug)]
pub enum Error {
    /// Connecting, the protocol handshake or authentication failed.
    Transport(String),
    /// A command's output could not be decoded or a numeric field did not parse; holds that output.
    Command(String),
    /// The requested capability has no strategy for the active backend kind.
    StrategyNotDefined,
    /// An `Output` accessor was used against another variant.
    TypeMismatch,
    /// No platform of the registry matched.
    PlatformUnknown,
    /// The operation has no implementation on this platform.
    NotImplemented,
    /// The handle does not name a live backend (never created, or already destroyed).
    HandleNotLive,
}

} // verus!
