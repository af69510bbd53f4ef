use vstd::prelude::*;

verus! {

/// The engines exercised by the known-answer self test, in the order in
/// which they run.
#[derive(Clone, Copy, Debug, PartialEq, Eq, Structural)]
pub enum KatEngine {
    Sha256,
    Sha384,
    Sha384Acc,
    Ecc384,
    Hmac384,
}

/// Errors of the key vault, the engines and the lifecycle commands.
#[derive(Clone, Copy, Debug, PartialEq, Eq, Structural)]
pub enum CaliptraError {
    /// A slot was used by an engine whose capability its usage mask lacks.
    CapabilityConflict,
    /// A register or engine did not commit (here: an unknown slot handle).
    HardwareFault,
    /// Explicit key bytes of the wrong length.
    InvalidKeySize,
    /// A known-answer test did not produce its expected value.
    KatFailure(KatEngine),
    /// The fatal signal that ends the runtime after a shutdown.
    RuntimeShutdown,
}

pub type CaliptraResult<T> = Result<T, CaliptraError>;

} // verus!
