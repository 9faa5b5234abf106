use vstd::prelude::*;

verus! {

/// Declares the failure crate's general error type so that it can appear in
/// the signature of `Messg`.  The value is opaque.
#[verifier::external_type_specification]
#[verifier::external_body]
pub struct ExFailureError(failure::Error);

/// A message that can be sent to an indicator device.
///
/// Implementors supply their own device handling; nothing is assumed about
/// what `send` does.
pub trait Messg: Send + Sync {
    /// Sends the message to the device.
    fn send(&self) -> Result<(), failure::Error>;
}

} // verus!
