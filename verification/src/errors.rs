use vstd::prelude::*;

verus! {

/// Typed failures surfaced by the custody subsystem.
#[derive(Clone, Copy, Debug, PartialEq, Eq, Structural)]
pub enum Errors {
    /// A settlement-token balance cannot cover the required amount.
    InSufficientToken,
    /// A lamport balance cannot cover a required deposit.
    InSufficientSol,
    /// The token is already present in the whitelist.
    TokenAlreadyWhitelisted,
    /// The token is absent from the whitelist.
    TokenNotWhitelisted,
    /// The signer is not the recorded owner of the asset.
    UnauthorizedSigner,
}

} // verus!
