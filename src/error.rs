use vstd::prelude::*;

verus! {

/// Which comparison of the equivalence oracle failed.
#[derive(Debug, Clone, Copy, PartialEq, Eq, Structural)]
pub enum OracleCheck {
    /// The wrap under the first IV differs from the encryption under it.
    FirstIvWrapMatchesEncrypt,
    /// The wraps under the two IVs are equal.
    WrapDependsOnIv,
    /// The wrap under the second IV differs from the encryption under it.
    SecondIvWrapMatchesEncrypt,
}

/// The ways a run can fail. Every failure ends the run at once.
#[derive(Debug, Clone, Copy, PartialEq, Eq, Structural)]
pub enum RunError {
    /// The provider module could not be loaded or initialized.
    ProviderLoad,
    /// No slot with a token is present.
    SlotUnavailable,
    /// The token could not be initialized, or a session could not be opened.
    TokenSetupFailure,
    /// A login or the setting of the user PIN failed.
    AuthFailure,
    /// Key generation failed.
    KeyGenFailure,
    /// Reading a key's value did not give exactly one value attribute.
    AttributeShapeMismatch,
    /// A wrap or an encryption failed.
    CryptoOperationFailure,
    /// The results disagree with the expected equivalences.
    OracleMismatch(OracleCheck),
}

} // verus!
