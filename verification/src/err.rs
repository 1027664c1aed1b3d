use vstd::prelude::*;

verus! {

/// Errors surfaced by the core protocol operations: decoding failures and
/// failures of the cryptographic operations themselves.
#[derive(Clone, Copy, Debug, PartialEq, Eq, Structural)]
pub enum HpkeError {
    /// A byte buffer could not be decoded into the concrete form a backend
    /// requires (wrong length or invalid encoding).
    Decode,
    /// A key-derivation output length was requested that the primitive
    /// cannot produce.
    KdfInvalidLength,
    /// An authenticated-encryption operation rejected its input.
    Seal,
    /// An authenticated-decryption operation failed to authenticate.
    Open,
    /// The encryption context's message-sequence space is exhausted.
    SequenceExhausted,
}

/// Errors surfaced by the runtime algorithm-agility layer.
#[derive(Clone, Copy, Debug, PartialEq, Eq)]
pub enum AgileHpkeError {
    /// Two places declared different algorithms for material that must agree.
    /// The payload is `((alg1, alg1_location), (alg2, alg2_location))`.
    AlgMismatch((&'static str, &'static str), (&'static str, &'static str)),
    /// An algorithm identifier outside the closed registry.
    /// The payload is `(family, given_id)`.
    UnknownAlgIdent(&'static str, u16),
    /// The requested algorithm triple is structurally consistent but not
    /// compiled into the dispatch table.
    UnsupportedCombination,
    /// A wrapped error from the core protocol operations.
    HpkeError(HpkeError),
}

impl AgileHpkeError {
    /// Wraps a core error, as the agility layer reports it.
    pub fn from_hpke(e: HpkeError) -> (r: AgileHpkeError)
        ensures
            r == AgileHpkeError::HpkeError(e),
    {
        AgileHpkeError::HpkeError(e)
    }
}

} // verus!
