use vstd::prelude::*;

verus! {

/// Which input of an instruction builder failed public-key validation.
#[derive(Clone, Copy, Debug, PartialEq, Eq, Structural)]
pub enum Field {
    From,
    To,
    MintAuthority,
    Mint,
    Destination,
    Authority,
    Owner,
}

/// Every failure the core can report. Each error is a deterministic function of
/// the inputs; no operation panics on inputs its contract admits.
#[derive(Clone, Copy, Debug, PartialEq, Eq, Structural)]
pub enum CoreError {
    /// A decoded key had the wrong length or the text used a bad alphabet.
    InvalidKeyFormat,
    /// Secret bytes do not reconstruct a consistent keypair.
    InvalidSecretKey,
    /// Malformed base58 or base64 text.
    DecodeError,
    /// A supplied public-key string failed validation; names the failing field.
    InvalidAddress(Field),
    /// A zero or out-of-range numeric argument.
    InvalidAmount,
    /// More than 9 decimal places requested for an asset class.
    InvalidDecimals,
    /// Every bump byte yielded an on-curve digest (effectively unreachable).
    NoValidAddress,
}

} // verus!
