//! The data model: identities, launch records, launch events and the error
//! taxonomy of the recorder.

use vstd::prelude::*;

verus! {

/// A 32-byte public-key-like identifier, as used for wallets and token mints.
///
/// The recorder treats it as opaque: it never validates or transforms the
/// bytes, it only stores and republishes them.
#[derive(Clone, Copy, Debug, PartialEq, Eq)]
pub struct Identity {
    pub bytes: [u8; 32],
}

/// One persisted launch record: who launched, which mint, and when.
///
/// A record is written once, atomically, and never mutated or deleted.
#[derive(Clone, Copy, Debug, PartialEq, Eq)]
pub struct LaunchRecord {
    /// The wallet that launched the token.
    pub launcher: Identity,
    /// The mint address of the launched token.
    pub mint: Identity,
    /// Unix timestamp (seconds) when the token was launched.
    pub timestamp: i64,
}

impl LaunchRecord {
    /// The persisted payload is 72 bytes: launcher, mint and timestamp in
    /// fixed order (the storage substrate may add a fixed header on top).
    pub const SIZE: usize = 32 + 32 + 8;
}

/// The event published for a launch: it mirrors the record's three fields and
/// is emitted exactly once per successful launch, never independently.
#[derive(Clone, Copy, Debug, PartialEq, Eq)]
pub struct TokenLaunched {
    /// The wallet that launched the token.
    pub launcher: Identity,
    /// The mint address of the launched token.
    pub mint: Identity,
    /// Unix timestamp (seconds) when the token was launched.
    pub timestamp: i64,
}

/// The event that mirrors a record: same launcher, same mint, same timestamp.
pub open spec fn event_of(rec: LaunchRecord) -> TokenLaunched {
    TokenLaunched { launcher: rec.launcher, mint: rec.mint, timestamp: rec.timestamp }
}

/// The failure conditions a caller can observe.
#[derive(Clone, Copy, Debug, PartialEq, Eq, Structural)]
pub enum PepelabError {
    /// Reserved for future validation of the mint identifier; no implemented
    /// path returns it.
    InvalidMint,
    /// Reserved for future validation of the launcher identifier; no
    /// implemented path returns it.
    InvalidLauncher,
    /// The trusted clock source was unavailable at write time.
    TimestampError,
    /// The target storage slot could not be allocated: it is already occupied.
    AllocationError,
}

impl PepelabError {
    /// A human-readable description of the error, for reporting at the call
    /// boundary.
    pub fn message(&self) -> (r: String)
        ensures
            self is InvalidMint ==> r@ == "Invalid mint address provided"@,
            self is InvalidLauncher ==> r@ == "Invalid launcher address"@,
            self is TimestampError ==> r@ == "Timestamp error"@,
            self is AllocationError ==> r@ == "Storage slot could not be allocated"@,
    {
        match self {
            PepelabError::InvalidMint => "Invalid mint address provided".to_owned(),
            PepelabError::InvalidLauncher => "Invalid launcher address".to_owned(),
            PepelabError::TimestampError => "Timestamp error".to_owned(),
            PepelabError::AllocationError => "Storage slot could not be allocated".to_owned(),
        }
    }
}

} // verus!
