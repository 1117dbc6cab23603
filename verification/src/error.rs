//! Why an escrow operation was turned down.

use vstd::prelude::*;

verus! {

/// The ways in which locking or redeeming can fail. Every one of them is an
/// ordinary outcome that the caller may act upon; none leaves the escrow
/// changed.
#[derive(Clone, Copy, Debug, PartialEq, Eq, Structural)]
pub enum Error {
    /// A deposit is already held.
    AssetsAlreadyLocked,
    /// Nothing was sent along with the request to lock.
    NoAssetsSent,
    /// The caller is not the account that holds the deposit; this is also the
    /// answer when no deposit is held at all.
    NotLocker,
    /// The phrase presented is not the agreed one.
    IncorrectMessage,
    /// The balance could not be moved back to its owner.
    TransferFailed,
}

impl Error {
    /// The number that stands for the error where it is encoded.
    pub open spec fn spec_code(self) -> u8 {
        match self {
            Error::AssetsAlreadyLocked => 0,
            Error::NoAssetsSent => 1,
            Error::NotLocker => 2,
            Error::IncorrectMessage => 3,
            Error::TransferFailed => 4,
        }
    }

    /// The number that stands for the error where it is encoded.
    #[verifier::when_used_as_spec(spec_code)]
    pub fn code(self) -> (code: u8)
        ensures
            code == self.spec_code(),
    {
        match self {
            Error::AssetsAlreadyLocked => 0,
            Error::NoAssetsSent => 1,
            Error::NotLocker => 2,
            Error::IncorrectMessage => 3,
            Error::TransferFailed => 4,
        }
    }

    /// The error that `code` stands for, if it stands for any.
    pub fn from_code(code: u8) -> (error: Option<Error>)
        ensures
            error matches Some(e) ==> e.spec_code() == code,
            error is None <==> code > 4,
    {
        match code {
            0 => Some(Error::AssetsAlreadyLocked),
            1 => Some(Error::NoAssetsSent),
            2 => Some(Error::NotLocker),
            3 => Some(Error::IncorrectMessage),
            4 => Some(Error::TransferFailed),
            _ => None,
        }
    }

    /// No two errors share a number.
    pub proof fn lemma_code_injective(self, other: Error)
        ensures
            self.spec_code() == other.spec_code() <==> self == other,
    {
    }
}

} // verus!
