//! Why an operation on a grant is turned down.

use vstd::prelude::*;

verus! {

/// The reasons for which an operation fails. An operation that fails changes
/// nothing.
#[derive(Clone, Copy, Debug, PartialEq, Eq)]
pub enum VestingError {
    /// The request names no operation, or one that does not exist.
    InvalidOpcode,
    /// The request is cut short or asks for a grant that cannot be: no
    /// amount, or times out of order.
    InvalidArgument,
    /// The identity that must authorize the operation has not signed.
    MissingSignature,
    /// The addressed record is not a grant that this program manages.
    InvalidOwner,
    /// The admin, beneficiary or mint supplied is not the one of the grant.
    FieldMismatch,
    /// The record's identity is not the one derived for this grant.
    AddressDerivationMismatch,
    /// The record's identity already holds data.
    AlreadyExists,
    /// The vault already holds tokens.
    AlreadyFunded,
    /// The vault holds no tokens.
    NotFunded,
    /// Nothing is unlocked that has not been claimed already.
    NothingToClaim,
    /// The claimed amount does not fit the record.
    Overflow,
}

} // verus!
