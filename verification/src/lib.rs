//! A token-vesting ledger. A grant gives a beneficiary a total amount of a
//! token that unlocks linearly between a start and an end time, with a cliff
//! before which nothing unlocks. An admin creates and funds the grant; the
//! beneficiary claims what is unlocked and not yet claimed.
//!
//! The ledger decides and keeps the record. It moves no tokens and
//! allocates no storage itself: an operation that succeeds says what the
//! host is to do.
//!
//! - [`schedule`]: how much is unlocked at a given time.
//! - [`state`]: the grant record, its invariants, its layout in storage.
//! - [`guard`]: the checks that stand before every change.
//! - [`address`]: identities, and the identity derived for a grant.
//! - [`instruction`]: the requests and their encoding.
//! - [`processor`]: the three operations on their accounts.
//! - [`entrypoint`]: a request as bytes, with its accounts by position.
//! - [`bytes`]: little-endian numbers in byte strings.
//! - [`errors`]: why an operation is turned down.

pub mod address;
pub mod bytes;
pub mod entrypoint;
pub mod errors;
pub mod guard;
pub mod instruction;
pub mod processor;
pub mod schedule;
pub mod state;
