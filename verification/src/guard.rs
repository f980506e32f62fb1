//! The accounts that take part in an operation, and the checks that stand
//! before every change: who signed, whose record it is, and whether the
//! accounts supplied are those of the grant.

use crate::address::{same_key, Pubkey};
use crate::errors::VestingError;
use crate::state::{Grant, VestingAccount};
use vstd::prelude::*;

verus! {

/// The identity that authorizes an operation, and whether it has signed the
/// request.
#[derive(Clone, Copy, Debug, PartialEq, Eq)]
pub struct Signer {
    pub key: Pubkey,
    pub is_signer: bool,
}

/// A kind of token: its identity and the number of decimal places in which
/// its amounts are written.
#[derive(Clone, Copy, Debug, PartialEq, Eq)]
pub struct Mint {
    pub key: Pubkey,
    pub decimals: u8,
}

/// An account that holds tokens: its identity and its balance.
#[derive(Clone, Copy, Debug, PartialEq, Eq)]
pub struct TokenAccount {
    pub key: Pubkey,
    pub amount: u64,
}

/// An account of storage: its identity, the program that owns it, and the
/// bytes it holds.
#[derive(Clone, Debug, PartialEq, Eq)]
pub struct RecordAccount {
    pub key: Pubkey,
    pub owner: Pubkey,
    pub data: Vec<u8>,
}

impl RecordAccount {
    /// Whether the account holds a grant that `program_id` manages: the
    /// program owns it, and its bytes are the record of a grant.
    pub open spec fn managed_by(&self, program_id: Pubkey) -> bool {
        self.owner == program_id && Grant::is_record(self.data@)
    }

    /// The grant that the account holds.
    pub open spec fn grant(&self) -> Grant {
        Grant::decode(self.data@)
    }
}

/// Passes where the authorizing identity has signed; fails with
/// `MissingSignature` otherwise.
pub fn check_signer(signer: &Signer) -> (r: Result<(), VestingError>)
    ensures
        signer.is_signer ==> r == Ok::<(), VestingError>(()),
        !signer.is_signer ==> r == Err::<(), VestingError>(VestingError::MissingSignature),
{
    if signer.is_signer {
        Ok(())
    } else {
        Err(VestingError::MissingSignature)
    }
}

/// Reads the grant out of an account that `program_id` manages; fails with
/// `InvalidOwner` where another program owns the account, or where its bytes
/// are no record of a grant.
pub fn check_record(record: &RecordAccount, program_id: &Pubkey) -> (r: Result<
    VestingAccount,
    VestingError,
>)
    ensures
        record.managed_by(*program_id) ==> (r matches Ok(g) && g@ == record.grant()),
        !record.managed_by(*program_id) ==> r == Err::<VestingAccount, VestingError>(
            VestingError::InvalidOwner,
        ),
{
    if !same_key(&record.owner, program_id) {
        return Err(VestingError::InvalidOwner);
    }
    match VestingAccount::unpack(record.data.as_slice()) {
        Some(account) => Ok(account),
        None => Err(VestingError::InvalidOwner),
    }
}

/// Passes where the identity supplied with the request is the one that the
/// grant holds; fails with `FieldMismatch` otherwise.
pub fn check_field(supplied: &Pubkey, stored: &Pubkey) -> (r: Result<(), VestingError>)
    ensures
        supplied@ == stored@ ==> r == Ok::<(), VestingError>(()),
        supplied@ != stored@ ==> r == Err::<(), VestingError>(VestingError::FieldMismatch),
{
    if same_key(supplied, stored) {
        Ok(())
    } else {
        Err(VestingError::FieldMismatch)
    }
}

/// What a derivation gave, as contracts speak of it.
pub open spec fn key_view(derived: Option<Pubkey>) -> Option<Seq<u8>> {
    match derived {
        Some(key) => Some(key@),
        None => None,
    }
}

/// Passes where the derivation gave an identity and it is that of the
/// account; fails with `AddressDerivationMismatch` otherwise.
pub fn check_derived_address(derived: &Option<Pubkey>, key: &Pubkey) -> (r: Result<
    (),
    VestingError,
>)
    ensures
        key_view(*derived) == Some(key@) ==> r == Ok::<(), VestingError>(()),
        key_view(*derived) != Some(key@) ==> r == Err::<(), VestingError>(
            VestingError::AddressDerivationMismatch,
        ),
{
    match derived {
        Some(d) => {
            if same_key(d, key) {
                Ok(())
            } else {
                Err(VestingError::AddressDerivationMismatch)
            }
        },
        None => Err(VestingError::AddressDerivationMismatch),
    }
}

/// In whose name an operation on a grant is asked for.
#[derive(Clone, Copy, Debug, PartialEq, Eq)]
pub enum Role {
    /// The admin, who funds the grant.
    Admin,
    /// The beneficiary, who claims from it.
    Beneficiary,
}

/// The identity that a grant holds for a role.
pub open spec fn holder(grant: Grant, role: Role) -> Seq<u8> {
    match role {
        Role::Admin => grant.admin,
        Role::Beneficiary => grant.beneficiary,
    }
}

/// What the checks before an operation on a grant come to. They are made in
/// this order, and the first that fails decides: the signature, the
/// record's owner and shape, the identity of the one who asks, the mint.
pub open spec fn guard_outcome(
    signer: Signer,
    mint: Pubkey,
    record: RecordAccount,
    program_id: Pubkey,
    role: Role,
) -> Result<(), VestingError> {
    if !signer.is_signer {
        Err(VestingError::MissingSignature)
    } else if !record.managed_by(program_id) {
        Err(VestingError::InvalidOwner)
    } else if signer.key@ != holder(record.grant(), role) {
        Err(VestingError::FieldMismatch)
    } else if mint@ != record.grant().mint {
        Err(VestingError::FieldMismatch)
    } else {
        Ok(())
    }
}

/// Makes the checks that stand before an operation on a grant, and reads the
/// grant where they all pass.
pub fn authorize(
    signer: &Signer,
    mint: &Pubkey,
    record: &RecordAccount,
    program_id: &Pubkey,
    role: Role,
) -> (r: Result<VestingAccount, VestingError>)
    ensures
        guard_outcome(*signer, *mint, *record, *program_id, role) is Ok ==> (r matches Ok(g)
            && g@ == record.grant() && g@.valid()),
        guard_outcome(*signer, *mint, *record, *program_id, role) matches Err(e) ==> r == Err::<
            VestingAccount,
            VestingError,
        >(e),
{
    match check_signer(signer) {
        Ok(_) => {},
        Err(e) => {
            return Err(e);
        },
    }
    let account = match check_record(record, program_id) {
        Ok(account) => account,
        Err(e) => {
            return Err(e);
        },
    };
    let stored: Pubkey = match role {
        Role::Admin => account.admin,
        Role::Beneficiary => account.beneficiary,
    };
    match check_field(&signer.key, &stored) {
        Ok(_) => {},
        Err(e) => {
            return Err(e);
        },
    }
    match check_field(mint, &account.mint) {
        Ok(_) => {},
        Err(e) => {
            return Err(e);
        },
    }
    Ok(account)
}

} // verus!
