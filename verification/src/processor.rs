//! The three operations on a grant: create, fund, claim. Each checks, then
//! decides; what it decides is a change of the record and a request to the
//! host, which allocates storage and moves tokens.

use crate::address::{derive_vesting_address, grant_address, Pubkey};
use crate::errors::VestingError;
use crate::guard::{
    authorize, check_derived_address, check_signer, guard_outcome, key_view, Mint, RecordAccount,
    Role, Signer, TokenAccount,
};
use crate::state::{
    lemma_claim_step, lemma_decode_encode, valid_terms, Grant, VestingAccount, VESTING_SIZE,
};
use vstd::prelude::*;

verus! {

/// A request to the host to allocate the storage of a new account, owned by
/// `owner` and paid for by `payer`.
#[derive(Clone, Copy, Debug, PartialEq, Eq)]
pub struct CreateAccount {
    pub payer: Pubkey,
    pub new_account: Pubkey,
    pub space: u64,
    pub owner: Pubkey,
}

/// A request to the host to move exactly `amount` tokens of `mint`, or none
/// at all, on the word of `authority`.
#[derive(Clone, Copy, Debug, PartialEq, Eq)]
pub struct Transfer {
    pub from: Pubkey,
    pub to: Pubkey,
    pub authority: Pubkey,
    pub mint: Pubkey,
    pub amount: u64,
    pub decimals: u8,
}

/// The accounts of a request to create a grant.
#[derive(Clone, Debug, PartialEq, Eq)]
pub struct CreateVesting {
    /// Who creates the grant and pays for its record.
    pub admin: Signer,
    /// Who will claim from the grant.
    pub beneficiary: Pubkey,
    /// The kind of token of the grant.
    pub mint: Pubkey,
    /// The account that is to hold the record.
    pub vesting_account: RecordAccount,
}

/// The accounts of a request to fund a grant.
#[derive(Clone, Debug, PartialEq, Eq)]
pub struct Deposit {
    /// Who funds the grant.
    pub admin: Signer,
    /// The kind of token of the grant.
    pub mint: Mint,
    /// The account that holds the record.
    pub vesting_account: RecordAccount,
    /// The vault of the grant.
    pub vault: TokenAccount,
    /// The account from which the admin pays.
    pub admin_token_account: Pubkey,
}

/// The accounts of a request to claim from a grant.
#[derive(Clone, Debug, PartialEq, Eq)]
pub struct Claim {
    /// Who claims.
    pub beneficiary: Signer,
    /// The kind of token of the grant.
    pub mint: Mint,
    /// The account that holds the record.
    pub vesting_account: RecordAccount,
    /// The vault of the grant.
    pub vault: TokenAccount,
    /// The account to which the beneficiary is paid.
    pub beneficiary_token_account: Pubkey,
}

impl CreateVesting {
    /// The grant that the request asks for.
    pub open spec fn new_grant(
        &self,
        seed: u64,
        total_amount: u64,
        start_time: i64,
        cliff_time: i64,
        end_time: i64,
        bump: u8,
    ) -> Grant {
        Grant {
            admin: self.admin.key@,
            beneficiary: self.beneficiary@,
            mint: self.mint@,
            total_amount,
            released_amount: 0,
            start_time,
            cliff_time,
            end_time,
            seed,
            bump,
        }
    }

    /// What a request to create a grant comes to, where the derivation of
    /// the record's identity gave `derived`. The first of these that fails
    /// decides: the admin's signature, the amount and the times, the
    /// record's identity, and that its account holds nothing yet.
    pub open spec fn outcome(
        &self,
        program_id: Pubkey,
        derived: Option<Seq<u8>>,
        total_amount: u64,
        start_time: i64,
        cliff_time: i64,
        end_time: i64,
    ) -> Result<CreateAccount, VestingError> {
        if !self.admin.is_signer {
            Err(VestingError::MissingSignature)
        } else if !valid_terms(total_amount, start_time, cliff_time, end_time) {
            Err(VestingError::InvalidArgument)
        } else if derived != Some(self.vesting_account.key@) {
            Err(VestingError::AddressDerivationMismatch)
        } else if self.vesting_account.data@.len() != 0 {
            Err(VestingError::AlreadyExists)
        } else {
            Ok(
                CreateAccount {
                    payer: self.admin.key,
                    new_account: self.vesting_account.key,
                    space: 145,
                    owner: program_id,
                },
            )
        }
    }
}

impl Deposit {
    /// What the checks before the deposit come to.
    pub open spec fn guard(&self, program_id: Pubkey) -> Result<(), VestingError> {
        guard_outcome(self.admin, self.mint.key, self.vesting_account, program_id, Role::Admin)
    }

    /// What a request to fund a grant comes to: the failure of the checks,
    /// `AlreadyFunded` where the vault holds anything, and else the transfer
    /// of the grant's total from the admin to the vault.
    pub open spec fn outcome(&self, program_id: Pubkey) -> Result<Transfer, VestingError> {
        match self.guard(program_id) {
            Err(e) => Err(e),
            Ok(_) => if self.vault.amount != 0 {
                Err(VestingError::AlreadyFunded)
            } else {
                Ok(
                    Transfer {
                        from: self.admin_token_account,
                        to: self.vault.key,
                        authority: self.admin.key,
                        mint: self.mint.key,
                        amount: self.vesting_account.grant().total_amount,
                        decimals: self.mint.decimals,
                    },
                )
            },
        }
    }
}

impl Claim {
    /// What the checks before the claim come to.
    pub open spec fn guard(&self, program_id: Pubkey) -> Result<(), VestingError> {
        guard_outcome(
            self.beneficiary,
            self.mint.key,
            self.vesting_account,
            program_id,
            Role::Beneficiary,
        )
    }

    /// What a request to claim comes to at time `now`: the failure of the
    /// checks, `NotFunded` where the vault is empty, `NothingToClaim` where
    /// nothing is unlocked that was not handed out, and else the transfer of
    /// what is claimable from the vault to the beneficiary, on the word of
    /// the record's own identity.
    pub open spec fn outcome(&self, program_id: Pubkey, now: i64) -> Result<
        Transfer,
        VestingError,
    > {
        match self.guard(program_id) {
            Err(e) => Err(e),
            Ok(_) => if self.vault.amount == 0 {
                Err(VestingError::NotFunded)
            } else if self.vesting_account.grant().claimable_at(now as int) == 0 {
                Err(VestingError::NothingToClaim)
            } else {
                Ok(
                    Transfer {
                        from: self.vault.key,
                        to: self.beneficiary_token_account,
                        authority: self.vesting_account.key,
                        mint: self.mint.key,
                        amount: self.vesting_account.grant().claimable_at(now as int) as u64,
                        decimals: self.mint.decimals,
                    },
                )
            },
        }
    }
}

/// Creates a grant, given what the derivation of the record's identity gave.
/// Where it succeeds, the record's account holds the new record and belongs
/// to the program, and the host is asked to allocate it. Where it fails,
/// nothing changes.
pub fn create_vesting_with(
    ctx: &mut CreateVesting,
    program_id: &Pubkey,
    derived: &Option<Pubkey>,
    seed: u64,
    total_amount: u64,
    start_time: i64,
    cliff_time: i64,
    end_time: i64,
    bump: u8,
) -> (r: Result<CreateAccount, VestingError>)
    ensures
        r == old(ctx).outcome(
            *program_id,
            key_view(*derived),
            total_amount,
            start_time,
            cliff_time,
            end_time,
        ),
        !old(ctx).admin.is_signer ==> r == Err::<CreateAccount, VestingError>(
            VestingError::MissingSignature,
        ),
        r is Err ==> *final(ctx) == *old(ctx),
        r is Ok ==> final(ctx).vesting_account.data@ == old(ctx).new_grant(
            seed,
            total_amount,
            start_time,
            cliff_time,
            end_time,
            bump,
        ).encode(),
        r is Ok ==> final(ctx).vesting_account.managed_by(*program_id),
        r is Ok ==> final(ctx).vesting_account.key == old(ctx).vesting_account.key,
        final(ctx).admin == old(ctx).admin,
        final(ctx).beneficiary == old(ctx).beneficiary,
        final(ctx).mint == old(ctx).mint,
{
    match check_signer(&ctx.admin) {
        Ok(_) => {},
        Err(e) => {
            return Err(e);
        },
    }
    let account = match VestingAccount::new(
        ctx.admin.key,
        ctx.beneficiary,
        ctx.mint,
        seed,
        total_amount,
        start_time,
        cliff_time,
        end_time,
        bump,
    ) {
        Ok(account) => account,
        Err(e) => {
            return Err(e);
        },
    };
    match check_derived_address(derived, &ctx.vesting_account.key) {
        Ok(_) => {},
        Err(e) => {
            return Err(e);
        },
    }
    if ctx.vesting_account.data.len() != 0 {
        return Err(VestingError::AlreadyExists);
    }
    let data = account.pack();
    proof {
        lemma_decode_encode(account@);
    }
    ctx.vesting_account.data = data;
    ctx.vesting_account.owner = *program_id;
    Ok(
        CreateAccount {
            payer: ctx.admin.key,
            new_account: ctx.vesting_account.key,
            space: VESTING_SIZE as u64,
            owner: *program_id,
        },
    )
}

/// Creates a grant: derives the identity that its record must have, and
/// goes on as `create_vesting_with` does.
pub fn create_vesting_handler(
    ctx: &mut CreateVesting,
    program_id: &Pubkey,
    seed: u64,
    total_amount: u64,
    start_time: i64,
    cliff_time: i64,
    end_time: i64,
    bump: u8,
) -> (r: Result<CreateAccount, VestingError>)
    ensures
        r == old(ctx).outcome(
            *program_id,
            grant_address(old(ctx).beneficiary@, old(ctx).mint@, seed, bump, program_id@),
            total_amount,
            start_time,
            cliff_time,
            end_time,
        ),
        !old(ctx).admin.is_signer ==> r == Err::<CreateAccount, VestingError>(
            VestingError::MissingSignature,
        ),
        r is Err ==> *final(ctx) == *old(ctx),
        r is Ok ==> final(ctx).vesting_account.data@ == old(ctx).new_grant(
            seed,
            total_amount,
            start_time,
            cliff_time,
            end_time,
            bump,
        ).encode(),
        r is Ok ==> final(ctx).vesting_account.managed_by(*program_id),
        r is Ok ==> final(ctx).vesting_account.key == old(ctx).vesting_account.key,
        final(ctx).admin == old(ctx).admin,
        final(ctx).beneficiary == old(ctx).beneficiary,
        final(ctx).mint == old(ctx).mint,
{
    let derived = derive_vesting_address(&ctx.beneficiary, &ctx.mint, seed, bump, program_id);
    create_vesting_with(
        ctx,
        program_id,
        &derived,
        seed,
        total_amount,
        start_time,
        cliff_time,
        end_time,
        bump,
    )
}

/// What a deposit comes to once the checks have passed: `AlreadyFunded`
/// where the vault holds anything, and else the amount to move, which is the
/// grant's total.
pub fn deposit_amount(account: &VestingAccount, vault_amount: u64) -> (r: Result<
    u64,
    VestingError,
>)
    ensures
        vault_amount != 0 ==> r == Err::<u64, VestingError>(VestingError::AlreadyFunded),
        vault_amount == 0 ==> r == Ok::<u64, VestingError>(account.total_amount),
{
    if vault_amount != 0 {
        return Err(VestingError::AlreadyFunded);
    }
    Ok(account.total_amount)
}

/// What a claim at time `now` comes to once the checks have passed:
/// `NotFunded` where the vault is empty, `NothingToClaim` where nothing is
/// unlocked that was not handed out, and else the amount to move, which is
/// added to the released amount of the record. Where it fails, the record
/// does not change.
pub fn claim_amount(account: &mut VestingAccount, vault_amount: u64, now: i64) -> (r: Result<
    u64,
    VestingError,
>)
    requires
        old(account)@.valid(),
    ensures
        vault_amount == 0 ==> r == Err::<u64, VestingError>(VestingError::NotFunded),
        vault_amount != 0 && old(account)@.claimable_at(now as int) == 0 ==> r == Err::<
            u64,
            VestingError,
        >(VestingError::NothingToClaim),
        vault_amount != 0 && old(account)@.claimable_at(now as int) > 0 ==> r == Ok::<
            u64,
            VestingError,
        >(old(account)@.claimable_at(now as int) as u64),
        r is Err ==> *final(account) == *old(account),
        r matches Ok(amount) ==> final(account)@ == old(account)@.credited(amount as int),
        r is Ok ==> final(account).released_amount == old(account)@.released_at(now as int),
        r is Ok ==> final(account).released_amount > old(account).released_amount,
        final(account)@.valid(),
{
    if vault_amount == 0 {
        return Err(VestingError::NotFunded);
    }
    account.claim(now)
}

/// Funds a grant: asks the host to move the grant's total from the admin to
/// the vault. The record does not change.
pub fn deposit_handler(ctx: &Deposit, program_id: &Pubkey) -> (r: Result<Transfer, VestingError>)
    ensures
        r == ctx.outcome(*program_id),
        ctx.guard(*program_id) is Ok && ctx.vault.amount != 0 ==> r == Err::<
            Transfer,
            VestingError,
        >(VestingError::AlreadyFunded),
{
    let account = match authorize(
        &ctx.admin,
        &ctx.mint.key,
        &ctx.vesting_account,
        program_id,
        Role::Admin,
    ) {
        Ok(account) => account,
        Err(e) => {
            return Err(e);
        },
    };
    let amount: u64 = match deposit_amount(&account, ctx.vault.amount) {
        Ok(amount) => amount,
        Err(e) => {
            return Err(e);
        },
    };
    Ok(
        Transfer {
            from: ctx.admin_token_account,
            to: ctx.vault.key,
            authority: ctx.admin.key,
            mint: ctx.mint.key,
            amount,
            decimals: ctx.mint.decimals,
        },
    )
}

/// Claims from a grant at time `now`: adds what is claimable to the released
/// amount of the record, and asks the host to move it from the vault to the
/// beneficiary. Where it fails, nothing changes.
pub fn claim_handler(ctx: &mut Claim, program_id: &Pubkey, now: i64) -> (r: Result<
    Transfer,
    VestingError,
>)
    ensures
        r == old(ctx).outcome(*program_id, now),
        old(ctx).guard(*program_id) is Ok && old(ctx).vault.amount == 0 ==> r == Err::<
            Transfer,
            VestingError,
        >(VestingError::NotFunded),
        old(ctx).guard(*program_id) is Ok && old(ctx).vault.amount != 0 && old(
            ctx,
        ).vesting_account.grant().released_at(now as int) <= old(
            ctx,
        ).vesting_account.grant().released_amount ==> r == Err::<Transfer, VestingError>(
            VestingError::NothingToClaim,
        ),
        r is Err ==> *final(ctx) == *old(ctx),
        r matches Ok(t) ==> final(ctx).vesting_account.data@ == old(
            ctx,
        ).vesting_account.grant().credited(t.amount as int).encode(),
        r is Ok ==> final(ctx).vesting_account.managed_by(*program_id),
        r is Ok ==> final(ctx).vesting_account.grant().released_amount == old(
            ctx,
        ).vesting_account.grant().released_at(now as int),
        r is Ok ==> final(ctx).vesting_account.grant().released_amount > old(
            ctx,
        ).vesting_account.grant().released_amount,
        final(ctx).vesting_account.key == old(ctx).vesting_account.key,
        final(ctx).vesting_account.owner == old(ctx).vesting_account.owner,
        final(ctx).beneficiary == old(ctx).beneficiary,
        final(ctx).mint == old(ctx).mint,
        final(ctx).vault == old(ctx).vault,
        final(ctx).beneficiary_token_account == old(ctx).beneficiary_token_account,
{
    let mut account = match authorize(
        &ctx.beneficiary,
        &ctx.mint.key,
        &ctx.vesting_account,
        program_id,
        Role::Beneficiary,
    ) {
        Ok(account) => account,
        Err(e) => {
            return Err(e);
        },
    };
    let claimable: u64 = match claim_amount(&mut account, ctx.vault.amount, now) {
        Ok(claimable) => claimable,
        Err(e) => {
            return Err(e);
        },
    };
    let data = account.pack();
    proof {
        lemma_claim_step(old(ctx).vesting_account.grant(), now);
        lemma_decode_encode(account@);
    }
    ctx.vesting_account.data = data;
    Ok(
        Transfer {
            from: ctx.vault.key,
            to: ctx.beneficiary_token_account,
            authority: ctx.vesting_account.key,
            mint: ctx.mint.key,
            amount: claimable,
            decimals: ctx.mint.decimals,
        },
    )
}

} // verus!
