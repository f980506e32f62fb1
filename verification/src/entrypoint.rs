//! The way in: a request as bytes and its accounts by position. The request
//! is read, the accounts are bound to the places that the operation gives
//! them, and the operation is carried out.

use crate::address::{grant_address, Pubkey};
use crate::bytes::{le_value, lemma_le_value_bound, lemma_pow256_8, read_u64, write_bytes};
use crate::errors::VestingError;
use crate::guard::{authorize, guard_outcome, Mint, RecordAccount, Role, Signer, TokenAccount};
use crate::instruction::Instruction;
use crate::processor::{
    claim_amount, create_vesting_handler, deposit_amount, Claim, CreateAccount, CreateVesting,
    Deposit, Transfer,
};
use vstd::prelude::*;

verus! {

/// What an operation sees of an account: its identity, the program that
/// owns it, whether it signed the request, and the bytes it holds.
#[derive(Clone, Debug, PartialEq, Eq)]
pub struct AccountInfo {
    pub key: Pubkey,
    pub owner: Pubkey,
    pub is_signer: bool,
    pub data: Vec<u8>,
}

impl AccountInfo {
    /// The account as the one that authorizes an operation.
    pub open spec fn signer(&self) -> Signer {
        Signer { key: self.key, is_signer: self.is_signer }
    }

    /// The account as the holder of a record.
    pub open spec fn record(&self) -> RecordAccount {
        RecordAccount { key: self.key, owner: self.owner, data: self.data }
    }
}

/// What the host is asked to do after an operation has succeeded.
#[derive(Clone, Copy, Debug, PartialEq, Eq)]
pub enum Request {
    /// Allocate the account of a new record.
    CreateAccount(CreateAccount),
    /// Move tokens.
    Transfer(Transfer),
}

/// The number of accounts that a request to create a grant comes with: the
/// admin, the beneficiary, the mint, the record and the system program.
pub const CREATE_VESTING_ACCOUNTS: usize = 5;

/// The number of accounts that a request to fund a grant or to claim from it
/// comes with: the signer, the mint, the record, the vault, the signer's
/// token account and the token program.
pub const TRANSFER_ACCOUNTS: usize = 6;

/// The balance that the bytes of a token account hold: eight bytes from
/// offset 64 on. `None` where there are fewer than 72 bytes.
pub open spec fn token_amount(data: Seq<u8>) -> Option<u64> {
    if data.len() >= 72 {
        Some(le_value(data.subrange(64, 72)) as u64)
    } else {
        None
    }
}

/// The number of decimal places that the bytes of a mint hold: the byte at
/// offset 44. `None` where there are fewer than 45 bytes.
pub open spec fn mint_decimals(data: Seq<u8>) -> Option<u8> {
    if data.len() >= 45 {
        Some(data[44])
    } else {
        None
    }
}

/// Reads the balance of a token account.
pub fn read_token_amount(data: &[u8]) -> (r: Option<u64>)
    ensures
        r == token_amount(data@),
{
    if data.len() < 72 {
        return None;
    }
    proof {
        lemma_pow256_8();
        lemma_le_value_bound(data@.subrange(64, 72));
    }
    Some(read_u64(data, 64))
}

/// Reads the number of decimal places of a mint.
pub fn read_mint_decimals(data: &[u8]) -> (r: Option<u8>)
    ensures
        r == mint_decimals(data@),
{
    if data.len() < 45 {
        return None;
    }
    Some(data[44])
}

/// The accounts of a request to create a grant, bound by position.
/// `InvalidArgument` where there are fewer than five.
pub open spec fn create_vesting_accounts(accounts: Seq<AccountInfo>) -> Result<
    CreateVesting,
    VestingError,
> {
    if accounts.len() < 5 {
        Err(VestingError::InvalidArgument)
    } else {
        Ok(
            CreateVesting {
                admin: accounts[0].signer(),
                beneficiary: accounts[1].key,
                mint: accounts[2].key,
                vesting_account: accounts[3].record(),
            },
        )
    }
}

/// The accounts of a request to fund a grant, bound by position, where there
/// are six of them and the vault holds a balance and the mint decimals to
/// read.
pub open spec fn deposit_accounts(accounts: Seq<AccountInfo>) -> Option<Deposit> {
    if accounts.len() < 6 {
        None
    } else {
        match (token_amount(accounts[3].data@), mint_decimals(accounts[1].data@)) {
            (Some(amount), Some(decimals)) => Some(
                Deposit {
                    admin: accounts[0].signer(),
                    mint: Mint { key: accounts[1].key, decimals },
                    vesting_account: accounts[2].record(),
                    vault: TokenAccount { key: accounts[3].key, amount },
                    admin_token_account: accounts[4].key,
                },
            ),
            _ => None,
        }
    }
}

/// The accounts of a request to claim, bound by position, where there are
/// six of them and the vault holds a balance and the mint decimals to read.
pub open spec fn claim_accounts(accounts: Seq<AccountInfo>) -> Option<Claim> {
    if accounts.len() < 6 {
        None
    } else {
        match (token_amount(accounts[3].data@), mint_decimals(accounts[1].data@)) {
            (Some(amount), Some(decimals)) => Some(
                Claim {
                    beneficiary: accounts[0].signer(),
                    mint: Mint { key: accounts[1].key, decimals },
                    vesting_account: accounts[2].record(),
                    vault: TokenAccount { key: accounts[3].key, amount },
                    beneficiary_token_account: accounts[4].key,
                },
            ),
            _ => None,
        }
    }
}

/// What the checks before a deposit or a claim come to, with the accounts
/// bound by position: the one who asks first, the mint second, the record
/// third.
pub open spec fn guard_by_position(program_id: Pubkey, accounts: Seq<AccountInfo>, role: Role) -> Result<
    (),
    VestingError,
> {
    guard_outcome(accounts[0].signer(), accounts[1].key, accounts[2].record(), program_id, role)
}

/// Whether `after` is `before` but for the account at `index`, which now
/// belongs to `owner` and holds `data`.
pub open spec fn stored(
    before: Seq<AccountInfo>,
    after: Seq<AccountInfo>,
    index: int,
    owner: Pubkey,
    data: Seq<u8>,
) -> bool {
    &&& after.len() == before.len()
    &&& forall|i: int| 0 <= i < before.len() && i != index ==> after[i] == before[i]
    &&& 0 <= index < before.len()
    &&& after[index].key == before[index].key
    &&& after[index].is_signer == before[index].is_signer
    &&& after[index].owner == owner
    &&& after[index].data@ == data
}

/// What a request to create a grant comes to, with its accounts bound by
/// position.
pub open spec fn create_vesting_outcome(
    program_id: Pubkey,
    accounts: Seq<AccountInfo>,
    seed: u64,
    total_amount: u64,
    start_time: i64,
    cliff_time: i64,
    end_time: i64,
    bump: u8,
) -> Result<CreateAccount, VestingError> {
    match create_vesting_accounts(accounts) {
        Err(e) => Err(e),
        Ok(ctx) => ctx.outcome(
            program_id,
            grant_address(ctx.beneficiary@, ctx.mint@, seed, bump, program_id@),
            total_amount,
            start_time,
            cliff_time,
            end_time,
        ),
    }
}

/// What a request to fund a grant comes to, with its accounts bound by
/// position. The first of these that fails decides: that there are six
/// accounts (`InvalidArgument`), the checks on signature, record, admin and
/// mint, that the vault holds a balance to read (`InvalidArgument`), that
/// the vault is empty (`AlreadyFunded`), and that the mint holds decimals to
/// read (`InvalidArgument`).
pub open spec fn deposit_outcome(program_id: Pubkey, accounts: Seq<AccountInfo>) -> Result<
    Transfer,
    VestingError,
> {
    if accounts.len() < 6 {
        Err(VestingError::InvalidArgument)
    } else {
        match guard_by_position(program_id, accounts, Role::Admin) {
            Err(e) => Err(e),
            Ok(_) => match token_amount(accounts[3].data@) {
                None => Err(VestingError::InvalidArgument),
                Some(amount) => if amount != 0 {
                    Err(VestingError::AlreadyFunded)
                } else {
                    match mint_decimals(accounts[1].data@) {
                        None => Err(VestingError::InvalidArgument),
                        Some(decimals) => Ok(
                            Transfer {
                                from: accounts[4].key,
                                to: accounts[3].key,
                                authority: accounts[0].key,
                                mint: accounts[1].key,
                                amount: accounts[2].record().grant().total_amount,
                                decimals,
                            },
                        ),
                    }
                },
            },
        }
    }
}

/// What a request to claim comes to at time `now`, with its accounts bound
/// by position. The first of these that fails decides: that there are six
/// accounts (`InvalidArgument`), the checks on signature, record,
/// beneficiary and mint, that the vault holds a balance to read
/// (`InvalidArgument`), that the vault is not empty (`NotFunded`), that
/// something is claimable (`NothingToClaim`), and that the mint holds
/// decimals to read (`InvalidArgument`).
pub open spec fn claim_outcome(program_id: Pubkey, accounts: Seq<AccountInfo>, now: i64) -> Result<
    Transfer,
    VestingError,
> {
    if accounts.len() < 6 {
        Err(VestingError::InvalidArgument)
    } else {
        match guard_by_position(program_id, accounts, Role::Beneficiary) {
            Err(e) => Err(e),
            Ok(_) => match token_amount(accounts[3].data@) {
                None => Err(VestingError::InvalidArgument),
                Some(amount) => if amount == 0 {
                    Err(VestingError::NotFunded)
                } else if accounts[2].record().grant().claimable_at(now as int) == 0 {
                    Err(VestingError::NothingToClaim)
                } else {
                    match mint_decimals(accounts[1].data@) {
                        None => Err(VestingError::InvalidArgument),
                        Some(decimals) => Ok(
                            Transfer {
                                from: accounts[3].key,
                                to: accounts[4].key,
                                authority: accounts[2].key,
                                mint: accounts[1].key,
                                amount: accounts[2].record().grant().claimable_at(
                                    now as int,
                                ) as u64,
                                decimals,
                            },
                        ),
                    }
                },
            },
        }
    }
}

/// Where the vault and the mint of a request to fund a grant can be read,
/// the request comes to what the deposit on its accounts comes to.
pub proof fn lemma_deposit_by_position(program_id: Pubkey, accounts: Seq<AccountInfo>)
    requires
        deposit_accounts(accounts) is Some,
    ensures
        deposit_outcome(program_id, accounts) == deposit_accounts(accounts)->Some_0.outcome(
            program_id,
        ),
{
}

/// Where the vault and the mint of a request to claim can be read, the
/// request comes to what the claim on its accounts comes to.
pub proof fn lemma_claim_by_position(program_id: Pubkey, accounts: Seq<AccountInfo>, now: i64)
    requires
        claim_accounts(accounts) is Some,
    ensures
        claim_outcome(program_id, accounts, now) == claim_accounts(accounts)->Some_0.outcome(
            program_id,
            now,
        ),
{
}

/// Copies the bytes of an account.
fn copy_data(account: &AccountInfo) -> (r: Vec<u8>)
    ensures
        r@ == account.data@,
{
    let mut data: Vec<u8> = Vec::new();
    write_bytes(&mut data, account.data.as_slice());
    assert(data@ =~= account.data@);
    data
}

/// Creates a grant. Where it succeeds, the fourth account holds the new
/// record and belongs to the program; where it fails, no account changes.
pub fn create_vesting(
    program_id: &Pubkey,
    accounts: &mut Vec<AccountInfo>,
    seed: u64,
    total_amount: u64,
    start_time: i64,
    cliff_time: i64,
    end_time: i64,
    bump: u8,
) -> (r: Result<CreateAccount, VestingError>)
    ensures
        r == create_vesting_outcome(
            *program_id,
            old(accounts)@,
            seed,
            total_amount,
            start_time,
            cliff_time,
            end_time,
            bump,
        ),
        old(accounts)@.len() >= 5 && !old(accounts)@[0].is_signer ==> r == Err::<
            CreateAccount,
            VestingError,
        >(VestingError::MissingSignature),
        r is Err ==> final(accounts)@ == old(accounts)@,
        r is Ok ==> stored(
            old(accounts)@,
            final(accounts)@,
            3,
            *program_id,
            create_vesting_accounts(old(accounts)@)->Ok_0.new_grant(
                seed,
                total_amount,
                start_time,
                cliff_time,
                end_time,
                bump,
            ).encode(),
        ),
{
    if accounts.len() < CREATE_VESTING_ACCOUNTS {
        return Err(VestingError::InvalidArgument);
    }
    let data = copy_data(&accounts[3]);
    let mut ctx = CreateVesting {
        admin: Signer { key: accounts[0].key, is_signer: accounts[0].is_signer },
        beneficiary: accounts[1].key,
        mint: accounts[2].key,
        vesting_account: RecordAccount { key: accounts[3].key, owner: accounts[3].owner, data },
    };
    match create_vesting_handler(
        &mut ctx,
        program_id,
        seed,
        total_amount,
        start_time,
        cliff_time,
        end_time,
        bump,
    ) {
        Ok(request) => {
            accounts[3].data = ctx.vesting_account.data;
            accounts[3].owner = *program_id;
            Ok(request)
        },
        Err(e) => Err(e),
    }
}

/// Funds a grant. No account changes.
pub fn deposit(program_id: &Pubkey, accounts: &Vec<AccountInfo>) -> (r: Result<
    Transfer,
    VestingError,
>)
    ensures
        r == deposit_outcome(*program_id, accounts@),
        accounts@.len() >= 6 && !accounts@[0].is_signer ==> r == Err::<Transfer, VestingError>(
            VestingError::MissingSignature,
        ),
        accounts@.len() >= 6 ==> (guard_by_position(*program_id, accounts@, Role::Admin)
            matches Err(e) ==> r == Err::<Transfer, VestingError>(e)),
        accounts@.len() >= 6 && guard_by_position(*program_id, accounts@, Role::Admin) is Ok
            && (token_amount(accounts@[3].data@) matches Some(amount) && amount != 0) ==> r
            == Err::<Transfer, VestingError>(VestingError::AlreadyFunded),
{
    if accounts.len() < TRANSFER_ACCOUNTS {
        return Err(VestingError::InvalidArgument);
    }
    let admin = Signer { key: accounts[0].key, is_signer: accounts[0].is_signer };
    let record = RecordAccount {
        key: accounts[2].key,
        owner: accounts[2].owner,
        data: copy_data(&accounts[2]),
    };
    let account = match authorize(&admin, &accounts[1].key, &record, program_id, Role::Admin) {
        Ok(account) => account,
        Err(e) => {
            return Err(e);
        },
    };
    let vault_amount: u64 = match read_token_amount(accounts[3].data.as_slice()) {
        Some(amount) => amount,
        None => {
            return Err(VestingError::InvalidArgument);
        },
    };
    let amount: u64 = match deposit_amount(&account, vault_amount) {
        Ok(amount) => amount,
        Err(e) => {
            return Err(e);
        },
    };
    let decimals: u8 = match read_mint_decimals(accounts[1].data.as_slice()) {
        Some(decimals) => decimals,
        None => {
            return Err(VestingError::InvalidArgument);
        },
    };
    Ok(
        Transfer {
            from: accounts[4].key,
            to: accounts[3].key,
            authority: accounts[0].key,
            mint: accounts[1].key,
            amount,
            decimals,
        },
    )
}

/// Claims from a grant at time `now`. Where it succeeds, the third account
/// holds the record with what was claimed added to its released amount;
/// where it fails, no account changes.
pub fn claim(program_id: &Pubkey, accounts: &mut Vec<AccountInfo>, now: i64) -> (r: Result<
    Transfer,
    VestingError,
>)
    ensures
        r == claim_outcome(*program_id, old(accounts)@, now),
        old(accounts)@.len() >= 6 && !old(accounts)@[0].is_signer ==> r == Err::<
            Transfer,
            VestingError,
        >(VestingError::MissingSignature),
        old(accounts)@.len() >= 6 ==> (guard_by_position(
            *program_id,
            old(accounts)@,
            Role::Beneficiary,
        ) matches Err(e) ==> r == Err::<Transfer, VestingError>(e)),
        old(accounts)@.len() >= 6 && guard_by_position(
            *program_id,
            old(accounts)@,
            Role::Beneficiary,
        ) is Ok && token_amount(old(accounts)@[3].data@) == Some(0u64) ==> r == Err::<
            Transfer,
            VestingError,
        >(VestingError::NotFunded),
        old(accounts)@.len() >= 6 && guard_by_position(
            *program_id,
            old(accounts)@,
            Role::Beneficiary,
        ) is Ok && (token_amount(old(accounts)@[3].data@) matches Some(amount) && amount != 0)
            && old(accounts)@[2].record().grant().released_at(now as int) <= old(
            accounts,
        )@[2].record().grant().released_amount ==> r == Err::<Transfer, VestingError>(
            VestingError::NothingToClaim,
        ),
        r is Err ==> final(accounts)@ == old(accounts)@,
        r matches Ok(t) ==> stored(
            old(accounts)@,
            final(accounts)@,
            2,
            old(accounts)@[2].owner,
            old(accounts)@[2].record().grant().credited(t.amount as int).encode(),
        ),
{
    if accounts.len() < TRANSFER_ACCOUNTS {
        return Err(VestingError::InvalidArgument);
    }
    let beneficiary = Signer { key: accounts[0].key, is_signer: accounts[0].is_signer };
    let record = RecordAccount {
        key: accounts[2].key,
        owner: accounts[2].owner,
        data: copy_data(&accounts[2]),
    };
    let mut account = match authorize(
        &beneficiary,
        &accounts[1].key,
        &record,
        program_id,
        Role::Beneficiary,
    ) {
        Ok(account) => account,
        Err(e) => {
            return Err(e);
        },
    };
    let vault_amount: u64 = match read_token_amount(accounts[3].data.as_slice()) {
        Some(amount) => amount,
        None => {
            return Err(VestingError::InvalidArgument);
        },
    };
    let amount: u64 = match claim_amount(&mut account, vault_amount, now) {
        Ok(amount) => amount,
        Err(e) => {
            return Err(e);
        },
    };
    let decimals: u8 = match read_mint_decimals(accounts[1].data.as_slice()) {
        Some(decimals) => decimals,
        None => {
            return Err(VestingError::InvalidArgument);
        },
    };
    let transfer = Transfer {
        from: accounts[3].key,
        to: accounts[4].key,
        authority: accounts[2].key,
        mint: accounts[1].key,
        amount,
        decimals,
    };
    accounts[2].data = account.pack();
    Ok(transfer)
}

/// What a request comes to: the failure to read it, or what the operation
/// that it names comes to.
pub open spec fn process_outcome(
    program_id: Pubkey,
    accounts: Seq<AccountInfo>,
    data: Seq<u8>,
    now: i64,
) -> Result<Request, VestingError> {
    match Instruction::decode(data) {
        Err(e) => Err(e),
        Ok(
            Instruction::CreateVesting {
                seed,
                total_amount,
                start_time,
                cliff_time,
                end_time,
                bump,
            },
        ) => match create_vesting_outcome(
            program_id,
            accounts,
            seed,
            total_amount,
            start_time,
            cliff_time,
            end_time,
            bump,
        ) {
            Ok(request) => Ok(Request::CreateAccount(request)),
            Err(e) => Err(e),
        },
        Ok(Instruction::Deposit) => match deposit_outcome(program_id, accounts) {
            Ok(transfer) => Ok(Request::Transfer(transfer)),
            Err(e) => Err(e),
        },
        Ok(Instruction::Claim) => match claim_outcome(program_id, accounts, now) {
            Ok(transfer) => Ok(Request::Transfer(transfer)),
            Err(e) => Err(e),
        },
    }
}

/// Whether `after` is what a request that succeeded leaves of the accounts
/// `before`: a new record in the fourth account after a creation, the same
/// accounts after a deposit, and after a claim the record in the third
/// account with the amount of the transfer added to its released amount.
pub open spec fn processed(
    program_id: Pubkey,
    before: Seq<AccountInfo>,
    after: Seq<AccountInfo>,
    instruction: Instruction,
    request: Request,
) -> bool {
    match instruction {
        Instruction::CreateVesting {
            seed,
            total_amount,
            start_time,
            cliff_time,
            end_time,
            bump,
        } => stored(
            before,
            after,
            3,
            program_id,
            create_vesting_accounts(before)->Ok_0.new_grant(
                seed,
                total_amount,
                start_time,
                cliff_time,
                end_time,
                bump,
            ).encode(),
        ),
        Instruction::Deposit => after == before,
        Instruction::Claim => request matches Request::Transfer(t) && stored(
            before,
            after,
            2,
            before[2].owner,
            before[2].record().grant().credited(t.amount as int).encode(),
        ),
    }
}

/// Carries out a request at time `now`. Where it succeeds, it says what the
/// host is to do, and the record's account holds the record as the
/// operation leaves it. Where it fails, no account changes.
pub fn process_instruction(
    program_id: &Pubkey,
    accounts: &mut Vec<AccountInfo>,
    data: &[u8],
    now: i64,
) -> (r: Result<Request, VestingError>)
    ensures
        r == process_outcome(*program_id, old(accounts)@, data@, now),
        r is Err ==> final(accounts)@ == old(accounts)@,
        r matches Ok(request) ==> processed(
            *program_id,
            old(accounts)@,
            final(accounts)@,
            Instruction::decode(data@)->Ok_0,
            request,
        ),
{
    let instruction = match Instruction::unpack(data) {
        Ok(instruction) => instruction,
        Err(e) => {
            return Err(e);
        },
    };
    match instruction {
        Instruction::CreateVesting {
            seed,
            total_amount,
            start_time,
            cliff_time,
            end_time,
            bump,
        } => match create_vesting(
            program_id,
            accounts,
            seed,
            total_amount,
            start_time,
            cliff_time,
            end_time,
            bump,
        ) {
            Ok(request) => Ok(Request::CreateAccount(request)),
            Err(e) => Err(e),
        },
        Instruction::Deposit => match deposit(program_id, accounts) {
            Ok(transfer) => Ok(Request::Transfer(transfer)),
            Err(e) => Err(e),
        },
        Instruction::Claim => match claim(program_id, accounts, now) {
            Ok(transfer) => Ok(Request::Transfer(transfer)),
            Err(e) => Err(e),
        },
    }
}

} // verus!
