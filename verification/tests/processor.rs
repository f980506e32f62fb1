use vesting::address::derive_vesting_address;
use vesting::errors::VestingError;
use vesting::guard::{Mint, RecordAccount, Signer, TokenAccount};
use vesting::processor::{
    claim_handler, create_vesting_handler, create_vesting_with, deposit_handler, Claim,
    CreateAccount, CreateVesting, Deposit, Transfer,
};
use vesting::state::VestingAccount;

const ADMIN_KEY: [u8; 32] = [1; 32];
const BENEFICIARY_KEY: [u8; 32] = [2; 32];
const MINT_KEY: [u8; 32] = [3; 32];
const PROGRAM_KEY: [u8; 32] = [9; 32];
const VAULT_KEY: [u8; 32] = [21; 32];
const ADMIN_TOKENS: [u8; 32] = [22; 32];
const BENEFICIARY_TOKENS: [u8; 32] = [23; 32];
const SEED: u64 = 7;
const BUMP: u8 = 253;

fn record_key() -> [u8; 32] {
    derive_vesting_address(&BENEFICIARY_KEY, &MINT_KEY, SEED, BUMP, &PROGRAM_KEY).unwrap()
}

fn create_context() -> CreateVesting {
    CreateVesting {
        admin: Signer { key: ADMIN_KEY, is_signer: true },
        beneficiary: BENEFICIARY_KEY,
        mint: MINT_KEY,
        vesting_account: RecordAccount { key: record_key(), owner: [0; 32], data: Vec::new() },
    }
}

fn created_record() -> RecordAccount {
    let mut ctx = create_context();
    create_vesting_handler(&mut ctx, &PROGRAM_KEY, SEED, 1000, 0, 100, 1000, BUMP).unwrap();
    ctx.vesting_account
}

fn deposit_context(vault_amount: u64) -> Deposit {
    Deposit {
        admin: Signer { key: ADMIN_KEY, is_signer: true },
        mint: Mint { key: MINT_KEY, decimals: 6 },
        vesting_account: created_record(),
        vault: TokenAccount { key: VAULT_KEY, amount: vault_amount },
        admin_token_account: ADMIN_TOKENS,
    }
}

fn claim_context(vault_amount: u64) -> Claim {
    Claim {
        beneficiary: Signer { key: BENEFICIARY_KEY, is_signer: true },
        mint: Mint { key: MINT_KEY, decimals: 6 },
        vesting_account: created_record(),
        vault: TokenAccount { key: VAULT_KEY, amount: vault_amount },
        beneficiary_token_account: BENEFICIARY_TOKENS,
    }
}

#[test]
fn creating_a_grant_stores_its_record() {
    let mut ctx = create_context();
    let request =
        create_vesting_handler(&mut ctx, &PROGRAM_KEY, SEED, 1000, 0, 100, 1000, BUMP);
    assert_eq!(
        request,
        Ok(CreateAccount {
            payer: ADMIN_KEY,
            new_account: record_key(),
            space: 145,
            owner: PROGRAM_KEY,
        })
    );
    assert_eq!(ctx.vesting_account.owner, PROGRAM_KEY);
    assert_eq!(ctx.vesting_account.key, record_key());
    assert_eq!(
        VestingAccount::unpack(&ctx.vesting_account.data),
        Some(VestingAccount {
            admin: ADMIN_KEY,
            beneficiary: BENEFICIARY_KEY,
            mint: MINT_KEY,
            total_amount: 1000,
            released_amount: 0,
            start_time: 0,
            cliff_time: 100,
            end_time: 1000,
            seed: SEED,
            bump: BUMP,
        })
    );
}

#[test]
fn creating_a_grant_of_nothing_or_out_of_order_is_an_invalid_argument() {
    let mut ctx = create_context();
    assert_eq!(
        create_vesting_handler(&mut ctx, &PROGRAM_KEY, SEED, 0, 0, 100, 1000, BUMP),
        Err(VestingError::InvalidArgument)
    );
    assert_eq!(
        create_vesting_handler(&mut ctx, &PROGRAM_KEY, SEED, 1000, 200, 100, 1000, BUMP),
        Err(VestingError::InvalidArgument)
    );
    assert_eq!(
        create_vesting_handler(&mut ctx, &PROGRAM_KEY, SEED, 1000, 0, 2000, 1000, BUMP),
        Err(VestingError::InvalidArgument)
    );
    assert_eq!(
        create_vesting_handler(&mut ctx, &PROGRAM_KEY, SEED, 1000, 100, 100, 100, BUMP),
        Err(VestingError::InvalidArgument)
    );
    assert_eq!(ctx, create_context());
}

#[test]
fn creating_a_grant_needs_the_admins_signature() {
    let mut ctx = create_context();
    ctx.admin.is_signer = false;
    let before = ctx.clone();
    assert_eq!(
        create_vesting_handler(&mut ctx, &PROGRAM_KEY, SEED, 1000, 0, 100, 1000, BUMP),
        Err(VestingError::MissingSignature)
    );
    assert_eq!(ctx, before);
}

#[test]
fn creating_a_grant_at_another_identity_is_a_derivation_mismatch() {
    let mut ctx = create_context();
    ctx.vesting_account.key = [4; 32];
    assert_eq!(
        create_vesting_handler(&mut ctx, &PROGRAM_KEY, SEED, 1000, 0, 100, 1000, BUMP),
        Err(VestingError::AddressDerivationMismatch)
    );
    let mut ctx = create_context();
    assert_eq!(
        create_vesting_handler(&mut ctx, &PROGRAM_KEY, SEED + 1, 1000, 0, 100, 1000, BUMP),
        Err(VestingError::AddressDerivationMismatch)
    );
    assert_eq!(
        create_vesting_handler(&mut ctx, &PROGRAM_KEY, SEED, 1000, 0, 100, 1000, 255),
        Err(VestingError::AddressDerivationMismatch)
    );
    assert_eq!(
        create_vesting_handler(&mut ctx, &[10; 32], SEED, 1000, 0, 100, 1000, BUMP),
        Err(VestingError::AddressDerivationMismatch)
    );
    assert_eq!(ctx, create_context());
}

#[test]
fn creating_a_grant_twice_is_refused() {
    let mut ctx = create_context();
    create_vesting_handler(&mut ctx, &PROGRAM_KEY, SEED, 1000, 0, 100, 1000, BUMP).unwrap();
    let before = ctx.clone();
    assert_eq!(
        create_vesting_handler(&mut ctx, &PROGRAM_KEY, SEED, 5000, 0, 100, 1000, BUMP),
        Err(VestingError::AlreadyExists)
    );
    assert_eq!(ctx, before);
}

#[test]
fn creation_goes_by_the_derived_identity_it_is_given() {
    let mut ctx = create_context();
    ctx.vesting_account.key = [4; 32];
    assert_eq!(
        create_vesting_with(&mut ctx, &PROGRAM_KEY, &Some([4; 32]), SEED, 1000, 0, 100, 1000, BUMP),
        Ok(CreateAccount { payer: ADMIN_KEY, new_account: [4; 32], space: 145, owner: PROGRAM_KEY })
    );
    let mut ctx = create_context();
    ctx.vesting_account.key = [4; 32];
    assert_eq!(
        create_vesting_with(&mut ctx, &PROGRAM_KEY, &Some([5; 32]), SEED, 1000, 0, 100, 1000, BUMP),
        Err(VestingError::AddressDerivationMismatch)
    );
    assert_eq!(
        create_vesting_with(&mut ctx, &PROGRAM_KEY, &None, SEED, 1000, 0, 100, 1000, BUMP),
        Err(VestingError::AddressDerivationMismatch)
    );
    assert_eq!(
        create_vesting_with(&mut ctx, &PROGRAM_KEY, &None, SEED, 0, 0, 100, 1000, BUMP),
        Err(VestingError::InvalidArgument)
    );
}

#[test]
fn a_deposit_asks_for_the_whole_total() {
    let ctx = deposit_context(0);
    assert_eq!(
        deposit_handler(&ctx, &PROGRAM_KEY),
        Ok(Transfer {
            from: ADMIN_TOKENS,
            to: VAULT_KEY,
            authority: ADMIN_KEY,
            mint: MINT_KEY,
            amount: 1000,
            decimals: 6,
        })
    );
}

#[test]
fn a_deposit_into_a_vault_that_holds_tokens_is_already_funded() {
    assert_eq!(deposit_handler(&deposit_context(1), &PROGRAM_KEY), Err(VestingError::AlreadyFunded));
    assert_eq!(
        deposit_handler(&deposit_context(1000), &PROGRAM_KEY),
        Err(VestingError::AlreadyFunded)
    );
    assert_eq!(
        deposit_handler(&deposit_context(u64::MAX), &PROGRAM_KEY),
        Err(VestingError::AlreadyFunded)
    );
}

#[test]
fn a_deposit_is_checked_before_the_vault_is_looked_at() {
    let mut ctx = deposit_context(5);
    ctx.admin.is_signer = false;
    assert_eq!(deposit_handler(&ctx, &PROGRAM_KEY), Err(VestingError::MissingSignature));
    let mut ctx = deposit_context(5);
    ctx.vesting_account.owner = [8; 32];
    assert_eq!(deposit_handler(&ctx, &PROGRAM_KEY), Err(VestingError::InvalidOwner));
    let mut ctx = deposit_context(5);
    ctx.admin.key = BENEFICIARY_KEY;
    assert_eq!(deposit_handler(&ctx, &PROGRAM_KEY), Err(VestingError::FieldMismatch));
    let mut ctx = deposit_context(5);
    ctx.mint.key = [33; 32];
    assert_eq!(deposit_handler(&ctx, &PROGRAM_KEY), Err(VestingError::FieldMismatch));
}

#[test]
fn a_claim_from_an_empty_vault_is_not_funded() {
    let mut ctx = claim_context(0);
    let before = ctx.clone();
    assert_eq!(claim_handler(&mut ctx, &PROGRAM_KEY, 550), Err(VestingError::NotFunded));
    assert_eq!(claim_handler(&mut ctx, &PROGRAM_KEY, 50), Err(VestingError::NotFunded));
    assert_eq!(ctx, before);
}

#[test]
fn a_claim_of_nothing_new_is_nothing_to_claim() {
    let mut ctx = claim_context(1000);
    let before = ctx.clone();
    assert_eq!(claim_handler(&mut ctx, &PROGRAM_KEY, 99), Err(VestingError::NothingToClaim));
    assert_eq!(ctx, before);
    assert!(claim_handler(&mut ctx, &PROGRAM_KEY, 400).is_ok());
    let after = ctx.clone();
    assert_eq!(claim_handler(&mut ctx, &PROGRAM_KEY, 400), Err(VestingError::NothingToClaim));
    assert_eq!(claim_handler(&mut ctx, &PROGRAM_KEY, 399), Err(VestingError::NothingToClaim));
    assert_eq!(ctx, after);
}

#[test]
fn a_claim_is_checked_before_anything_else() {
    let mut ctx = claim_context(0);
    ctx.beneficiary.is_signer = false;
    assert_eq!(claim_handler(&mut ctx, &PROGRAM_KEY, 550), Err(VestingError::MissingSignature));
    let mut ctx = claim_context(0);
    ctx.vesting_account.owner = [8; 32];
    assert_eq!(claim_handler(&mut ctx, &PROGRAM_KEY, 550), Err(VestingError::InvalidOwner));
    let mut ctx = claim_context(0);
    ctx.vesting_account.data = vec![0xEE; 145];
    assert_eq!(claim_handler(&mut ctx, &PROGRAM_KEY, 550), Err(VestingError::InvalidOwner));
    let mut ctx = claim_context(0);
    ctx.beneficiary.key = ADMIN_KEY;
    assert_eq!(claim_handler(&mut ctx, &PROGRAM_KEY, 550), Err(VestingError::FieldMismatch));
    let mut ctx = claim_context(0);
    ctx.mint.key = [33; 32];
    assert_eq!(claim_handler(&mut ctx, &PROGRAM_KEY, 550), Err(VestingError::FieldMismatch));
}

#[test]
fn a_claim_is_paid_from_the_vault_on_the_word_of_the_record() {
    let mut ctx = claim_context(1000);
    assert_eq!(
        claim_handler(&mut ctx, &PROGRAM_KEY, 550),
        Ok(Transfer {
            from: VAULT_KEY,
            to: BENEFICIARY_TOKENS,
            authority: record_key(),
            mint: MINT_KEY,
            amount: 550,
            decimals: 6,
        })
    );
    let stored = VestingAccount::unpack(&ctx.vesting_account.data).unwrap();
    assert_eq!(stored.released_amount, 550);
    assert_eq!(stored.total_amount, 1000);
    assert_eq!(ctx.vesting_account.owner, PROGRAM_KEY);
}

#[test]
fn a_grant_is_created_funded_and_claimed_to_the_end() {
    let mut admin_holds: u64 = 1000;
    let mut vault_holds: u64 = 0;
    let mut beneficiary_holds: u64 = 0;

    let mut create = create_context();
    create_vesting_handler(&mut create, &PROGRAM_KEY, SEED, 1000, 0, 100, 1000, BUMP).unwrap();
    let mut record = create.vesting_account;

    let deposit = Deposit {
        admin: Signer { key: ADMIN_KEY, is_signer: true },
        mint: Mint { key: MINT_KEY, decimals: 6 },
        vesting_account: record.clone(),
        vault: TokenAccount { key: VAULT_KEY, amount: vault_holds },
        admin_token_account: ADMIN_TOKENS,
    };
    let funding = deposit_handler(&deposit, &PROGRAM_KEY).unwrap();
    assert_eq!(funding.amount, 1000);
    admin_holds -= funding.amount;
    vault_holds += funding.amount;
    assert_eq!(admin_holds, 0);
    assert_eq!(vault_holds, 1000);

    let steps: Vec<(i64, Result<u64, VestingError>, u64, u64, u64)> = vec![
        (50, Err(VestingError::NothingToClaim), 0, 1000, 0),
        (550, Ok(550), 550, 450, 550),
        (1000, Ok(450), 1000, 0, 1000),
    ];
    for (now, expected, released, in_vault, with_beneficiary) in steps {
        let mut claim = Claim {
            beneficiary: Signer { key: BENEFICIARY_KEY, is_signer: true },
            mint: Mint { key: MINT_KEY, decimals: 6 },
            vesting_account: record.clone(),
            vault: TokenAccount { key: VAULT_KEY, amount: vault_holds },
            beneficiary_token_account: BENEFICIARY_TOKENS,
        };
        let outcome = claim_handler(&mut claim, &PROGRAM_KEY, now);
        assert_eq!(outcome.map(|t| t.amount), expected);
        if let Ok(t) = outcome {
            vault_holds -= t.amount;
            beneficiary_holds += t.amount;
        }
        record = claim.vesting_account;
        assert_eq!(VestingAccount::unpack(&record.data).unwrap().released_amount, released);
        assert_eq!(vault_holds, in_vault);
        assert_eq!(beneficiary_holds, with_beneficiary);
    }

    let mut last = Claim {
        beneficiary: Signer { key: BENEFICIARY_KEY, is_signer: true },
        mint: Mint { key: MINT_KEY, decimals: 6 },
        vesting_account: record.clone(),
        vault: TokenAccount { key: VAULT_KEY, amount: 1 },
        beneficiary_token_account: BENEFICIARY_TOKENS,
    };
    assert_eq!(claim_handler(&mut last, &PROGRAM_KEY, 2000), Err(VestingError::NothingToClaim));
    let mut drained = Claim {
        beneficiary: Signer { key: BENEFICIARY_KEY, is_signer: true },
        mint: Mint { key: MINT_KEY, decimals: 6 },
        vesting_account: record,
        vault: TokenAccount { key: VAULT_KEY, amount: vault_holds },
        beneficiary_token_account: BENEFICIARY_TOKENS,
    };
    assert_eq!(claim_handler(&mut drained, &PROGRAM_KEY, 2000), Err(VestingError::NotFunded));
}

#[test]
fn a_claim_does_not_weigh_the_vault_against_what_is_claimable() {
    let mut ctx = claim_context(1);
    let paid = claim_handler(&mut ctx, &PROGRAM_KEY, 550).unwrap();
    assert_eq!(paid.amount, 550);
    assert_eq!(paid.from, VAULT_KEY);
}

#[test]
fn a_deposit_is_of_the_total_whatever_has_been_released() {
    let mut ctx = claim_context(1000);
    claim_handler(&mut ctx, &PROGRAM_KEY, 550).unwrap();
    let deposit = Deposit {
        admin: Signer { key: ADMIN_KEY, is_signer: true },
        mint: Mint { key: MINT_KEY, decimals: 9 },
        vesting_account: ctx.vesting_account,
        vault: TokenAccount { key: VAULT_KEY, amount: 0 },
        admin_token_account: ADMIN_TOKENS,
    };
    let funding = deposit_handler(&deposit, &PROGRAM_KEY).unwrap();
    assert_eq!(funding.amount, 1000);
    assert_eq!(funding.decimals, 9);
}

#[test]
fn an_unsigned_creation_is_a_missing_signature_whatever_it_asks_for() {
    let mut ctx = create_context();
    ctx.admin.is_signer = false;
    let before = ctx.clone();
    assert_eq!(
        create_vesting_handler(&mut ctx, &PROGRAM_KEY, SEED, 0, 0, 100, 1000, BUMP),
        Err(VestingError::MissingSignature)
    );
    assert_eq!(
        create_vesting_handler(&mut ctx, &PROGRAM_KEY, SEED, 1000, 500, 100, 50, BUMP),
        Err(VestingError::MissingSignature)
    );
    assert_eq!(
        create_vesting_handler(&mut ctx, &PROGRAM_KEY, SEED + 1, 0, 9, 9, 9, 255),
        Err(VestingError::MissingSignature)
    );
    assert_eq!(
        create_vesting_with(&mut ctx, &PROGRAM_KEY, &None, SEED, 0, 0, 100, 1000, BUMP),
        Err(VestingError::MissingSignature)
    );
    ctx.vesting_account.data = vec![1, 2, 3];
    let before_with_data = ctx.clone();
    assert_eq!(
        create_vesting_handler(&mut ctx, &PROGRAM_KEY, SEED, 1000, 0, 100, 1000, BUMP),
        Err(VestingError::MissingSignature)
    );
    assert_eq!(ctx, before_with_data);
    assert_ne!(ctx, before);
}

#[test]
fn creation_tests_the_terms_before_the_identity_and_the_identity_before_the_data() {
    let mut ctx = create_context();
    ctx.vesting_account.key = [4; 32];
    ctx.vesting_account.data = vec![1];
    assert_eq!(
        create_vesting_handler(&mut ctx, &PROGRAM_KEY, SEED, 0, 0, 100, 1000, BUMP),
        Err(VestingError::InvalidArgument)
    );
    assert_eq!(
        create_vesting_handler(&mut ctx, &PROGRAM_KEY, SEED, 1000, 0, 100, 1000, BUMP),
        Err(VestingError::AddressDerivationMismatch)
    );
    ctx.vesting_account.key = record_key();
    assert_eq!(
        create_vesting_handler(&mut ctx, &PROGRAM_KEY, SEED, 1000, 0, 100, 1000, BUMP),
        Err(VestingError::AlreadyExists)
    );
}
