use vesting::errors::VestingError;
use vesting::guard::{
    authorize, check_derived_address, check_field, check_record, check_signer, RecordAccount,
    Role, Signer,
};
use vesting::state::VestingAccount;

const ADMIN: [u8; 32] = [1; 32];
const BENEFICIARY: [u8; 32] = [2; 32];
const MINT: [u8; 32] = [3; 32];
const PROGRAM: [u8; 32] = [9; 32];

fn stored_grant() -> VestingAccount {
    VestingAccount::new(ADMIN, BENEFICIARY, MINT, 7, 1000, 0, 100, 1000, 253).unwrap()
}

fn stored_record() -> RecordAccount {
    RecordAccount { key: [4; 32], owner: PROGRAM, data: stored_grant().pack() }
}

#[test]
fn the_one_who_authorizes_must_have_signed() {
    assert_eq!(check_signer(&Signer { key: ADMIN, is_signer: true }), Ok(()));
    assert_eq!(
        check_signer(&Signer { key: ADMIN, is_signer: false }),
        Err(VestingError::MissingSignature)
    );
}

#[test]
fn the_record_must_belong_to_the_program() {
    assert_eq!(check_record(&stored_record(), &PROGRAM), Ok(stored_grant()));
    let mut foreign = stored_record();
    foreign.owner = [8; 32];
    assert_eq!(check_record(&foreign, &PROGRAM), Err(VestingError::InvalidOwner));
    let mut nearly = stored_record();
    nearly.owner[31] = 10;
    assert_eq!(check_record(&nearly, &PROGRAM), Err(VestingError::InvalidOwner));
}

#[test]
fn the_record_must_hold_a_grant() {
    let mut garbage = stored_record();
    garbage.data = vec![0xAB; 145];
    assert_eq!(check_record(&garbage, &PROGRAM), Err(VestingError::InvalidOwner));
    let mut short = stored_record();
    short.data.pop();
    assert_eq!(check_record(&short, &PROGRAM), Err(VestingError::InvalidOwner));
    let mut empty = stored_record();
    empty.data = Vec::new();
    assert_eq!(check_record(&empty, &PROGRAM), Err(VestingError::InvalidOwner));
}

#[test]
fn supplied_identities_must_be_those_of_the_grant() {
    assert_eq!(check_field(&ADMIN, &ADMIN), Ok(()));
    assert_eq!(check_field(&ADMIN, &BENEFICIARY), Err(VestingError::FieldMismatch));
    let mut other = ADMIN;
    other[0] = 0;
    assert_eq!(check_field(&other, &ADMIN), Err(VestingError::FieldMismatch));
    let mut other = ADMIN;
    other[31] = 0;
    assert_eq!(check_field(&ADMIN, &other), Err(VestingError::FieldMismatch));
}

#[test]
fn the_derived_identity_must_be_that_of_the_record() {
    assert_eq!(check_derived_address(&Some([4; 32]), &[4; 32]), Ok(()));
    assert_eq!(
        check_derived_address(&Some([5; 32]), &[4; 32]),
        Err(VestingError::AddressDerivationMismatch)
    );
    assert_eq!(
        check_derived_address(&None, &[4; 32]),
        Err(VestingError::AddressDerivationMismatch)
    );
}

#[test]
fn the_checks_pass_for_the_admin_and_for_the_beneficiary() {
    let admin = Signer { key: ADMIN, is_signer: true };
    let beneficiary = Signer { key: BENEFICIARY, is_signer: true };
    assert_eq!(
        authorize(&admin, &MINT, &stored_record(), &PROGRAM, Role::Admin),
        Ok(stored_grant())
    );
    assert_eq!(
        authorize(&beneficiary, &MINT, &stored_record(), &PROGRAM, Role::Beneficiary),
        Ok(stored_grant())
    );
    assert_eq!(
        authorize(&beneficiary, &MINT, &stored_record(), &PROGRAM, Role::Admin),
        Err(VestingError::FieldMismatch)
    );
    assert_eq!(
        authorize(&admin, &MINT, &stored_record(), &PROGRAM, Role::Beneficiary),
        Err(VestingError::FieldMismatch)
    );
    assert_eq!(
        authorize(&admin, &[33; 32], &stored_record(), &PROGRAM, Role::Admin),
        Err(VestingError::FieldMismatch)
    );
}

#[test]
fn the_first_check_that_fails_decides() {
    let unsigned_stranger = Signer { key: [77; 32], is_signer: false };
    let mut foreign = stored_record();
    foreign.owner = [8; 32];
    assert_eq!(
        authorize(&unsigned_stranger, &[33; 32], &foreign, &PROGRAM, Role::Admin),
        Err(VestingError::MissingSignature)
    );
    let signed_stranger = Signer { key: [77; 32], is_signer: true };
    assert_eq!(
        authorize(&signed_stranger, &[33; 32], &foreign, &PROGRAM, Role::Admin),
        Err(VestingError::InvalidOwner)
    );
    assert_eq!(
        authorize(&signed_stranger, &[33; 32], &stored_record(), &PROGRAM, Role::Admin),
        Err(VestingError::FieldMismatch)
    );
}
