use nft_gateway::{AccountRef, BindError, CreateNftV1Accounts, ProgramIds, Requirement, Role};
use solana_program::pubkey::Pubkey;
use solana_sdk_ids::system_program;

const GATEWAY_ID: Pubkey = Pubkey::from_str_const("3KRCmsnNYQvjp1TZaha1riRmx5GGVt67yv2sxDsFXbRG");

fn ids() -> ProgramIds {
    ProgramIds::new()
}

fn new_test_account(
    key: Pubkey,
    is_signer: bool,
    is_writable: bool,
    lamports: u64,
    space: usize,
    owner: Pubkey,
) -> AccountRef {
    AccountRef {
        key: key.to_bytes(),
        owner: owner.to_bytes(),
        is_signer,
        is_writable,
        lamports,
        data_len: space,
    }
}

fn valid_accounts() -> Vec<AccountRef> {
    let asset = new_test_account(Pubkey::new_unique(), false, true, 1, 0, system_program::ID);
    let collection = new_test_account(Pubkey::new_unique(), false, true, 1, 0, system_program::ID);
    let authority = new_test_account(Pubkey::new_unique(), true, false, 1, 0, system_program::ID);
    let payer = new_test_account(Pubkey::new_unique(), true, true, 1, 0, system_program::ID);
    let owner = new_test_account(Pubkey::new_unique(), true, false, 1, 0, system_program::ID);
    let update_authority =
        new_test_account(Pubkey::new_unique(), true, false, 1, 0, system_program::ID);
    let system_program =
        new_test_account(system_program::ID, false, false, 1, 0, system_program::ID);
    let log_wrapper = new_test_account(Pubkey::new_unique(), false, false, 1, 0, system_program::ID);
    let mpl_core = new_test_account(mpl_core::ID, false, false, 1, 0, mpl_core::ID);
    vec![
        asset,
        collection,
        authority,
        payer,
        owner,
        update_authority,
        system_program,
        log_wrapper,
        mpl_core,
    ]
}

#[test]
fn create_nft_v1_test_create_nft_account_success() {
    let accounts = valid_accounts();
    let res = CreateNftV1Accounts::try_from(accounts.as_slice(), &ids());
    assert!(res.is_ok(), "expected Ok, but got Err: {:?}", res);
}

#[test]
fn create_nft_v1_test_create_nft_account_wrong_system_program() {
    let mut accounts = valid_accounts();
    accounts[6] = new_test_account(
        Pubkey::new_unique(),
        false,
        false,
        1,
        0,
        Pubkey::new_unique(),
    );
    let res = CreateNftV1Accounts::try_from(accounts.as_slice(), &ids());
    assert!(
        res.is_err(),
        "expected failure because system_program was wrong, but got Ok: {:?}",
        res,
    );
}

#[test]
fn create_nft_v1_test_create_nft_account_wrong_mpl_core() {
    let mut accounts = valid_accounts();
    accounts[8] = new_test_account(
        Pubkey::new_unique(),
        false,
        false,
        1,
        0,
        Pubkey::new_unique(),
    );
    let res = CreateNftV1Accounts::try_from(accounts.as_slice(), &ids());
    assert!(
        res.is_err(),
        "expected failure because mpl_core was wrong, but got Ok: {:?}",
        res
    );
}

#[test]
fn create_nft_v1_test_create_nft_account_not_enough_accounts() {
    let accounts: Vec<AccountRef> = vec![];
    let res = CreateNftV1Accounts::try_from(accounts.as_slice(), &ids());
    assert!(
        res.is_err(),
        "expected failure because account is not enough, but got Ok: {:?}",
        res
    );
}

#[test]
fn create_binds_roles_to_slots() {
    let accounts = valid_accounts();
    let b = CreateNftV1Accounts::try_from(accounts.as_slice(), &ids()).unwrap();
    assert_eq!(b.asset, 0);
    assert_eq!(b.collection, Some(1));
    assert_eq!(b.authority, Some(2));
    assert_eq!(b.payer, 3);
    assert_eq!(b.owner, Some(4));
    assert_eq!(b.update_authority, Some(5));
    assert_eq!(b.system_program, 6);
    assert_eq!(b.log_wrapper, Some(7));
    assert_eq!(b.mpl_core, 8);
}

#[test]
fn create_rejects_one_account_short_and_one_too_many() {
    let mut accounts = valid_accounts();
    accounts.pop();
    let res = CreateNftV1Accounts::try_from(accounts.as_slice(), &ids());
    assert_eq!(res.unwrap_err(), BindError::NotEnoughAccounts);
    let mut accounts = valid_accounts();
    accounts.push(accounts[0]);
    let res = CreateNftV1Accounts::try_from(accounts.as_slice(), &ids());
    assert_eq!(res.unwrap_err(), BindError::NotEnoughAccounts);
}

#[test]
fn create_reports_payer_not_signer() {
    let mut accounts = valid_accounts();
    accounts[3].is_signer = false;
    let res = CreateNftV1Accounts::try_from(accounts.as_slice(), &ids());
    assert_eq!(
        res.unwrap_err(),
        BindError::CapabilityViolation { role: Role::Payer, requirement: Requirement::Signer }
    );
}

#[test]
fn create_reports_first_violation_in_table_order() {
    let mut accounts = valid_accounts();
    accounts[0].is_writable = false;
    accounts[3].is_writable = false;
    let res = CreateNftV1Accounts::try_from(accounts.as_slice(), &ids());
    assert_eq!(
        res.unwrap_err(),
        BindError::CapabilityViolation { role: Role::Asset, requirement: Requirement::Writable }
    );
}

#[test]
fn create_present_optional_collection_is_checked() {
    let mut accounts = valid_accounts();
    accounts[1].is_writable = false;
    let res = CreateNftV1Accounts::try_from(accounts.as_slice(), &ids());
    assert_eq!(
        res.unwrap_err(),
        BindError::CapabilityViolation {
            role: Role::Collection,
            requirement: Requirement::Writable
        }
    );
}

#[test]
fn create_absent_optional_roles_are_skipped() {
    let mut accounts = valid_accounts();
    for slot in [1usize, 2, 4, 5, 7] {
        accounts[slot] = new_test_account(GATEWAY_ID, false, false, 0, 0, Pubkey::new_unique());
    }
    let b = CreateNftV1Accounts::try_from(accounts.as_slice(), &ids()).unwrap();
    assert_eq!(b.collection, None);
    assert_eq!(b.authority, None);
    assert_eq!(b.owner, None);
    assert_eq!(b.update_authority, None);
    assert_eq!(b.log_wrapper, None);
}

#[test]
fn create_system_owned_impostor_is_reported_as_identity() {
    let mut accounts = valid_accounts();
    accounts[6] = new_test_account(Pubkey::new_unique(), false, false, 1, 0, system_program::ID);
    let res = CreateNftV1Accounts::try_from(accounts.as_slice(), &ids());
    assert_eq!(
        res.unwrap_err(),
        BindError::CapabilityViolation {
            role: Role::SystemProgram,
            requirement: Requirement::SystemProgramId
        }
    );
}

#[test]
fn create_system_program_with_wrong_owner_is_reported_as_owner() {
    let mut accounts = valid_accounts();
    accounts[6].owner = Pubkey::new_unique().to_bytes();
    let res = CreateNftV1Accounts::try_from(accounts.as_slice(), &ids());
    assert_eq!(
        res.unwrap_err(),
        BindError::CapabilityViolation {
            role: Role::SystemProgram,
            requirement: Requirement::SystemOwned
        }
    );
}
