use nft_gateway::{AccountRef, BindError, ProgramIds, Requirement, Role, TransferNftV1Accounts};
use solana_program::pubkey::Pubkey;
use solana_sdk_ids::system_program;

const GATEWAY_ID: Pubkey = Pubkey::from_str_const("3KRCmsnNYQvjp1TZaha1riRmx5GGVt67yv2sxDsFXbRG");

fn ids() -> ProgramIds {
    ProgramIds::new()
}

fn new_test_account(
    key: Pubkey,
    is_signer: bool,
    is_writable: bool,
    lamports: u64,
    space: usize,
    owner: Pubkey,
) -> AccountRef {
    AccountRef {
        key: key.to_bytes(),
        owner: owner.to_bytes(),
        is_signer,
        is_writable,
        lamports,
        data_len: space,
    }
}

fn valid_accounts() -> Vec<AccountRef> {
    let asset = new_test_account(Pubkey::new_unique(), false, true, 1, 0, system_program::ID);
    let collection = new_test_account(Pubkey::new_unique(), false, true, 1, 0, system_program::ID);
    let authority = new_test_account(Pubkey::new_unique(), true, false, 1, 0, system_program::ID);
    let new_owner = new_test_account(Pubkey::new_unique(), true, false, 1, 0, system_program::ID);
    let payer = new_test_account(Pubkey::new_unique(), true, true, 1, 0, system_program::ID);
    let system_program =
        new_test_account(system_program::ID, false, false, 1, 0, system_program::ID);
    let log_wrapper = new_test_account(Pubkey::new_unique(), false, false, 1, 0, system_program::ID);
    let mpl_core = new_test_account(mpl_core::ID, false, false, 1, 0, mpl_core::ID);
    vec![asset, collection, authority, new_owner, payer, system_program, log_wrapper, mpl_core]
}

#[test]
fn test_transfer_nft_account_success() {
    let accounts = valid_accounts();
    let res = TransferNftV1Accounts::try_from(accounts.as_slice(), &ids());
    assert!(res.is_ok(), "expected Ok, but got Err: {:?}", res);
}

#[test]
fn test_transfer_nft_account_wrong_system_program() {
    let mut accounts = valid_accounts();
    accounts[5] = new_test_account(
        Pubkey::new_unique(),
        false,
        false,
        1,
        0,
        Pubkey::new_unique(),
    );
    let res = TransferNftV1Accounts::try_from(accounts.as_slice(), &ids());
    assert!(
        res.is_err(),
        "expected failure because system_program was wrong, but got Ok: {:?}",
        res,
    );
}

#[test]
fn test_transfer_nft_account_wrong_mpl_core() {
    let mut accounts = valid_accounts();
    accounts[7] = new_test_account(
        Pubkey::new_unique(),
        false,
        false,
        1,
        0,
        Pubkey::new_unique(),
    );
    let res = TransferNftV1Accounts::try_from(accounts.as_slice(), &ids());
    assert!(
        res.is_err(),
        "expected failure because mpl_core was wrong, but got Ok: {:?}",
        res
    );
}

#[test]
fn test_transfer_nft_account_not_enough_accounts() {
    let accounts: Vec<AccountRef> = vec![];
    let res = TransferNftV1Accounts::try_from(accounts.as_slice(), &ids());
    assert!(
        res.is_err(),
        "expected failure because account is not enough, but got Ok: {:?}",
        res
    );
}

#[test]
fn transfer_new_owner_needs_no_capability() {
    let mut accounts = valid_accounts();
    accounts[3] = new_test_account(Pubkey::new_unique(), false, false, 0, 0, Pubkey::new_unique());
    let b = TransferNftV1Accounts::try_from(accounts.as_slice(), &ids()).unwrap();
    assert_eq!(b.new_owner, 3);
    assert_eq!(b.payer, 4);
    assert_eq!(b.mpl_core, 7);
}

#[test]
fn transfer_absent_system_program_is_not_checked() {
    let mut accounts = valid_accounts();
    accounts[5] = new_test_account(GATEWAY_ID, false, false, 0, 0, Pubkey::new_unique());
    let b = TransferNftV1Accounts::try_from(accounts.as_slice(), &ids()).unwrap();
    assert_eq!(b.system_program, None);
    assert_eq!(b.collection, Some(1));
}

#[test]
fn transfer_present_system_program_with_wrong_owner_is_reported() {
    let mut accounts = valid_accounts();
    accounts[5].owner = Pubkey::new_unique().to_bytes();
    let res = TransferNftV1Accounts::try_from(accounts.as_slice(), &ids());
    assert_eq!(
        res.unwrap_err(),
        BindError::CapabilityViolation {
            role: Role::SystemProgram,
            requirement: Requirement::SystemOwned
        }
    );
}

#[test]
fn transfer_reports_asset_not_writable() {
    let mut accounts = valid_accounts();
    accounts[0].is_writable = false;
    let res = TransferNftV1Accounts::try_from(accounts.as_slice(), &ids());
    assert_eq!(
        res.unwrap_err(),
        BindError::CapabilityViolation { role: Role::Asset, requirement: Requirement::Writable }
    );
}
