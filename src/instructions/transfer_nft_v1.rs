use vstd::prelude::*;

use crate::account::{AccountRef, ProgramIds};
use crate::binding::BindError;
use crate::instructions::{bind, binding_outcome, bound, present, present_slot, Operation};

verus! {

/// The transfer operation's roles, each given as its slot in the account list.
#[derive(Clone, Copy, Debug)]
pub struct TransferNftV1Accounts {
    pub asset: usize,
    pub collection: Option<usize>,
    pub authority: Option<usize>,
    pub new_owner: usize,
    pub payer: usize,
    pub system_program: Option<usize>,
    pub log_wrapper: Option<usize>,
    pub mpl_core: usize,
}

/// The roles of an eight-slot account list.
pub open spec fn transfer_accounts(accs: Seq<AccountRef>) -> TransferNftV1Accounts {
    TransferNftV1Accounts {
        asset: 0,
        collection: present(accs, 1),
        authority: present(accs, 2),
        new_owner: 3,
        payer: 4,
        system_program: present(accs, 5),
        log_wrapper: present(accs, 6),
        mpl_core: 7,
    }
}

impl TransferNftV1Accounts {
    /// Binds the account list to the transfer operation's roles.
    pub fn try_from(accounts: &[AccountRef], ids: &ProgramIds) -> (r: Result<
        TransferNftV1Accounts,
        BindError,
    >)
        ensures
            r == bound(
                binding_outcome(Operation::TransferNftV1, accounts@, *ids),
                transfer_accounts(accounts@),
            ),
    {
        bind(Operation::TransferNftV1, accounts, ids)?;
        Ok(
            TransferNftV1Accounts {
                asset: 0,
                collection: present_slot(accounts, 1),
                authority: present_slot(accounts, 2),
                new_owner: 3,
                payer: 4,
                system_program: present_slot(accounts, 5),
                log_wrapper: present_slot(accounts, 6),
                mpl_core: 7,
            },
        )
    }
}

/// A transfer request whose accounts passed every check.
#[derive(Debug)]
pub struct TransferNftV1 {
    pub accounts: TransferNftV1Accounts,
}

impl TransferNftV1 {
    /// Binds the accounts.
    pub fn try_from(accounts: &[AccountRef], ids: &ProgramIds) -> (r: Result<
        TransferNftV1,
        BindError,
    >)
        ensures
            r == bound(
                binding_outcome(Operation::TransferNftV1, accounts@, *ids),
                TransferNftV1 { accounts: transfer_accounts(accounts@) },
            ),
    {
        let accounts = TransferNftV1Accounts::try_from(accounts, ids)?;
        Ok(TransferNftV1 { accounts })
    }

    /// The call to forward to the asset protocol.
    pub fn process(self) -> (r: TransferV1Call)
        ensures
            r.accounts == self.accounts,
    {
        TransferV1Call { accounts: self.accounts }
    }
}

/// The asset protocol's transfer call.
#[derive(Debug)]
pub struct TransferV1Call {
    pub accounts: TransferNftV1Accounts,
}

} // verus!
