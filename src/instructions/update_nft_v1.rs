use vstd::prelude::*;

use crate::account::{AccountRef, ProgramIds};
use crate::binding::BindError;
use crate::codec::UpdateNftV1InstructionData;
use crate::instructions::{bind, binding_outcome, bound, present, present_slot, Operation};

verus! {

/// The update operation's roles, each given as its slot in the account list.
#[derive(Clone, Copy, Debug)]
pub struct UpdateNftV1Accounts {
    pub asset: usize,
    pub collection: usize,
    pub authority: Option<usize>,
    pub payer: usize,
    pub system_program: usize,
    pub log_wrapper: Option<usize>,
    pub mpl_core: usize,
}

/// The roles of a seven-slot account list.
pub open spec fn update_accounts(accs: Seq<AccountRef>) -> UpdateNftV1Accounts {
    UpdateNftV1Accounts {
        asset: 0,
        collection: 1,
        authority: present(accs, 2),
        payer: 3,
        system_program: 4,
        log_wrapper: present(accs, 5),
        mpl_core: 6,
    }
}

impl UpdateNftV1Accounts {
    /// Binds the account list to the update operation's roles.
    pub fn try_from(accounts: &[AccountRef], ids: &ProgramIds) -> (r: Result<
        UpdateNftV1Accounts,
        BindError,
    >)
        ensures
            r == bound(
                binding_outcome(Operation::UpdateNftV1, accounts@, *ids),
                update_accounts(accounts@),
            ),
    {
        bind(Operation::UpdateNftV1, accounts, ids)?;
        Ok(
            UpdateNftV1Accounts {
                asset: 0,
                collection: 1,
                authority: present_slot(accounts, 2),
                payer: 3,
                system_program: 4,
                log_wrapper: present_slot(accounts, 5),
                mpl_core: 6,
            },
        )
    }
}

/// An update request whose accounts passed every check.
#[derive(Debug)]
pub struct UpdateNftV1 {
    pub accounts: UpdateNftV1Accounts,
    pub instruction_data: UpdateNftV1InstructionData,
}

impl UpdateNftV1 {
    /// Binds the accounts and keeps the decoded arguments beside them.
    pub fn try_from(
        accounts: &[AccountRef],
        instruction_data: UpdateNftV1InstructionData,
        ids: &ProgramIds,
    ) -> (r: Result<UpdateNftV1, BindError>)
        ensures
            match r {
                Ok(c) => binding_outcome(Operation::UpdateNftV1, accounts@, *ids) is Ok
                    && c.accounts == update_accounts(accounts@) && c.instruction_data
                    == instruction_data,
                Err(e) => binding_outcome(Operation::UpdateNftV1, accounts@, *ids) == Err::<
                    (),
                    BindError,
                >(e),
            },
    {
        let accounts = UpdateNftV1Accounts::try_from(accounts, ids)?;
        Ok(UpdateNftV1 { accounts, instruction_data })
    }

    /// The call to forward to the asset protocol: a name or uri is changed only
    /// where one was given.
    pub fn process(self) -> (r: UpdateV1Call)
        ensures
            r.accounts == self.accounts,
            r.new_name == self.instruction_data.new_name,
            r.new_uri == self.instruction_data.new_uri,
    {
        UpdateV1Call {
            accounts: self.accounts,
            new_name: self.instruction_data.new_name,
            new_uri: self.instruction_data.new_uri,
        }
    }
}

/// The asset protocol's update call.
#[derive(Debug)]
pub struct UpdateV1Call {
    pub accounts: UpdateNftV1Accounts,
    pub new_name: Option<String>,
    pub new_uri: Option<String>,
}

} // verus!
