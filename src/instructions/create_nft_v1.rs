use vstd::prelude::*;

use crate::account::{AccountRef, ProgramIds};
use crate::binding::BindError;
use crate::codec::{plugins_view, CreateNftV1InstructionData, DataState, PluginList};
use crate::instructions::{bind, binding_outcome, bound, present, present_slot, Operation};

verus! {

/// The create operation's roles, each given as its slot in the account list.
#[derive(Clone, Copy, Debug)]
pub struct CreateNftV1Accounts {
    pub asset: usize,
    pub collection: Option<usize>,
    pub authority: Option<usize>,
    pub payer: usize,
    pub owner: Option<usize>,
    pub update_authority: Option<usize>,
    pub system_program: usize,
    pub log_wrapper: Option<usize>,
    pub mpl_core: usize,
}

/// The roles of a nine-slot account list.
pub open spec fn create_accounts(accs: Seq<AccountRef>) -> CreateNftV1Accounts {
    CreateNftV1Accounts {
        asset: 0,
        collection: present(accs, 1),
        authority: present(accs, 2),
        payer: 3,
        owner: present(accs, 4),
        update_authority: present(accs, 5),
        system_program: 6,
        log_wrapper: present(accs, 7),
        mpl_core: 8,
    }
}

impl CreateNftV1Accounts {
    /// Binds the account list to the create operation's roles.
    pub fn try_from(accounts: &[AccountRef], ids: &ProgramIds) -> (r: Result<
        CreateNftV1Accounts,
        BindError,
    >)
        ensures
            r == bound(
                binding_outcome(Operation::CreateNftV1, accounts@, *ids),
                create_accounts(accounts@),
            ),
    {
        bind(Operation::CreateNftV1, accounts, ids)?;
        Ok(
            CreateNftV1Accounts {
                asset: 0,
                collection: present_slot(accounts, 1),
                authority: present_slot(accounts, 2),
                payer: 3,
                owner: present_slot(accounts, 4),
                update_authority: present_slot(accounts, 5),
                system_program: 6,
                log_wrapper: present_slot(accounts, 7),
                mpl_core: 8,
            },
        )
    }
}

/// A create request whose accounts passed every check.
#[derive(Debug)]
pub struct CreateNftV1 {
    pub accounts: CreateNftV1Accounts,
    pub instruction_data: CreateNftV1InstructionData,
}

impl CreateNftV1 {
    /// Binds the accounts and keeps the decoded arguments beside them.
    pub fn try_from(
        accounts: &[AccountRef],
        instruction_data: CreateNftV1InstructionData,
        ids: &ProgramIds,
    ) -> (r: Result<CreateNftV1, BindError>)
        ensures
            match r {
                Ok(c) => binding_outcome(Operation::CreateNftV1, accounts@, *ids) is Ok
                    && c.accounts == create_accounts(accounts@) && c.instruction_data
                    == instruction_data,
                Err(e) => binding_outcome(Operation::CreateNftV1, accounts@, *ids) == Err::<
                    (),
                    BindError,
                >(e),
            },
    {
        let accounts = CreateNftV1Accounts::try_from(accounts, ids)?;
        Ok(CreateNftV1 { accounts, instruction_data })
    }

    /// The call to forward to the asset protocol, with the protocol's defaults for
    /// omitted arguments: account-resident data and no plugins.
    pub fn process(self) -> (r: CreateV1Call)
        ensures
            r.accounts == self.accounts,
            r.data_state == data_state_or_default(self.instruction_data.data_state),
            r.name == self.instruction_data.name,
            r.uri == self.instruction_data.uri,
            r.plugins@ == plugins_or_empty(plugins_view(self.instruction_data.plugins)),
    {
        let data = self.instruction_data;
        let data_state = match data.data_state {
            Some(d) => d,
            None => DataState::AccountState,
        };
        let plugins = match data.plugins {
            Some(p) => p,
            None => PluginList::empty(),
        };
        CreateV1Call { accounts: self.accounts, data_state, name: data.name, uri: data.uri, plugins }
    }
}

/// The asset protocol's create call, every argument settled.
#[derive(Debug)]
pub struct CreateV1Call {
    pub accounts: CreateNftV1Accounts,
    pub data_state: DataState,
    pub name: String,
    pub uri: String,
    pub plugins: PluginList,
}

pub open spec fn data_state_or_default(d: Option<DataState>) -> DataState {
    match d {
        Some(s) => s,
        None => DataState::AccountState,
    }
}

/// The encoding of an empty plugin list: a zero count.
pub open spec fn empty_plugin_list() -> Seq<u8> {
    seq![0u8, 0u8, 0u8, 0u8]
}

pub open spec fn plugins_or_empty(p: Option<Seq<u8>>) -> Seq<u8> {
    match p {
        Some(q) => q,
        None => empty_plugin_list(),
    }
}

impl PluginList {
    /// The list with no plugins.
    pub fn empty() -> (r: PluginList)
        ensures
            r@ == empty_plugin_list(),
    {
        let mut encoded: Vec<u8> = Vec::new();
        encoded.push(0);
        encoded.push(0);
        encoded.push(0);
        encoded.push(0);
        assert(encoded@ =~= empty_plugin_list());
        PluginList { encoded }
    }
}

} // verus!
