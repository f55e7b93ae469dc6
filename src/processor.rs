use vstd::prelude::*;

use crate::account::{AccountRef, ProgramIds};
use crate::binding::BindError;
use crate::codec::{parse_instruction, DataState, DecodeError, InstructionView, Instructions};
use crate::instructions::create_nft_v1::{
    create_accounts, data_state_or_default, plugins_or_empty, CreateNftV1, CreateNftV1Accounts,
    CreateV1Call,
};
use crate::instructions::transfer_nft_v1::{
    transfer_accounts, TransferNftV1, TransferNftV1Accounts, TransferV1Call,
};
use crate::instructions::update_nft_v1::{
    update_accounts, UpdateNftV1, UpdateNftV1Accounts, UpdateV1Call,
};
use crate::instructions::{binding_outcome, bound, Operation};

verus! {

/// The one call into the asset protocol that a valid instruction leads to.
#[derive(Debug)]
pub enum Invocation {
    CreateV1(CreateV1Call),
    UpdateV1(UpdateV1Call),
    TransferV1(TransferV1Call),
}

/// Why an instruction was refused before any call was made.
#[derive(Clone, Copy, Debug, PartialEq, Eq, Structural)]
pub enum GatewayError {
    Decode(DecodeError),
    Bind(BindError),
}

/// A call into the asset protocol as a mathematical value.
#[allow(inconsistent_fields)]
pub enum InvocationView {
    CreateV1 {
        accounts: CreateNftV1Accounts,
        data_state: DataState,
        name: Seq<char>,
        uri: Seq<char>,
        plugins: Seq<u8>,
    },
    UpdateV1 {
        accounts: UpdateNftV1Accounts,
        new_name: Option<Seq<char>>,
        new_uri: Option<Seq<char>>,
    },
    TransferV1 { accounts: TransferNftV1Accounts },
}

impl View for Invocation {
    type V = InvocationView;

    open spec fn view(&self) -> InvocationView {
        match self {
            Invocation::CreateV1(c) => InvocationView::CreateV1 {
                accounts: c.accounts,
                data_state: c.data_state,
                name: c.name@,
                uri: c.uri@,
                plugins: c.plugins@,
            },
            Invocation::UpdateV1(c) => InvocationView::UpdateV1 {
                accounts: c.accounts,
                new_name: crate::codec::text_view(c.new_name),
                new_uri: crate::codec::text_view(c.new_uri),
            },
            Invocation::TransferV1(c) => InvocationView::TransferV1 { accounts: c.accounts },
        }
    }
}

/// The call that a decoded instruction leads to over this account list, or the
/// binding error that stops it.
pub open spec fn route(op: InstructionView, accs: Seq<AccountRef>, ids: ProgramIds) -> Result<
    InvocationView,
    BindError,
> {
    match op {
        InstructionView::CreateNftV1(d) => bound(
            binding_outcome(Operation::CreateNftV1, accs, ids),
            InvocationView::CreateV1 {
                accounts: create_accounts(accs),
                data_state: data_state_or_default(d.data_state),
                name: d.name,
                uri: d.uri,
                plugins: plugins_or_empty(d.plugins),
            },
        ),
        InstructionView::UpdateNftV1(d) => bound(
            binding_outcome(Operation::UpdateNftV1, accs, ids),
            InvocationView::UpdateV1 {
                accounts: update_accounts(accs),
                new_name: d.new_name,
                new_uri: d.new_uri,
            },
        ),
        InstructionView::TransferNftV1 => bound(
            binding_outcome(Operation::TransferNftV1, accs, ids),
            InvocationView::TransferV1 { accounts: transfer_accounts(accs) },
        ),
    }
}

/// The whole instruction: decode, then route.
pub open spec fn entry_outcome(accs: Seq<AccountRef>, data: Seq<u8>, ids: ProgramIds) -> Result<
    InvocationView,
    GatewayError,
> {
    match parse_instruction(data) {
        Err(e) => Err(GatewayError::Decode(e)),
        Ok(op) => match route(op, accs, ids) {
            Ok(v) => Ok(v),
            Err(e) => Err(GatewayError::Bind(e)),
        },
    }
}

/// Binds the accounts of a decoded instruction and settles the call to forward.
pub fn route_instruction(accounts: &[AccountRef], instruction: Instructions, ids: &ProgramIds) -> (r:
    Result<Invocation, BindError>)
    ensures
        match r {
            Ok(i) => route(instruction@, accounts@, *ids) == Ok::<_, BindError>(i@),
            Err(e) => route(instruction@, accounts@, *ids) == Err::<InvocationView, BindError>(e),
        },
{
    match instruction {
        Instructions::CreateNftV1(data) => {
            let c = CreateNftV1::try_from(accounts, data, ids)?;
            Ok(Invocation::CreateV1(c.process()))
        },
        Instructions::UpdateNftV1(data) => {
            let c = UpdateNftV1::try_from(accounts, data, ids)?;
            Ok(Invocation::UpdateV1(c.process()))
        },
        Instructions::TransferNftV1 => {
            let c = TransferNftV1::try_from(accounts, ids)?;
            Ok(Invocation::TransferV1(c.process()))
        },
    }
}

/// Decodes the payload, binds the accounts, and settles the one call to forward.
/// Nothing is forwarded unless every check passed.
pub fn process_entrypoint(ids: &ProgramIds, accounts: &[AccountRef], instruction_data: &[u8]) -> (r:
    Result<Invocation, GatewayError>)
    ensures
        match r {
            Ok(i) => entry_outcome(accounts@, instruction_data@, *ids) == Ok::<_, GatewayError>(i@),
            Err(e) => entry_outcome(accounts@, instruction_data@, *ids) == Err::<
                InvocationView,
                GatewayError,
            >(e),
        },
{
    let instruction = match Instructions::try_from_slice(instruction_data) {
        Ok(i) => i,
        Err(e) => return Err(GatewayError::Decode(e)),
    };
    match route_instruction(accounts, instruction, ids) {
        Ok(i) => Ok(i),
        Err(e) => Err(GatewayError::Bind(e)),
    }
}

} // verus!
