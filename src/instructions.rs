use vstd::prelude::*;

use crate::account::{AccountRef, ProgramIds};
use crate::binding::{
    bind_outcome, check_accounts, lemma_no_violation_iff_all_hold, lemma_only_failing_rule,
    lemma_same_verdicts, rule_holds, BindError, Presence, Role, Rule,
};
use crate::checks::{meets, Requirement};

pub mod create_nft_v1;
pub mod transfer_nft_v1;
pub mod update_nft_v1;

verus! {

/// The operations that the gateway forwards.
#[derive(Clone, Copy, Debug, PartialEq, Eq, Structural)]
pub enum Operation {
    CreateNftV1,
    UpdateNftV1,
    TransferNftV1,
}

/// How many account slots an operation takes.
pub open spec fn arity(op: Operation) -> nat {
    match op {
        Operation::CreateNftV1 => 9,
        Operation::UpdateNftV1 => 7,
        Operation::TransferNftV1 => 8,
    }
}

pub open spec fn mandatory(slot: usize, role: Role, requirement: Requirement) -> Rule {
    Rule { slot, role, requirement, presence: Presence::Mandatory }
}

pub open spec fn optional(slot: usize, role: Role, requirement: Requirement) -> Rule {
    Rule { slot, role, requirement, presence: Presence::Optional }
}

/// The capability table of each operation, in the order in which it is checked.
pub open spec fn rules(op: Operation) -> Seq<Rule> {
    match op {
        Operation::CreateNftV1 => seq![
            mandatory(0, Role::Asset, Requirement::Writable),
            optional(1, Role::Collection, Requirement::Writable),
            optional(2, Role::Authority, Requirement::Signer),
            mandatory(3, Role::Payer, Requirement::Writable),
            mandatory(3, Role::Payer, Requirement::Signer),
            optional(4, Role::Owner, Requirement::Signer),
            optional(5, Role::UpdateAuthority, Requirement::Signer),
            mandatory(6, Role::SystemProgram, Requirement::SystemProgramId),
            mandatory(6, Role::SystemProgram, Requirement::SystemOwned),
            mandatory(8, Role::MplCore, Requirement::MplCoreProgram),
        ],
        Operation::UpdateNftV1 => seq![
            mandatory(0, Role::Asset, Requirement::Writable),
            mandatory(1, Role::Collection, Requirement::Writable),
            optional(2, Role::Authority, Requirement::Signer),
            mandatory(3, Role::Payer, Requirement::Writable),
            mandatory(3, Role::Payer, Requirement::Signer),
            mandatory(4, Role::SystemProgram, Requirement::SystemProgramId),
            mandatory(4, Role::SystemProgram, Requirement::SystemOwned),
            mandatory(6, Role::MplCore, Requirement::MplCoreProgram),
        ],
        Operation::TransferNftV1 => seq![
            mandatory(0, Role::Asset, Requirement::Writable),
            optional(1, Role::Collection, Requirement::Writable),
            optional(2, Role::Authority, Requirement::Signer),
            mandatory(4, Role::Payer, Requirement::Writable),
            mandatory(4, Role::Payer, Requirement::Signer),
            optional(5, Role::SystemProgram, Requirement::SystemProgramId),
            optional(5, Role::SystemProgram, Requirement::SystemOwned),
            mandatory(7, Role::MplCore, Requirement::MplCoreProgram),
        ],
    }
}

/// Binding an account list to an operation's roles: the arity, then the table.
pub open spec fn binding_outcome(op: Operation, accs: Seq<AccountRef>, ids: ProgramIds) -> Result<
    (),
    BindError,
> {
    bind_outcome(accs, arity(op), rules(op), ids)
}

/// The value on success, the binding error otherwise.
pub open spec fn bound<T>(outcome: Result<(), BindError>, value: T) -> Result<T, BindError> {
    match outcome {
        Ok(()) => Ok(value),
        Err(e) => Err(e),
    }
}

/// An optional role's slot, or `None` when it holds the "no account" marker.
pub open spec fn present(accs: Seq<AccountRef>, slot: usize) -> Option<usize> {
    if accs[slot as int].is_absent() {
        None
    } else {
        Some(slot)
    }
}

fn rule(slot: usize, role: Role, requirement: Requirement, presence: Presence) -> (r: Rule)
    ensures
        r == (Rule { slot, role, requirement, presence }),
{
    Rule { slot, role, requirement, presence }
}

fn rule_table(op: Operation) -> (r: Vec<Rule>)
    ensures
        r@ == rules(op),
{
    let m = Presence::Mandatory;
    let o = Presence::Optional;
    let mut t: Vec<Rule> = Vec::new();
    match op {
        Operation::CreateNftV1 => {
            t.push(rule(0, Role::Asset, Requirement::Writable, m));
            t.push(rule(1, Role::Collection, Requirement::Writable, o));
            t.push(rule(2, Role::Authority, Requirement::Signer, o));
            t.push(rule(3, Role::Payer, Requirement::Writable, m));
            t.push(rule(3, Role::Payer, Requirement::Signer, m));
            t.push(rule(4, Role::Owner, Requirement::Signer, o));
            t.push(rule(5, Role::UpdateAuthority, Requirement::Signer, o));
            t.push(rule(6, Role::SystemProgram, Requirement::SystemProgramId, m));
            t.push(rule(6, Role::SystemProgram, Requirement::SystemOwned, m));
            t.push(rule(8, Role::MplCore, Requirement::MplCoreProgram, m));
        },
        Operation::UpdateNftV1 => {
            t.push(rule(0, Role::Asset, Requirement::Writable, m));
            t.push(rule(1, Role::Collection, Requirement::Writable, m));
            t.push(rule(2, Role::Authority, Requirement::Signer, o));
            t.push(rule(3, Role::Payer, Requirement::Writable, m));
            t.push(rule(3, Role::Payer, Requirement::Signer, m));
            t.push(rule(4, Role::SystemProgram, Requirement::SystemProgramId, m));
            t.push(rule(4, Role::SystemProgram, Requirement::SystemOwned, m));
            t.push(rule(6, Role::MplCore, Requirement::MplCoreProgram, m));
        },
        Operation::TransferNftV1 => {
            t.push(rule(0, Role::Asset, Requirement::Writable, m));
            t.push(rule(1, Role::Collection, Requirement::Writable, o));
            t.push(rule(2, Role::Authority, Requirement::Signer, o));
            t.push(rule(4, Role::Payer, Requirement::Writable, m));
            t.push(rule(4, Role::Payer, Requirement::Signer, m));
            t.push(rule(5, Role::SystemProgram, Requirement::SystemProgramId, o));
            t.push(rule(5, Role::SystemProgram, Requirement::SystemOwned, o));
            t.push(rule(7, Role::MplCore, Requirement::MplCoreProgram, m));
        },
    }
    assert(t@ =~= rules(op));
    t
}

/// Binds an account list against an operation's table.
pub fn bind(op: Operation, accounts: &[AccountRef], ids: &ProgramIds) -> (r: Result<(), BindError>)
    ensures
        r == binding_outcome(op, accounts@, *ids),
{
    let table = rule_table(op);
    let n: usize = match op {
        Operation::CreateNftV1 => 9,
        Operation::UpdateNftV1 => 7,
        Operation::TransferNftV1 => 8,
    };
    assert(forall|i: int| 0 <= i < table@.len() ==> (#[trigger] table@[i]).slot < n);
    check_accounts(accounts, n, &table, ids)
}

pub(crate) fn present_slot(accounts: &[AccountRef], slot: usize) -> (r: Option<usize>)
    requires
        slot < accounts@.len(),
    ensures
        r == present(accounts@, slot),
{
    match crate::account::to_optional(&accounts[slot]) {
        None => None,
        Some(_) => Some(slot),
    }
}

/// `b` is `a` with the one capability `req` taken away and nothing else changed.
pub open spec fn lacks_only(a: AccountRef, b: AccountRef, req: Requirement, ids: ProgramIds) -> bool {
    match req {
        Requirement::Writable => b == AccountRef { is_writable: false, ..a },
        Requirement::Signer => b == AccountRef { is_signer: false, ..a },
        Requirement::SystemProgramId => b == AccountRef { key: b.key, ..a } && b.key@
            != ids.system_program@,
        Requirement::SystemOwned => b == AccountRef { owner: b.owner, ..a } && b.owner@
            != ids.system_program@,
        Requirement::MplCoreProgram => b == AccountRef { key: b.key, ..a } && b.key@
            != ids.mpl_core@,
    }
}

/// The requirement looks at the account's own address.
pub open spec fn reads_key(req: Requirement) -> bool {
    req is SystemProgramId || req is MplCoreProgram
}

/// Taking one capability away leaves every other capability as it was, unless
/// both look at the address.
proof fn lemma_other_capabilities_kept(
    a: AccountRef,
    b: AccountRef,
    req: Requirement,
    other: Requirement,
    ids: ProgramIds,
)
    requires
        lacks_only(a, b, req, ids),
        other != req,
        !(reads_key(req) && reads_key(other)),
    ensures
        meets(b, other, ids) == meets(a, other, ids),
{
}

/// The slot of the asset-protocol role.
pub open spec fn mpl_core_slot(op: Operation) -> int {
    arity(op) - 1
}

proof fn lemma_table_shape(op: Operation)
    ensures
        forall|j: int| 0 <= j < rules(op).len() ==> (#[trigger] rules(op)[j]).slot < arity(op),
        forall|j: int, k: int|
            0 <= j < rules(op).len() && 0 <= k < rules(op).len() && j != k && (#[trigger] rules(
                op,
            )[j]).slot == (#[trigger] rules(op)[k]).slot ==> rules(op)[j].requirement != rules(
                op,
            )[k].requirement && rules(op)[j].presence == rules(op)[k].presence && !(reads_key(
                rules(op)[j].requirement,
            ) && reads_key(rules(op)[k].requirement)),
        rules(op).last() == mandatory(mpl_core_slot(op) as usize, Role::MplCore, Requirement::MplCoreProgram),
        forall|j: int| 0 <= j < rules(op).len() - 1 ==> (#[trigger] rules(op)[j]).slot != mpl_core_slot(op),
{
}

/// However the accounts look, a list shorter than the operation's arity is refused
/// as too short, before any capability is checked.
pub proof fn lemma_short_list_rejected(op: Operation, accs: Seq<AccountRef>, ids: ProgramIds)
    requires
        accs.len() < arity(op),
    ensures
        binding_outcome(op, accs, ids) == Err::<(), BindError>(BindError::NotEnoughAccounts),
{
}

/// A list of the operation's arity on which every rule of its table holds binds.
pub proof fn lemma_correct_accounts_bind(op: Operation, accs: Seq<AccountRef>, ids: ProgramIds)
    requires
        accs.len() == arity(op),
        forall|j: int| 0 <= j < rules(op).len() ==> rule_holds(accs, #[trigger] rules(op)[j], ids),
    ensures
        binding_outcome(op, accs, ids) == Ok::<(), BindError>(()),
{
    lemma_no_violation_iff_all_hold(accs, rules(op), ids);
}

/// Taking away, from a list that binds, the one capability that a mandatory rule
/// demands makes binding fail, naming exactly that rule's role and requirement.
pub proof fn lemma_missing_capability_reported(
    op: Operation,
    accs: Seq<AccountRef>,
    ids: ProgramIds,
    k: int,
    b: AccountRef,
)
    requires
        binding_outcome(op, accs, ids) is Ok,
        0 <= k < rules(op).len(),
        rules(op)[k].presence is Mandatory,
        lacks_only(accs[rules(op)[k].slot as int], b, rules(op)[k].requirement, ids),
    ensures
        binding_outcome(op, accs.update(rules(op)[k].slot as int, b), ids) == Err::<(), BindError>(
            BindError::CapabilityViolation {
                role: rules(op)[k].role,
                requirement: rules(op)[k].requirement,
            },
        ),
{
    let t = rules(op);
    let s = t[k].slot as int;
    let accs2 = accs.update(s, b);
    lemma_table_shape(op);
    lemma_no_violation_iff_all_hold(accs, t, ids);
    assert(!rule_holds(accs2, t[k], ids));
    assert forall|j: int| 0 <= j < t.len() && j != k implies rule_holds(accs2, #[trigger] t[j], ids) by {
        assert(rule_holds(accs, t[j], ids));
        if t[j].slot as int != s {
            assert(accs2[t[j].slot as int] == accs[t[j].slot as int]);
        } else {
            lemma_other_capabilities_kept(accs[s], b, t[k].requirement, t[j].requirement, ids);
        }
    }
    lemma_only_failing_rule(accs2, t, ids, k);
}

/// An absent optional role is never checked: whatever marker account stands in
/// its slot, binding comes out the same.
pub proof fn lemma_absent_role_unchecked(
    op: Operation,
    accs: Seq<AccountRef>,
    ids: ProgramIds,
    slot: int,
    b: AccountRef,
)
    requires
        0 <= slot < accs.len(),
        forall|j: int|
            0 <= j < rules(op).len() && (#[trigger] rules(op)[j]).slot == slot ==> rules(
                op,
            )[j].presence is Optional,
        accs[slot].is_absent(),
        b.is_absent(),
    ensures
        binding_outcome(op, accs.update(slot, b), ids) == binding_outcome(op, accs, ids),
{
    let t = rules(op);
    let accs2 = accs.update(slot, b);
    if accs.len() == arity(op) {
        lemma_table_shape(op);
        assert forall|j: int| 0 <= j < t.len() implies rule_holds(accs, #[trigger] t[j], ids)
            == rule_holds(accs2, t[j], ids) by {
            if t[j].slot as int != slot {
                assert(accs2[t[j].slot as int] == accs[t[j].slot as int]);
            }
        }
        lemma_same_verdicts(accs, accs2, t, ids);
    }
}

/// An account in the asset-protocol slot that is not the asset protocol makes
/// binding fail whatever the other accounts are; when every other rule holds, the
/// failure names the asset-protocol role.
pub proof fn lemma_wrong_asset_protocol_rejected(op: Operation, accs: Seq<AccountRef>, ids: ProgramIds)
    requires
        0 <= mpl_core_slot(op) < accs.len(),
        accs[mpl_core_slot(op)].key@ != ids.mpl_core@,
    ensures
        binding_outcome(op, accs, ids) is Err,
        accs.len() == arity(op) && (forall|j: int|
            0 <= j < rules(op).len() - 1 ==> rule_holds(accs, #[trigger] rules(op)[j], ids))
            ==> binding_outcome(op, accs, ids) == Err::<(), BindError>(
            BindError::CapabilityViolation {
                role: Role::MplCore,
                requirement: Requirement::MplCoreProgram,
            },
        ),
{
    let t = rules(op);
    let last = t.len() - 1;
    lemma_table_shape(op);
    assert(t[last] == t.last());
    assert(!rule_holds(accs, t[last], ids));
    lemma_no_violation_iff_all_hold(accs, t, ids);
    if accs.len() == arity(op) && forall|j: int|
        0 <= j < t.len() - 1 ==> rule_holds(accs, #[trigger] t[j], ids) {
        lemma_only_failing_rule(accs, t, ids, last);
    }
}

} // verus!
