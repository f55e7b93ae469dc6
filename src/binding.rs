use vstd::prelude::*;

use crate::account::{to_optional, AccountRef, ProgramIds};
use crate::checks::{check, check_optional, meets, Requirement};

verus! {

/// A named position in an operation's account list.
#[derive(Clone, Copy, Debug, PartialEq, Eq, Structural)]
pub enum Role {
    Asset,
    Collection,
    Authority,
    Payer,
    Owner,
    UpdateAuthority,
    NewOwner,
    SystemProgram,
    LogWrapper,
    MplCore,
}

/// Whether a role must hold a real account or may hold the "no account" marker.
#[derive(Clone, Copy, Debug, PartialEq, Eq, Structural)]
pub enum Presence {
    Mandatory,
    Optional,
}

/// One line of a binding table: the account at `slot`, playing `role`, must meet
/// `requirement` (skipped when the role is optional and the slot is absent).
#[derive(Clone, Copy, Debug, PartialEq, Eq, Structural)]
pub struct Rule {
    pub slot: usize,
    pub role: Role,
    pub requirement: Requirement,
    pub presence: Presence,
}

/// Why an account list could not be bound to an operation's roles.
#[derive(Clone, Copy, Debug, PartialEq, Eq, Structural)]
pub enum BindError {
    /// The list does not hold exactly the operation's number of accounts.
    NotEnoughAccounts,
    /// The first role, in table order, whose account lacks a capability.
    CapabilityViolation { role: Role, requirement: Requirement },
}

/// The rule is satisfied by the account list.
pub open spec fn rule_holds(accs: Seq<AccountRef>, rule: Rule, ids: ProgramIds) -> bool {
    ||| rule.presence is Optional && accs[rule.slot as int].is_absent()
    ||| meets(accs[rule.slot as int], rule.requirement, ids)
}

/// The first rule of the table that the account list breaks.
pub open spec fn first_violation(accs: Seq<AccountRef>, rules: Seq<Rule>, ids: ProgramIds) -> Option<
    Rule,
>
    decreases rules.len(),
{
    if rules.len() == 0 {
        None
    } else if !rule_holds(accs, rules[0], ids) {
        Some(rules[0])
    } else {
        first_violation(accs, rules.drop_first(), ids)
    }
}

/// Every rule names a slot below `arity`.
pub open spec fn slots_below(rules: Seq<Rule>, arity: nat) -> bool {
    forall|i: int| 0 <= i < rules.len() ==> (#[trigger] rules[i]).slot < arity
}

/// Binding an account list against a table: the arity first, then the rules in order.
pub open spec fn bind_outcome(accs: Seq<AccountRef>, arity: nat, rules: Seq<Rule>, ids: ProgramIds) -> Result<
    (),
    BindError,
> {
    if accs.len() != arity {
        Err(BindError::NotEnoughAccounts)
    } else {
        match first_violation(accs, rules, ids) {
            None => Ok(()),
            Some(rule) => Err(
                BindError::CapabilityViolation { role: rule.role, requirement: rule.requirement },
            ),
        }
    }
}

/// Runs the rules in order and returns the first one that fails.
fn find_violation(accounts: &[AccountRef], rules: &Vec<Rule>, ids: &ProgramIds) -> (r: Option<Rule>)
    requires
        slots_below(rules@, accounts@.len()),
    ensures
        r == first_violation(accounts@, rules@, *ids),
{
    let n = rules.len();
    let mut i: usize = 0;
    assert(rules@.subrange(0, n as int) =~= rules@);
    while i < n
        invariant
            n == rules@.len(),
            i <= n,
            slots_below(rules@, accounts@.len()),
            first_violation(accounts@, rules@, *ids) == first_violation(
                accounts@,
                rules@.subrange(i as int, n as int),
                *ids,
            ),
        decreases n - i,
    {
        let rule = rules[i];
        assert(rule.slot < accounts@.len());
        let acc = &accounts[rule.slot];
        let res = match rule.presence {
            Presence::Mandatory => check(acc, rule.requirement, ids),
            Presence::Optional => check_optional(to_optional(acc), rule.requirement, ids),
        };
        proof {
            let rest = rules@.subrange(i as int, n as int);
            assert(rest[0] == rule);
            assert(rest.drop_first() =~= rules@.subrange(i + 1, n as int));
        }
        if res.is_err() {
            return Some(rule);
        }
        i = i + 1;
    }
    assert(rules@.subrange(n as int, n as int) =~= Seq::<Rule>::empty());
    None
}

/// Binds an account list against a table of rules.
pub fn check_accounts(accounts: &[AccountRef], arity: usize, rules: &Vec<Rule>, ids: &ProgramIds) -> (r:
    Result<(), BindError>)
    requires
        slots_below(rules@, arity as nat),
    ensures
        r == bind_outcome(accounts@, arity as nat, rules@, *ids),
{
    if accounts.len() != arity {
        return Err(BindError::NotEnoughAccounts);
    }
    match find_violation(accounts, rules, ids) {
        None => Ok(()),
        Some(rule) => Err(
            BindError::CapabilityViolation { role: rule.role, requirement: rule.requirement },
        ),
    }
}

/// A table passes exactly when every one of its rules holds.
pub proof fn lemma_no_violation_iff_all_hold(accs: Seq<AccountRef>, rules: Seq<Rule>, ids: ProgramIds)
    ensures
        first_violation(accs, rules, ids) is None <==> forall|i: int|
            0 <= i < rules.len() ==> rule_holds(accs, #[trigger] rules[i], ids),
    decreases rules.len(),
{
    if rules.len() > 0 {
        lemma_no_violation_iff_all_hold(accs, rules.drop_first(), ids);
        if first_violation(accs, rules, ids) is None {
            assert forall|i: int| 0 <= i < rules.len() implies rule_holds(
                accs,
                #[trigger] rules[i],
                ids,
            ) by {
                if i > 0 {
                    assert(rules[i] == rules.drop_first()[i - 1]);
                }
            }
        } else if rule_holds(accs, rules[0], ids) {
            let j = choose|j: int|
                0 <= j < rules.drop_first().len() && !rule_holds(
                    accs,
                    #[trigger] rules.drop_first()[j],
                    ids,
                );
            assert(rules.drop_first()[j] == rules[j + 1]);
        }
    }
}

/// When rule `k` is the only one that fails, it is the one reported.
pub proof fn lemma_only_failing_rule(accs: Seq<AccountRef>, rules: Seq<Rule>, ids: ProgramIds, k: int)
    requires
        0 <= k < rules.len(),
        !rule_holds(accs, rules[k], ids),
        forall|j: int| 0 <= j < rules.len() && j != k ==> rule_holds(accs, #[trigger] rules[j], ids),
    ensures
        first_violation(accs, rules, ids) == Some(rules[k]),
    decreases rules.len(),
{
    if k > 0 {
        let rest = rules.drop_first();
        assert(rule_holds(accs, rules[0], ids));
        assert(rest[k - 1] == rules[k]);
        assert forall|j: int| 0 <= j < rest.len() && j != k - 1 implies rule_holds(
            accs,
            #[trigger] rest[j],
            ids,
        ) by {
            assert(rest[j] == rules[j + 1]);
        }
        lemma_only_failing_rule(accs, rest, ids, k - 1);
    }
}

/// Two account lists on which every rule agrees bind alike.
pub proof fn lemma_same_verdicts(
    accs1: Seq<AccountRef>,
    accs2: Seq<AccountRef>,
    rules: Seq<Rule>,
    ids: ProgramIds,
)
    requires
        forall|j: int|
            0 <= j < rules.len() ==> rule_holds(accs1, #[trigger] rules[j], ids) == rule_holds(
                accs2,
                rules[j],
                ids,
            ),
    ensures
        first_violation(accs1, rules, ids) == first_violation(accs2, rules, ids),
    decreases rules.len(),
{
    if rules.len() > 0 {
        let rest = rules.drop_first();
        assert(rule_holds(accs1, rules[0], ids) == rule_holds(accs2, rules[0], ids));
        assert forall|j: int| 0 <= j < rest.len() implies rule_holds(accs1, #[trigger] rest[j], ids)
            == rule_holds(accs2, rest[j], ids) by {
            assert(rest[j] == rules[j + 1]);
        }
        lemma_same_verdicts(accs1, accs2, rest, ids);
    }
}

} // verus!
