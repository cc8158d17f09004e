//! The decisions of the check-in, withdraw and redeem workflows, and the
//! lifecycle of a switch across them. Syncing, signing and broadcasting are
//! left to the caller, which hands their outcomes back here.
use vstd::prelude::*;
use crate::policy::TIMELOCK_BLOCKS;

verus! {

/// Which branch of the policy a spend goes through.
#[derive(Clone, Copy, PartialEq, Eq, Structural, Debug)]
pub enum Branch {
    /// The owner's signature alone, at any time.
    Owner,
    /// The redeemer's signature, after the timelock.
    Redeemer,
}

/// Why a workflow stopped.
#[derive(Clone, Copy, PartialEq, Eq, Structural, Debug)]
pub enum WorkflowError {
    /// Nothing to spend: the address must be funded first.
    EmptyBalance,
    /// An output has not yet aged past the timelock.
    TimelockNotExpired,
    /// Signing did not finalize the transaction; nothing may be broadcast.
    SignatureIncomplete,
}

/// An unspent output of the descriptor: its amount and its confirmations.
#[derive(Clone, Copy, PartialEq, Eq, Structural, Debug)]
pub struct Output {
    pub value: u64,
    pub age: u32,
}

/// A transaction to build: every unspent output, through `branch`, to the
/// single `recipient`, with no change.
pub struct SpendPlan {
    pub branch: Branch,
    /// The index of the branch among the policy's alternatives.
    pub path_index: usize,
    pub amount: u64,
    pub recipient: String,
}

/// The index that selects `branch` among the alternatives of
/// `andor(pk(redeemer),older(..),pk(owner))`: the timelocked conjunction
/// first, the owner's key second.
pub open spec fn spec_path_index(branch: Branch) -> usize {
    match branch {
        Branch::Redeemer => 0,
        Branch::Owner => 1,
    }
}

pub fn policy_path_index(branch: Branch) -> (r: usize)
    ensures
        r == spec_path_index(branch),
{
    match branch {
        Branch::Redeemer => 0,
        Branch::Owner => 1,
    }
}

/// The sum of the outputs' values.
pub open spec fn total(outs: Seq<Output>) -> nat
    decreases outs.len(),
{
    if outs.len() == 0 {
        0nat
    } else {
        total(outs.drop_last()) + outs.last().value as nat
    }
}

/// Whether every output has aged past the timelock.
pub open spec fn all_aged(outs: Seq<Output>) -> bool {
    forall|i: int| 0 <= i < outs.len() ==> (#[trigger] outs[i]).age >= TIMELOCK_BLOCKS
}

/// What stops a redeem of `outs`, if anything does.
pub open spec fn redeem_error(outs: Seq<Output>) -> Option<WorkflowError> {
    if total(outs) == 0 {
        Some(WorkflowError::EmptyBalance)
    } else if !all_aged(outs) {
        Some(WorkflowError::TimelockNotExpired)
    } else {
        None
    }
}

/// Plans a check-in: all of `balance` moves through the owner branch to a
/// fresh address of the same descriptor.
pub fn plan_check_in(balance: u64, new_address: String) -> (r: Result<SpendPlan, WorkflowError>)
    ensures
        r is Err <==> balance == 0,
        r is Err ==> r matches Err(WorkflowError::EmptyBalance),
        r matches Ok(p) ==> p.branch == Branch::Owner && p.path_index == spec_path_index(
            Branch::Owner,
        ) && p.amount == balance && p.recipient == new_address,
{
    if balance == 0 {
        return Err(WorkflowError::EmptyBalance);
    }
    Ok(SpendPlan {
        branch: Branch::Owner,
        path_index: policy_path_index(Branch::Owner),
        amount: balance,
        recipient: new_address,
    })
}

/// Plans a withdrawal: all of `balance` moves through the owner branch to
/// an outside destination.
pub fn plan_withdraw(balance: u64, destination: String) -> (r: Result<SpendPlan, WorkflowError>)
    ensures
        r is Err <==> balance == 0,
        r is Err ==> r matches Err(WorkflowError::EmptyBalance),
        r matches Ok(p) ==> p.branch == Branch::Owner && p.path_index == spec_path_index(
            Branch::Owner,
        ) && p.amount == balance && p.recipient == destination,
{
    if balance == 0 {
        return Err(WorkflowError::EmptyBalance);
    }
    Ok(SpendPlan {
        branch: Branch::Owner,
        path_index: policy_path_index(Branch::Owner),
        amount: balance,
        recipient: destination,
    })
}

proof fn lemma_total_push(outs: Seq<Output>, o: Output)
    ensures
        total(outs.push(o)) == total(outs) + o.value,
{
    assert(outs.push(o).drop_last() =~= outs);
}

/// Plans a redemption: every output moves through the redeemer branch to
/// `destination`, once each has aged past the timelock.
pub fn plan_redeem(outputs: &Vec<Output>, destination: String) -> (r: Result<SpendPlan, WorkflowError>)
    requires
        total(outputs@) <= u64::MAX,
    ensures
        r matches Err(e) ==> redeem_error(outputs@) == Some(e),
        r is Ok <==> redeem_error(outputs@) is None,
        r matches Ok(p) ==> p.branch == Branch::Redeemer && p.path_index == spec_path_index(
            Branch::Redeemer,
        ) && p.amount == total(outputs@) && p.recipient == destination,
{
    let mut sum: u64 = 0;
    let mut aged = true;
    let mut i: usize = 0;
    while i < outputs.len()
        invariant
            i <= outputs@.len(),
            total(outputs@) <= u64::MAX,
            sum == total(outputs@.subrange(0, i as int)),
            aged == all_aged(outputs@.subrange(0, i as int)),
        decreases outputs@.len() - i,
    {
        let o = outputs[i];
        proof {
            let pre = outputs@.subrange(0, i as int);
            assert(outputs@.subrange(0, i as int + 1) =~= pre.push(o));
            lemma_total_push(pre, o);
            lemma_total_prefix(outputs@, i as int + 1);
        }
        sum = sum + o.value;
        if o.age < TIMELOCK_BLOCKS {
            aged = false;
        }
        i = i + 1;
    }
    assert(outputs@.subrange(0, outputs@.len() as int) =~= outputs@);
    if sum == 0 {
        return Err(WorkflowError::EmptyBalance);
    }
    if !aged {
        return Err(WorkflowError::TimelockNotExpired);
    }
    Ok(SpendPlan {
        branch: Branch::Redeemer,
        path_index: policy_path_index(Branch::Redeemer),
        amount: sum,
        recipient: destination,
    })
}

proof fn lemma_total_prefix(outs: Seq<Output>, n: int)
    requires
        0 <= n <= outs.len(),
    ensures
        total(outs.subrange(0, n)) <= total(outs),
    decreases outs.len() - n,
{
    if n < outs.len() {
        lemma_total_prefix(outs, n + 1);
        let pre = outs.subrange(0, n);
        assert(outs.subrange(0, n + 1) =~= pre.push(outs[n]));
        lemma_total_push(pre, outs[n]);
    } else {
        assert(outs.subrange(0, n) =~= outs);
    }
}

/// The outcome of signing: only a finalized transaction may be broadcast.
pub fn signing_outcome(finalized: bool) -> (r: Result<(), WorkflowError>)
    ensures
        r is Ok <==> finalized,
        !finalized ==> r matches Err(WorkflowError::SignatureIncomplete),
{
    if finalized {
        Ok(())
    } else {
        Err(WorkflowError::SignatureIncomplete)
    }
}

/// Where a switch stands. Expiry is inferred from chain heights, not stored.
#[derive(Clone, Copy, PartialEq, Eq, Structural, Debug)]
pub enum SwitchState {
    Created,
    Active,
    Expired,
    Terminated,
}

/// What happens to a switch.
#[derive(Clone, Copy, PartialEq, Eq, Structural, Debug)]
pub enum Event {
    Fund,
    CheckIn,
    Withdraw,
    TimelockElapsed,
    Redeem,
}

/// The lifecycle: funding activates; check-ins keep it active; a
/// withdrawal ends it; without check-in it expires, and a redemption then
/// ends it. Any other event is not possible in that state.
pub open spec fn spec_next_state(s: SwitchState, e: Event) -> Option<SwitchState> {
    match (s, e) {
        (SwitchState::Created, Event::Fund) => Some(SwitchState::Active),
        (SwitchState::Active, Event::CheckIn) => Some(SwitchState::Active),
        (SwitchState::Active, Event::Withdraw) => Some(SwitchState::Terminated),
        (SwitchState::Active, Event::TimelockElapsed) => Some(SwitchState::Expired),
        (SwitchState::Expired, Event::Redeem) => Some(SwitchState::Terminated),
        _ => None,
    }
}

pub fn next_state(s: SwitchState, e: Event) -> (r: Option<SwitchState>)
    ensures
        r == spec_next_state(s, e),
{
    match (s, e) {
        (SwitchState::Created, Event::Fund) => Some(SwitchState::Active),
        (SwitchState::Active, Event::CheckIn) => Some(SwitchState::Active),
        (SwitchState::Active, Event::Withdraw) => Some(SwitchState::Terminated),
        (SwitchState::Active, Event::TimelockElapsed) => Some(SwitchState::Expired),
        (SwitchState::Expired, Event::Redeem) => Some(SwitchState::Terminated),
        _ => None,
    }
}

/// The confirmations of an output at chain tip `current_height`: one in
/// its own block, none while unconfirmed or above the tip; at most `u32::MAX`.
pub open spec fn spec_confirmations(current_height: u32, confirmed_height: Option<u32>) -> u32 {
    match confirmed_height {
        Some(h) => if h <= current_height {
            if current_height - h + 1 > u32::MAX {
                u32::MAX
            } else {
                (current_height - h + 1) as u32
            }
        } else {
            0
        },
        None => 0,
    }
}

pub fn confirmations(current_height: u32, confirmed_height: Option<u32>) -> (r: u32)
    ensures
        r == spec_confirmations(current_height, confirmed_height),
{
    match confirmed_height {
        Some(h) => if h <= current_height {
            let d = current_height - h;
            if d == u32::MAX {
                u32::MAX
            } else {
                d + 1
            }
        } else {
            0
        },
        None => 0,
    }
}

/// Whether the redeemer branch is open for the next block at chain tip
/// `current_height`, for an output confirmed at `confirmed_height`: the
/// output has at least `TIMELOCK_BLOCKS` confirmations.
pub fn is_expired(current_height: u32, confirmed_height: u32) -> (r: bool)
    ensures
        r == (spec_confirmations(current_height, Some(confirmed_height)) >= TIMELOCK_BLOCKS),
        r == (confirmed_height <= current_height && current_height - confirmed_height + 1
            >= TIMELOCK_BLOCKS),
{
    confirmations(current_height, Some(confirmed_height)) >= TIMELOCK_BLOCKS
}

/// A redeem fails with `TimelockNotExpired` while any funded set of outputs
/// holds one younger than the timelock, as the fresh output of a check-in is.
pub proof fn lemma_redeem_before_timelock(outs: Seq<Output>, i: int)
    requires
        0 <= i < outs.len(),
        outs[i].age < TIMELOCK_BLOCKS,
        outs[i].value > 0,
    ensures
        redeem_error(outs) == Some(WorkflowError::TimelockNotExpired),
{
    lemma_total_at_least(outs, i);
}

proof fn lemma_total_at_least(outs: Seq<Output>, i: int)
    requires
        0 <= i < outs.len(),
    ensures
        total(outs) >= outs[i].value,
    decreases outs.len(),
{
    if i < outs.len() - 1 {
        lemma_total_at_least(outs.drop_last(), i);
    }
}

/// Once every output has aged past the timelock and there is something to
/// spend, a redeem goes through, through the redeemer branch and not the
/// owner's.
pub proof fn lemma_redeem_after_timelock(outs: Seq<Output>)
    requires
        all_aged(outs),
        total(outs) > 0,
    ensures
        redeem_error(outs) is None,
        spec_path_index(Branch::Redeemer) != spec_path_index(Branch::Owner),
{
}

/// Once terminated, a switch takes no further event.
pub proof fn lemma_terminated_is_final(e: Event)
    ensures
        spec_next_state(SwitchState::Terminated, e) is None,
{
}

/// A check-in keeps an active switch active.
pub proof fn lemma_check_in_keeps_active()
    ensures
        spec_next_state(SwitchState::Active, Event::CheckIn) == Some(SwitchState::Active),
{
}

} // verus!
