//! Switching the active account: which account comes next, and the order of
//! the stages of a switch.

use vstd::prelude::*;
use vstd::string::*;
use crate::quota::Quota;
use crate::text::same_text;
use crate::token::TokenData;

verus! {

/// One credential identity: who it is, its token, and the last quota seen
/// for it, if any.
#[derive(Debug, Clone)]
pub struct Account {
    pub id: String,
    pub email: String,
    pub token: TokenData,
    pub quota: Option<Quota>,
}

/// The index of the first account from `from` on whose identity is `id`, or
/// the number of accounts.
pub open spec fn first_with_id(accounts: Seq<Account>, id: Seq<char>, from: int) -> int
    decreases accounts.len() - from,
{
    if from < 0 || from >= accounts.len() {
        accounts.len() as int
    } else if accounts[from].id@ == id {
        from
    } else {
        first_with_id(accounts, id, from + 1)
    }
}

/// The position of an account in the list: that of the first account with
/// this identity.
pub open spec fn position_in(accounts: Seq<Account>, id: Seq<char>) -> Option<int> {
    let i = first_with_id(accounts, id, 0);
    if i < accounts.len() {
        Some(i)
    } else {
        None
    }
}

/// The account after `active` in a ring of `count` accounts: the first where
/// none is active, else the next by position, wrapping round. There is none
/// in an empty ring.
pub open spec fn next_in_ring(count: int, active: Option<int>) -> Option<int> {
    if count <= 0 {
        None
    } else {
        match active {
            None => Some(0),
            Some(i) => Some((i + 1) % count),
        }
    }
}

/// The account to switch to. An active identity that the list does not hold
/// counts as standing at the head of the list.
pub open spec fn next_account_of(accounts: Seq<Account>, current: Option<Seq<char>>) -> Option<int> {
    match current {
        None => next_in_ring(accounts.len() as int, None),
        Some(id) => match position_in(accounts, id) {
            Some(i) => next_in_ring(accounts.len() as int, Some(i)),
            None => next_in_ring(accounts.len() as int, Some(0)),
        },
    }
}

/// The position of the account with identity `id`.
pub fn position_of(accounts: &Vec<Account>, id: &str) -> (position: Option<usize>)
    ensures
        match position {
            Some(i) => position_in(accounts@, id@) == Some(i as int),
            None => position_in(accounts@, id@) is None,
        },
{
    let mut i: usize = 0;
    while i < accounts.len()
        invariant
            i <= accounts@.len(),
            first_with_id(accounts@, id@, 0) == first_with_id(accounts@, id@, i as int),
        decreases accounts@.len() - i,
    {
        if same_text(accounts[i].id.as_str(), id) {
            return Some(i);
        }
        i += 1;
    }
    None
}

/// The index that follows `active` in a ring of `count` accounts.
pub fn next_account_index(count: usize, active: Option<usize>) -> (next: Option<usize>)
    ensures
        index_view(next) == next_in_ring(count as int, index_view(active)),
        next is Some ==> next->Some_0 < count,
{
    if count == 0 {
        None
    } else {
        match active {
            None => Some(0),
            Some(i) => {
                let at: usize = i % count;
                proof {
                    vstd::arithmetic::div_mod::lemma_add_mod_noop(i as int, 1, count as int);
                    vstd::arithmetic::div_mod::lemma_mod_bound(i as int, count as int);
                    if at + 1 < count {
                        vstd::arithmetic::div_mod::lemma_small_mod((at + 1) as nat, count as nat);
                    }
                    vstd::arithmetic::div_mod::lemma_mod_self_0(count as int);
                    if count > 1 {
                        vstd::arithmetic::div_mod::lemma_small_mod(1, count as nat);
                    }
                }
                if at + 1 == count {
                    Some(0)
                } else {
                    Some(at + 1)
                }
            },
        }
    }
}

/// An optional index as a mathematical integer.
pub open spec fn index_view(index: Option<usize>) -> Option<int> {
    match index {
        Some(i) => Some(i as int),
        None => None,
    }
}

/// The account to switch to, given the accounts in their stored order and
/// the identity of the active account, if any.
pub fn next_account(accounts: &Vec<Account>, current: Option<&str>) -> (next: Option<usize>)
    ensures
        index_view(next) == next_account_of(
            accounts@,
            match current {
                Some(id) => Some(id@),
                None => None,
            },
        ),
        next is Some <==> accounts@.len() > 0,
        next is Some ==> next->Some_0 < accounts@.len(),
{
    if accounts.len() == 0 {
        return None;
    }
    match current {
        None => next_account_index(accounts.len(), None),
        Some(id) => {
            let at = match position_of(accounts, id) {
                Some(i) => i,
                None => 0,
            };
            proof {
                first_with_id_bounds(accounts@, id@, 0);
            }
            next_account_index(accounts.len(), Some(at))
        },
    }
}

/// `first_with_id` stays within the list.
pub proof fn first_with_id_bounds(accounts: Seq<Account>, id: Seq<char>, from: int)
    requires
        0 <= from <= accounts.len(),
    ensures
        from <= first_with_id(accounts, id, from) <= accounts.len(),
    decreases accounts.len() - from,
{
    if from < accounts.len() && accounts[from].id@ != id {
        first_with_id_bounds(accounts, id, from + 1);
    }
}

/// With at least one account and none active, a switch selects the first;
/// with the account at position `i` active, it selects position `(i + 1) mod
/// N`. The accounts form a ring: the choice is always a position of the list.
pub proof fn switch_walks_the_ring(count: int, active: Option<int>)
    requires
        count >= 1,
        active is Some ==> 0 <= active->Some_0 < count,
    ensures
        active is None ==> next_in_ring(count, active) == Some(0int),
        active is Some ==> next_in_ring(count, active) == Some((active->Some_0 + 1) % count),
        next_in_ring(count, active) is Some,
        0 <= next_in_ring(count, active)->Some_0 < count,
{
    if active is Some {
        let i = active->Some_0;
        assert(0 <= (i + 1) % count < count) by (nonlinear_arith)
            requires
                count >= 1,
                i >= 0,
        ;
    }
}

/// The stage of a switch that failed.
#[derive(Debug, Clone, Copy, PartialEq, Eq, Structural)]
pub enum FailedStage {
    Stopping,
    Swapping,
    Starting,
}

/// Where a switch stands.
#[derive(Debug, Clone, Copy, PartialEq, Eq, Structural)]
pub enum SwitchStage {
    Idle,
    Stopping,
    Swapping,
    Starting,
    Refreshing,
    Done,
    Failed(FailedStage),
}

/// What the caller reports back.
#[derive(Debug, Clone, Copy, PartialEq, Eq, Structural)]
pub enum SwitchEvent {
    /// A switch is asked for.
    Request,
    /// The stage's work went through.
    Succeeded,
    /// The stage's work failed.
    Failed,
}

/// What the caller does next.
#[derive(Debug, Clone, Copy, PartialEq, Eq, Structural)]
pub enum SwitchAction {
    /// Announce that a switch has started, then stop the application.
    AnnounceAndStop,
    /// Write the new credential and mark the new account active.
    SwapCredential,
    /// Start the application.
    StartApplication,
    /// Fetch the quota of the new account; a failure only leaves it unknown.
    RefreshQuota,
    /// Announce that the account was switched.
    AnnounceSwitched,
    /// Report at which stage the switch failed.
    ReportFailure(FailedStage),
    /// Turn the request down: a switch is in flight.
    Reject,
    /// Nothing to do.
    Rest,
}

/// One step of a switch.
#[derive(Debug, Clone, Copy, PartialEq, Eq, Structural)]
pub struct SwitchStep {
    pub next: SwitchStage,
    pub action: SwitchAction,
}

/// Whether a switch is in flight at this stage.
pub open spec fn in_flight(stage: SwitchStage) -> bool {
    stage == SwitchStage::Stopping || stage == SwitchStage::Swapping || stage
        == SwitchStage::Starting || stage == SwitchStage::Refreshing
}

/// The step that a failure at `stage` leads to.
pub open spec fn failure_step(stage: FailedStage) -> SwitchStep {
    SwitchStep { next: SwitchStage::Failed(stage), action: SwitchAction::ReportFailure(stage) }
}

/// The step that follows an event at a stage. Each stage starts only once
/// the one before it has succeeded; a request that arrives while a switch is
/// in flight is turned down and changes nothing.
pub open spec fn switch_transition(stage: SwitchStage, event: SwitchEvent) -> SwitchStep {
    if event == SwitchEvent::Request {
        if in_flight(stage) {
            SwitchStep { next: stage, action: SwitchAction::Reject }
        } else {
            SwitchStep { next: SwitchStage::Stopping, action: SwitchAction::AnnounceAndStop }
        }
    } else {
        match stage {
            SwitchStage::Stopping => if event == SwitchEvent::Succeeded {
                SwitchStep { next: SwitchStage::Swapping, action: SwitchAction::SwapCredential }
            } else {
                failure_step(FailedStage::Stopping)
            },
            SwitchStage::Swapping => if event == SwitchEvent::Succeeded {
                SwitchStep { next: SwitchStage::Starting, action: SwitchAction::StartApplication }
            } else {
                failure_step(FailedStage::Swapping)
            },
            SwitchStage::Starting => if event == SwitchEvent::Succeeded {
                SwitchStep { next: SwitchStage::Refreshing, action: SwitchAction::RefreshQuota }
            } else {
                failure_step(FailedStage::Starting)
            },
            SwitchStage::Refreshing => SwitchStep {
                next: SwitchStage::Done,
                action: SwitchAction::AnnounceSwitched,
            },
            _ => SwitchStep { next: stage, action: SwitchAction::Rest },
        }
    }
}

/// Takes one step of a switch.
pub fn switch_step(stage: SwitchStage, event: SwitchEvent) -> (step: SwitchStep)
    ensures
        step == switch_transition(stage, event),
{
    match event {
        SwitchEvent::Request => match stage {
            SwitchStage::Stopping | SwitchStage::Swapping | SwitchStage::Starting | SwitchStage::Refreshing => SwitchStep {
                next: stage,
                action: SwitchAction::Reject,
            },
            _ => SwitchStep { next: SwitchStage::Stopping, action: SwitchAction::AnnounceAndStop },
        },
        SwitchEvent::Succeeded => match stage {
            SwitchStage::Stopping => SwitchStep {
                next: SwitchStage::Swapping,
                action: SwitchAction::SwapCredential,
            },
            SwitchStage::Swapping => SwitchStep {
                next: SwitchStage::Starting,
                action: SwitchAction::StartApplication,
            },
            SwitchStage::Starting => SwitchStep {
                next: SwitchStage::Refreshing,
                action: SwitchAction::RefreshQuota,
            },
            SwitchStage::Refreshing => SwitchStep {
                next: SwitchStage::Done,
                action: SwitchAction::AnnounceSwitched,
            },
            _ => SwitchStep { next: stage, action: SwitchAction::Rest },
        },
        SwitchEvent::Failed => match stage {
            SwitchStage::Stopping => failed_at(FailedStage::Stopping),
            SwitchStage::Swapping => failed_at(FailedStage::Swapping),
            SwitchStage::Starting => failed_at(FailedStage::Starting),
            SwitchStage::Refreshing => SwitchStep {
                next: SwitchStage::Done,
                action: SwitchAction::AnnounceSwitched,
            },
            _ => SwitchStep { next: stage, action: SwitchAction::Rest },
        },
    }
}

/// Ends the switch with a failure at a stage.
fn failed_at(stage: FailedStage) -> (step: SwitchStep)
    ensures
        step == failure_step(stage),
{
    SwitchStep { next: SwitchStage::Failed(stage), action: SwitchAction::ReportFailure(stage) }
}

/// The credential is swapped only after the application was stopped: a
/// failed stop ends the switch with the old account still active. A failed
/// start is reported and nothing is rolled back; a failed refresh does not
/// fail the switch.
pub proof fn switch_stages_are_sequential(stage: SwitchStage, event: SwitchEvent)
    ensures
        ({
            let step = switch_transition(stage, event);
            &&& step.action == SwitchAction::SwapCredential ==> stage == SwitchStage::Stopping
                && event == SwitchEvent::Succeeded
            &&& step.action == SwitchAction::StartApplication ==> stage == SwitchStage::Swapping
                && event == SwitchEvent::Succeeded
            &&& step.action == SwitchAction::RefreshQuota ==> stage == SwitchStage::Starting
                && event == SwitchEvent::Succeeded
            &&& step.action == SwitchAction::AnnounceSwitched ==> stage == SwitchStage::Refreshing
            &&& stage == SwitchStage::Stopping && event == SwitchEvent::Failed ==> step
                == failure_step(FailedStage::Stopping)
            &&& stage == SwitchStage::Starting && event == SwitchEvent::Failed ==> step
                == failure_step(FailedStage::Starting)
            &&& stage == SwitchStage::Refreshing && event != SwitchEvent::Request ==> step.next
                == SwitchStage::Done
        }),
{
}

/// A switch whose every stage succeeds stops the application, swaps the
/// credential, starts the application, refreshes the quota and announces
/// the switch, in this order, and is then done.
pub proof fn switch_runs_its_stages_in_order()
    ensures
        switch_transition(SwitchStage::Idle, SwitchEvent::Request) == (SwitchStep {
            next: SwitchStage::Stopping,
            action: SwitchAction::AnnounceAndStop,
        }),
        switch_transition(SwitchStage::Stopping, SwitchEvent::Succeeded) == (SwitchStep {
            next: SwitchStage::Swapping,
            action: SwitchAction::SwapCredential,
        }),
        switch_transition(SwitchStage::Swapping, SwitchEvent::Succeeded) == (SwitchStep {
            next: SwitchStage::Starting,
            action: SwitchAction::StartApplication,
        }),
        switch_transition(SwitchStage::Starting, SwitchEvent::Succeeded) == (SwitchStep {
            next: SwitchStage::Refreshing,
            action: SwitchAction::RefreshQuota,
        }),
        switch_transition(SwitchStage::Refreshing, SwitchEvent::Succeeded) == (SwitchStep {
            next: SwitchStage::Done,
            action: SwitchAction::AnnounceSwitched,
        }),
{
}

/// At most one switch is in flight: a request that arrives during a switch
/// leaves its stage untouched.
pub proof fn switch_in_flight_is_exclusive(stage: SwitchStage)
    requires
        in_flight(stage),
    ensures
        switch_transition(stage, SwitchEvent::Request) == (SwitchStep {
            next: stage,
            action: SwitchAction::Reject,
        }),
{
}

} // verus!
