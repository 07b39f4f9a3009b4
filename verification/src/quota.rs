//! Quota snapshots, the retry policy for fetching them, and what the tray
//! shows of them.

use vstd::prelude::*;
use vstd::string::*;
use crate::text::{contains_text, is_substring, lowercase, same_text, to_lower};

verus! {

/// The number of attempts that a fetch is given.
pub const MAX_ATTEMPTS: u32 = 3;

/// Milliseconds between two attempts.
pub const RETRY_DELAY_MS: u64 = 1000;

/// The usage of one model, in percent.
#[derive(Debug, Clone)]
pub struct ModelQuota {
    pub name: String,
    pub percentage: i32,
}

/// A snapshot of an account's usage.
#[derive(Debug, Clone)]
pub struct Quota {
    pub is_forbidden: bool,
    pub models: Vec<ModelQuota>,
}

impl ModelQuota {
    /// A percentage lies between 0 and 100.
    pub open spec fn wf(&self) -> bool {
        0 <= self.percentage <= 100
    }
}

impl Quota {
    /// Every model of the snapshot has a percentage between 0 and 100.
    pub open spec fn wf(&self) -> bool {
        all_wf(self.models@)
    }
}

/// How one attempt to fetch a quota ended.
#[derive(Debug, Clone, Copy, PartialEq, Eq, Structural)]
pub enum FetchOutcome {
    /// The quota was fetched.
    Success,
    /// The network failed or the request timed out.
    Transient,
    /// The request was refused or the answer could not be read.
    Permanent,
}

/// What to do after an attempt.
#[derive(Debug, Clone, Copy, PartialEq, Eq, Structural)]
pub enum RetryDecision {
    /// Hand out the quota.
    Deliver,
    /// Wait so many milliseconds and try again.
    RetryAfter(u64),
    /// Hand out the failure.
    GiveUp,
}

/// What follows the attempt with number `attempt` (counted from 1): only
/// a transient failure is retried, and only while attempts are left.
pub open spec fn retry_policy(attempt: u32, outcome: FetchOutcome) -> RetryDecision {
    match outcome {
        FetchOutcome::Success => RetryDecision::Deliver,
        FetchOutcome::Permanent => RetryDecision::GiveUp,
        FetchOutcome::Transient => if attempt < MAX_ATTEMPTS {
            RetryDecision::RetryAfter(RETRY_DELAY_MS)
        } else {
            RetryDecision::GiveUp
        },
    }
}

/// Decides what follows the attempt with number `attempt`.
pub fn retry_decide(attempt: u32, outcome: FetchOutcome) -> (decision: RetryDecision)
    ensures
        decision == retry_policy(attempt, outcome),
{
    match outcome {
        FetchOutcome::Success => RetryDecision::Deliver,
        FetchOutcome::Permanent => RetryDecision::GiveUp,
        FetchOutcome::Transient => {
            if attempt < MAX_ATTEMPTS {
                RetryDecision::RetryAfter(RETRY_DELAY_MS)
            } else {
                RetryDecision::GiveUp
            }
        },
    }
}

/// One attempt taken into account: how many attempts now lie behind, and
/// what follows.
#[derive(Debug, Clone, Copy, PartialEq, Eq, Structural)]
pub struct RetryStep {
    pub attempts: u32,
    pub decision: RetryDecision,
}

/// The count after one more attempt; it stops at the largest number.
pub open spec fn attempts_after(made: u32) -> u32 {
    if made < u32::MAX {
        (made + 1) as u32
    } else {
        made
    }
}

/// What follows an attempt that ended in `outcome` after `made` earlier
/// attempts: the attempt is counted, and the policy decides on the new count.
pub open spec fn retry_transition(made: u32, outcome: FetchOutcome) -> RetryStep {
    RetryStep {
        attempts: attempts_after(made),
        decision: retry_policy(attempts_after(made), outcome),
    }
}

/// Counts an attempt and decides what follows it.
pub fn retry_step(made: u32, outcome: FetchOutcome) -> (step: RetryStep)
    ensures
        step == retry_transition(made, outcome),
{
    let attempts: u32 = if made < u32::MAX {
        made + 1
    } else {
        made
    };
    RetryStep { attempts, decision: retry_decide(attempts, outcome) }
}

/// How a fetch with retry ends against a fetcher whose successive attempts
/// end as `outcomes` says: the number of attempts made and whether the quota
/// was delivered. `made` attempts lie behind; a fetcher that runs out of
/// outcomes counts as failing for good.
pub open spec fn retry_run(outcomes: Seq<FetchOutcome>, made: nat) -> (nat, bool)
    decreases outcomes.len() - made,
{
    if made >= outcomes.len() || made >= u32::MAX {
        (made, false)
    } else {
        match retry_transition(made as u32, outcomes[made as int]).decision {
            RetryDecision::Deliver => (made + 1, true),
            RetryDecision::GiveUp => (made + 1, false),
            RetryDecision::RetryAfter(_) => retry_run(outcomes, made + 1),
        }
    }
}

/// A fetcher that fails transiently twice and then succeeds is asked three
/// times and its quota is delivered; one that fails permanently at once is
/// asked exactly once and its failure is handed out.
pub proof fn retry_counts_attempts(outcomes: Seq<FetchOutcome>)
    ensures
        outcomes.len() >= 3 && outcomes[0] == FetchOutcome::Transient && outcomes[1]
            == FetchOutcome::Transient && outcomes[2] == FetchOutcome::Success ==> retry_run(
            outcomes,
            0,
        ) == (3nat, true),
        outcomes.len() >= 1 && outcomes[0] == FetchOutcome::Permanent ==> retry_run(outcomes, 0) == (
            1nat,
            false,
        ),
{
    reveal_with_fuel(retry_run, 4);
}

/// A fetch with retry never makes more than `MAX_ATTEMPTS` attempts, and a
/// quota is delivered only if the last attempt succeeded.
pub proof fn retry_is_bounded(outcomes: Seq<FetchOutcome>, made: nat)
    requires
        made < MAX_ATTEMPTS,
    ensures
        made <= retry_run(outcomes, made).0 <= MAX_ATTEMPTS,
        retry_run(outcomes, made).1 ==> 1 <= retry_run(outcomes, made).0 <= outcomes.len()
            && outcomes[retry_run(outcomes, made).0 - 1] == FetchOutcome::Success,
    decreases outcomes.len() - made,
{
    if made < outcomes.len() {
        match retry_transition(made as u32, outcomes[made as int]).decision {
            RetryDecision::RetryAfter(_) => {
                retry_is_bounded(outcomes, made + 1);
            },
            _ => {},
        }
    }
}

/// Whether a model belongs to a family: its lower-cased name holds the
/// family's name. The match is loose on purpose.
pub open spec fn in_family(model: ModelQuota, family: Seq<char>) -> bool {
    is_substring(family, lowercase(model.name@))
}

/// The percentage shown for a family among the first `upto` models: that of
/// the last model of the family, or 0 where there is none.
pub open spec fn family_percentage(models: Seq<ModelQuota>, family: Seq<char>, upto: int) -> int
    decreases upto,
{
    if upto <= 0 || upto > models.len() {
        0
    } else if in_family(models[upto - 1], family) {
        models[upto - 1].percentage as int
    } else {
        family_percentage(models, family, upto - 1)
    }
}

/// What the tray shows of an account's quota.
#[derive(Debug, Clone, Copy, PartialEq, Eq, Structural)]
pub enum QuotaDisplay {
    /// No quota is known.
    Unknown,
    /// The account is refused access; the models are not consulted.
    Forbidden,
    /// The percentages of the two families shown.
    Usage { first: i32, second: i32 },
}

/// Whether every model of the list has a percentage between 0 and 100.
pub open spec fn all_wf(models: Seq<ModelQuota>) -> bool {
    forall|i: int| 0 <= i < models.len() ==> (#[trigger] models[i]).wf()
}

/// The percentage shown for a family is one of the list's percentages or 0,
/// so it lies between 0 and 100 where all of the list's do.
pub proof fn family_percentage_in_range(models: Seq<ModelQuota>, family: Seq<char>, upto: int)
    requires
        all_wf(models),
    ensures
        0 <= family_percentage(models, family, upto) <= 100,
    decreases upto,
{
    if 0 < upto <= models.len() {
        if in_family(models[upto - 1], family) {
            assert(models[upto - 1].wf());
        } else {
            family_percentage_in_range(models, family, upto - 1);
        }
    }
}

/// The percentage shown for a family of models.
pub fn percentage_of_family(models: &Vec<ModelQuota>, family: &str) -> (percentage: i32)
    ensures
        percentage == family_percentage(models@, family@, models@.len() as int),
        all_wf(models@) ==> 0 <= percentage <= 100,
{
    proof {
        if all_wf(models@) {
            family_percentage_in_range(models@, family@, models@.len() as int);
        }
    }
    let mut shown: i32 = 0;
    let mut i: usize = 0;
    while i < models.len()
        invariant
            i <= models@.len(),
            shown == family_percentage(models@, family@, i as int),
        decreases models@.len() - i,
    {
        let name = to_lower(models[i].name.as_str());
        if contains_text(name.as_str(), family) {
            shown = models[i].percentage;
        }
        i += 1;
    }
    shown
}

/// What the tray shows of a quota snapshot, or of the lack of one, for the
/// two model families that it reports on.
pub open spec fn display_of(quota: Option<Quota>, first_family: Seq<char>, second_family: Seq<char>) -> QuotaDisplay {
    match quota {
        None => QuotaDisplay::Unknown,
        Some(q) => if q.is_forbidden {
            QuotaDisplay::Forbidden
        } else {
            QuotaDisplay::Usage {
                first: family_percentage(q.models@, first_family, q.models@.len() as int) as i32,
                second: family_percentage(q.models@, second_family, q.models@.len() as int) as i32,
            }
        },
    }
}

/// Settles what the tray shows of an account's quota.
pub fn quota_display(quota: &Option<Quota>, first_family: &str, second_family: &str) -> (display: QuotaDisplay)
    ensures
        display == display_of(*quota, first_family@, second_family@),
{
    match quota {
        None => QuotaDisplay::Unknown,
        Some(q) => {
            if q.is_forbidden {
                QuotaDisplay::Forbidden
            } else {
                let first = percentage_of_family(&q.models, first_family);
                let second = percentage_of_family(&q.models, second_family);
                QuotaDisplay::Usage { first, second }
            }
        },
    }
}

/// What an entry of the tray menu asks for.
#[derive(Debug, Clone, Copy, PartialEq, Eq, Structural)]
pub enum MenuCommand {
    /// Show the main window.
    ShowWindow,
    /// Leave the application.
    Quit,
    /// Refresh the quota of the active account.
    RefreshCurrent,
    /// Switch to the next account.
    SwitchNext,
    /// An entry that asks for nothing.
    Nothing,
}

/// The command behind the menu entry with this identifier.
pub open spec fn command_of(id: Seq<char>) -> MenuCommand {
    if id == "show"@ {
        MenuCommand::ShowWindow
    } else if id == "quit"@ {
        MenuCommand::Quit
    } else if id == "refresh_curr"@ {
        MenuCommand::RefreshCurrent
    } else if id == "switch_next"@ {
        MenuCommand::SwitchNext
    } else {
        MenuCommand::Nothing
    }
}

/// Settles the command behind a menu entry.
pub fn menu_command(id: &str) -> (command: MenuCommand)
    ensures
        command == command_of(id@),
{
    if same_text(id, "show") {
        MenuCommand::ShowWindow
    } else if same_text(id, "quit") {
        MenuCommand::Quit
    } else if same_text(id, "refresh_curr") {
        MenuCommand::RefreshCurrent
    } else if same_text(id, "switch_next") {
        MenuCommand::SwitchNext
    } else {
        MenuCommand::Nothing
    }
}

/// A snapshot of a refused account shows as forbidden whatever its models
/// hold.
pub proof fn forbidden_hides_models(quota: Quota, first_family: Seq<char>, second_family: Seq<char>)
    requires
        quota.is_forbidden,
    ensures
        display_of(Some(quota), first_family, second_family) == QuotaDisplay::Forbidden,
{
}

} // verus!
