//! Where the comparison endpoints are, and when to stop polling.

use vstd::prelude::*;

use crate::codecov_client::CodecovClient;
use crate::text;

verus! {

impl CodecovClient {
    /// `GET /api/v2/{service}/{owner}/repos/{repo}/compare/?pullid={pull_id}`;
    /// the query is added by the caller.
    pub fn comparison_url(&self) -> (r: String)
        ensures
            r@ == self.api_repo_spec() + "/compare/"@,
    {
        let mut r = self.api_repo();
        r.append("/compare/");
        r
    }

    /// `GET /api/v2/{service}/{owner}/repos/{repo}/compare/impacted_files?pullid={pull_id}`;
    /// the query is added by the caller.
    pub fn impacted_files_url(&self) -> (r: String)
        ensures
            r@ == self.api_repo_spec() + "/compare/impacted_files"@,
    {
        let mut r = self.api_repo();
        r.append("/compare/impacted_files");
        r
    }

    /// A fresh poll of the impacted files, with this client's retry limit.
    pub fn start_poll(&self) -> (r: ImpactedFilesPoll)
        ensures
            r.attempts == 0,
            r.max_retries == self.max_retries,
            r.wf(),
    {
        ImpactedFilesPoll { attempts: 0, max_retries: self.max_retries }
    }
}

/// What to do after one fetch of the impacted files.
#[derive(Debug, Clone, Copy, PartialEq, Eq)]
pub enum PollStep {
    /// The comparison is processed: return it.
    Done,
    /// Not processed yet: wait the poll delay, then fetch again.
    Wait,
    /// Not processed, and the retries are used up: report that coverage is
    /// not ready.
    GiveUp,
}

/// The state a comparison is in once its impacted files can be read.
pub open spec fn processed_state() -> Seq<char> {
    "processed"@
}

/// One step of the poll: from `attempts` earlier unprocessed answers and the
/// state just fetched, what to do and how many unprocessed answers there
/// have been now.
pub open spec fn poll_step_spec(attempts: nat, max_retries: nat, state: Seq<char>) -> (PollStep, nat) {
    if state == processed_state() {
        (PollStep::Done, attempts)
    } else if attempts + 1 >= max_retries {
        (PollStep::GiveUp, attempts + 1)
    } else {
        (PollStep::Wait, attempts + 1)
    }
}

/// Polls `get_impacted_files` until `state == "processed"` or retries are
/// exhausted: the caller fetches, hands the fetched state to `observe`, and
/// does what it answers.
pub struct ImpactedFilesPoll {
    /// Answers so far whose state was not `processed`.
    pub attempts: u32,
    pub max_retries: u32,
}

impl ImpactedFilesPoll {
    /// The poll may go on: either nothing was fetched yet, or fewer
    /// unprocessed answers came than the retry limit.
    pub open spec fn wf(&self) -> bool {
        self.attempts == 0 || self.attempts < self.max_retries
    }

    /// Takes in the state of one fetched answer.
    pub fn observe(&mut self, state: &str) -> (r: PollStep)
        requires
            old(self).wf(),
        ensures
            (r, final(self).attempts as nat) == poll_step_spec(
                old(self).attempts as nat,
                old(self).max_retries as nat,
                state@,
            ),
            final(self).max_retries == old(self).max_retries,
            r == PollStep::Wait ==> final(self).wf(),
    {
        if text::same_text(state, "processed") {
            return PollStep::Done;
        }
        self.attempts = self.attempts + 1;
        if self.attempts >= self.max_retries {
            PollStep::GiveUp
        } else {
            PollStep::Wait
        }
    }
}

/// The outcome of a poll that fetches `states` in turn, from `attempts`
/// earlier unprocessed answers: the last step taken and how many fetches
/// were made.  A run that ends while still waiting reports `Wait`.
pub open spec fn poll_run(max_retries: nat, attempts: nat, states: Seq<Seq<char>>) -> (PollStep, nat)
    decreases states.len(),
{
    if states.len() == 0 {
        (PollStep::Wait, 0)
    } else {
        let (step, next) = poll_step_spec(attempts, max_retries, states[0]);
        if step == PollStep::Wait {
            let (last, fetches) = poll_run(max_retries, next, states.drop_first());
            (last, fetches + 1)
        } else {
            (step, 1)
        }
    }
}

/// The number of fetches a poll makes when no answer is ever processed:
/// the retry limit, but at least one.
pub open spec fn fetch_budget(max_retries: nat) -> nat {
    if max_retries == 0 {
        1
    } else {
        max_retries
    }
}

/// A poll that never sees a processed answer gives up after exactly
/// `max(1, max_retries)` fetches.
pub proof fn lemma_poll_gives_up(max_retries: nat, attempts: nat, states: Seq<Seq<char>>)
    requires
        attempts == 0 || attempts < max_retries,
        forall|i: int| 0 <= i < states.len() ==> states[i] != processed_state(),
        states.len() + attempts >= fetch_budget(max_retries),
    ensures
        poll_run(max_retries, attempts, states) == (PollStep::GiveUp, (fetch_budget(max_retries)
            - attempts) as nat),
    decreases states.len(),
{
    let (step, next) = poll_step_spec(attempts, max_retries, states[0]);
    if step == PollStep::Wait {
        lemma_poll_gives_up(max_retries, next, states.drop_first());
    }
}

/// A poll whose answers are unprocessed before position `k` and processed
/// at `k` returns the comparison after `k + 1` fetches, provided `k` is
/// within the fetch budget.
pub proof fn lemma_poll_finds_processed(
    max_retries: nat,
    attempts: nat,
    states: Seq<Seq<char>>,
    k: int,
)
    requires
        attempts == 0 || attempts < max_retries,
        0 <= k < states.len(),
        states[k] == processed_state(),
        forall|i: int| 0 <= i < k ==> states[i] != processed_state(),
        k + attempts < fetch_budget(max_retries),
    ensures
        poll_run(max_retries, attempts, states) == (PollStep::Done, (k + 1) as nat),
    decreases k,
{
    if k > 0 {
        let (step, next) = poll_step_spec(attempts, max_retries, states[0]);
        assert(states.drop_first()[k - 1] == states[k]);
        lemma_poll_finds_processed(max_retries, next, states.drop_first(), k - 1);
    }
}

} // verus!
