//! Download-with-retry plan.
//!
//! One refresh walks the shuffled candidate list up to `MAX_ATTEMPTS` times.
//! Each fetch hands its outcome back to the plan: a body that begins with the
//! JPEG marker is accepted and ends the walk at once; anything else (a wrong
//! body or a transport error) moves the walk to the next candidate. When every
//! candidate of every attempt has been tried, the plan fails for good.

use vstd::prelude::*;

verus! {

/// How many passes over the candidate list one refresh may make.
pub const MAX_ATTEMPTS: usize = 3;

/// A downloaded body counts as a JPEG image exactly when it begins with the
/// two-byte JPEG start-of-image marker `0xFF 0xD8`. The marker alone passes:
/// the two bytes are all that is looked at, so a truncated or corrupt body
/// that starts with them is accepted here and surfaced later as a conversion
/// failure.
pub open spec fn is_jpeg_bytes(bytes: Seq<u8>) -> bool {
    bytes.len() >= 2 && bytes[0] == 0xFF && bytes[1] == 0xD8
}

/// Format gate applied to every downloaded body before it is accepted.
pub fn is_jpeg(bytes: &Vec<u8>) -> (r: bool)
    ensures
        r == is_jpeg_bytes(bytes@),
{
    bytes.len() >= 2 && bytes[0] == 0xFF && bytes[1] == 0xD8
}

/// A fetch outcome that ends the walk: the transport succeeded and the body
/// passes the format gate.
pub open spec fn outcome_accepted(body: Option<Seq<u8>>) -> bool {
    body matches Some(b) && is_jpeg_bytes(b)
}

/// Mathematical state of one download-with-retry walk.
#[verifier::ext_equal]
pub struct PlanModel {
    /// How many candidate sources the walk cycles over.
    pub n: nat,
    /// How many fetches were made so far.
    pub made: nat,
    /// The accepted body, once one fetch produced a JPEG.
    pub result: Option<Seq<u8>>,
    /// Whether every candidate of every attempt has been tried in vain.
    pub failed: bool,
}

/// A plan that has neither accepted a body nor given up still fetches.
pub open spec fn plan_active(p: PlanModel) -> bool {
    p.result is None && !p.failed
}

/// The state a refresh starts from.
pub open spec fn fresh_plan(n: nat) -> PlanModel {
    PlanModel { n, made: 0, result: None, failed: false }
}

/// A plan the walk can actually be in: it gives up exactly when the whole
/// schedule of `MAX_ATTEMPTS` passes is spent without an accepted body.
pub open spec fn plan_wf(p: PlanModel) -> bool {
    &&& p.n >= 1
    &&& p.made <= MAX_ATTEMPTS as nat * p.n
    &&& (p.failed <==> p.made == MAX_ATTEMPTS as nat * p.n && p.result is None)
    &&& (p.result is Some ==> is_jpeg_bytes(p.result.unwrap()))
}

/// A well-formed plan whose whole schedule also fits the machine's counters.
pub open spec fn plan_inv(p: PlanModel) -> bool {
    &&& plan_wf(p)
    &&& MAX_ATTEMPTS as nat * p.n <= usize::MAX as nat
}

/// How one fetch outcome moves the plan forward.
pub open spec fn plan_step(p: PlanModel, body: Option<Seq<u8>>) -> PlanModel
    recommends
        plan_active(p),
{
    if outcome_accepted(body) {
        PlanModel { made: p.made + 1, result: body, ..p }
    } else {
        PlanModel { made: p.made + 1, failed: p.made + 1 >= MAX_ATTEMPTS as nat * p.n, ..p }
    }
}

/// The plan after a whole run of fetch outcomes, each consumed only while the
/// plan still fetches.
pub open spec fn plan_run(p: PlanModel, outcomes: Seq<Option<Seq<u8>>>) -> PlanModel
    decreases outcomes.len(),
{
    if outcomes.len() == 0 || !plan_active(p) {
        p
    } else {
        plan_run(plan_step(p, outcomes[0]), outcomes.skip(1))
    }
}

/// Download-with-retry state, fed by the caller that performs each fetch.
pub struct FetchPlan {
    n_candidates: usize,
    made: usize,
    result: Option<Vec<u8>>,
    failed: bool,
}

impl View for FetchPlan {
    type V = PlanModel;

    closed spec fn view(&self) -> PlanModel {
        PlanModel {
            n: self.n_candidates as nat,
            made: self.made as nat,
            result: match self.result {
                Some(b) => Some(b@),
                None => None,
            },
            failed: self.failed,
        }
    }
}

impl FetchPlan {
    /// Starts a walk over `n_candidates` sources.
    pub fn new(n_candidates: usize) -> (r: FetchPlan)
        requires
            1 <= n_candidates <= usize::MAX / MAX_ATTEMPTS,
        ensures
            r@ == fresh_plan(n_candidates as nat),
            plan_inv(r@),
    {
        FetchPlan { n_candidates, made: 0, result: None, failed: false }
    }

    /// Which candidate of the shuffled list the next fetch must hit, or
    /// nothing once the walk has accepted a body or given up: an accepted
    /// body short-circuits every remaining candidate and attempt.
    pub fn next_candidate(&self) -> (r: Option<usize>)
        requires
            plan_inv(self@),
        ensures
            r matches Some(i) ==> plan_active(self@) && i as nat == self@.made % self@.n,
            r is None <==> !plan_active(self@),
    {
        if self.result.is_none() && !self.failed {
            Some(self.made % self.n_candidates)
        } else {
            None
        }
    }

    /// Feeds the outcome of one fetch into the plan: the body of the reply,
    /// or nothing when the transport itself failed.
    pub fn record(&mut self, body: Option<Vec<u8>>)
        requires
            plan_inv(old(self)@),
            plan_active(old(self)@),
        ensures
            final(self)@ == plan_step(old(self)@, body.deep_view()),
            plan_inv(final(self)@),
    {
        let ghost bv = body.deep_view();
        proof {
            assert(old(self)@.made < MAX_ATTEMPTS as nat * old(self)@.n);
        }
        self.made = self.made + 1;
        match body {
            Some(b) => {
                if is_jpeg(&b) {
                    self.result = Some(b);
                } else {
                    self.failed = self.made >= MAX_ATTEMPTS * self.n_candidates;
                }
            },
            None => {
                self.failed = self.made >= MAX_ATTEMPTS * self.n_candidates;
            },
        }
        proof {
            assert(self@ =~= plan_step(old(self)@, bv));
        }
    }

    /// The accepted body, once there is one.
    pub fn take_result(self) -> (r: Option<Vec<u8>>)
        ensures
            r.deep_view() == self@.result,
    {
        self.result
    }

    /// How many fetches this walk has made.
    pub fn fetches_made(&self) -> (r: usize)
        ensures
            r as nat == self@.made,
    {
        self.made
    }

    /// Whether the walk gave up after the whole schedule.
    pub fn has_failed(&self) -> (r: bool)
        ensures
            r == self@.failed,
    {
        self.failed
    }
}

/// Law: the first fetch whose body passes the format gate ends the walk.
/// If the outcomes before position `k` are all rejected and the outcome at `k`
/// is an accepted JPEG body that arrives within the schedule, the plan ends
/// with exactly that body after exactly `k + 1` fetches — every remaining
/// candidate and attempt is skipped — and the walk did not fail.
pub proof fn lemma_first_accepted_body_wins(n: nat, outcomes: Seq<Option<Seq<u8>>>, k: int)
    requires
        n >= 1,
        0 <= k < outcomes.len(),
        k < MAX_ATTEMPTS as int * n,
        forall|j: int| 0 <= j < k ==> !outcome_accepted(#[trigger] outcomes[j]),
        outcome_accepted(outcomes[k]),
    ensures
        plan_run(fresh_plan(n), outcomes).result == outcomes[k],
        plan_run(fresh_plan(n), outcomes).made == k + 1,
        !plan_run(fresh_plan(n), outcomes).failed,
{
    lemma_run_until_accepted(fresh_plan(n), outcomes, k);
}

proof fn lemma_run_until_accepted(p: PlanModel, outcomes: Seq<Option<Seq<u8>>>, k: int)
    requires
        plan_wf(p),
        plan_active(p),
        0 <= k < outcomes.len(),
        p.made + k < MAX_ATTEMPTS as int * p.n,
        forall|j: int| 0 <= j < k ==> !outcome_accepted(#[trigger] outcomes[j]),
        outcome_accepted(outcomes[k]),
    ensures
        plan_run(p, outcomes).result == outcomes[k],
        plan_run(p, outcomes).made == p.made + k + 1,
        !plan_run(p, outcomes).failed,
    decreases k,
{
    let q = plan_step(p, outcomes[0]);
    if k == 0 {
        assert(!plan_active(q));
        assert(plan_run(q, outcomes.skip(1)) == q);
    } else {
        assert(!outcome_accepted(outcomes[0]));
        assert(plan_active(q));
        let rest = outcomes.skip(1);
        assert forall|j: int| 0 <= j < k - 1 implies !outcome_accepted(#[trigger] rest[j]) by {
            assert(rest[j] == outcomes[j + 1]);
        }
        assert(rest[k - 1] == outcomes[k]);
        lemma_run_until_accepted(q, rest, k - 1);
    }
}

/// Law: when every fetch is rejected, the walk fails after exactly
/// `MAX_ATTEMPTS` passes over the candidate list — `MAX_ATTEMPTS * n` fetches
/// — with no body accepted.
pub proof fn lemma_all_rejected_exhausts_schedule(n: nat, outcomes: Seq<Option<Seq<u8>>>)
    requires
        n >= 1,
        outcomes.len() >= MAX_ATTEMPTS as nat * n,
        forall|j: int| 0 <= j < outcomes.len() ==> !outcome_accepted(#[trigger] outcomes[j]),
    ensures
        plan_run(fresh_plan(n), outcomes).failed,
        plan_run(fresh_plan(n), outcomes).made == MAX_ATTEMPTS as nat * n,
        plan_run(fresh_plan(n), outcomes).result is None,
{
    lemma_run_all_rejected(fresh_plan(n), outcomes);
}

proof fn lemma_run_all_rejected(p: PlanModel, outcomes: Seq<Option<Seq<u8>>>)
    requires
        plan_wf(p),
        plan_active(p),
        p.made + outcomes.len() >= MAX_ATTEMPTS as nat * p.n,
        forall|j: int| 0 <= j < outcomes.len() ==> !outcome_accepted(#[trigger] outcomes[j]),
    ensures
        plan_run(p, outcomes).failed,
        plan_run(p, outcomes).made == MAX_ATTEMPTS as nat * p.n,
        plan_run(p, outcomes).result is None,
    decreases outcomes.len(),
{
    assert(outcomes.len() > 0);
    let q = plan_step(p, outcomes[0]);
    let rest = outcomes.skip(1);
    if q.failed {
        assert(plan_run(q, rest) == q);
    } else {
        assert(plan_active(q));
        assert forall|j: int| 0 <= j < rest.len() implies !outcome_accepted(
            #[trigger] rest[j],
        ) by {
            assert(rest[j] == outcomes[j + 1]);
        }
        lemma_run_all_rejected(q, rest);
    }
}

} // verus!
