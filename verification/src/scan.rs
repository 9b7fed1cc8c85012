//! The scan over plans read from the store: it walks them in order, stops at
//! each plan that is due to have its claims looked up, and keeps the plan if
//! none is found.

use vstd::prelude::*;
use crate::clock::unix_now;
use crate::service::{
    plan_due_at, plan_of, DueForClaimPlan, PlanError, PlanErrorView, PlanRow, PlanRowView,
    PlanService, PlanView,
};

verus! {

/// A scan in progress.
#[derive(Debug)]
pub struct DueScan {
    plans: Vec<DueForClaimPlan>,
    position: usize,
    asking: bool,
    due: Vec<DueForClaimPlan>,
}

/// What a `DueScan` is: the plans in the order read, how many of them are
/// dealt with, whether the plan at that position awaits the answer on its
/// claims, and the plans kept so far.
pub struct DueScanView {
    pub plans: Seq<PlanView>,
    pub position: nat,
    pub asking: bool,
    pub due: Seq<PlanView>,
}

/// Plans by their views.
pub open spec fn plan_views(plans: Seq<DueForClaimPlan>) -> Seq<PlanView> {
    plans.map_values(|plan: DueForClaimPlan| plan@)
}

/// Rows by their views.
pub open spec fn row_views(rows: Seq<PlanRow>) -> Seq<PlanRowView> {
    rows.map_values(|row: PlanRow| row@)
}

/// The plans that rows stand for, where every row converts.
pub open spec fn converted(rows: Seq<PlanRowView>) -> Seq<PlanView> {
    Seq::new(rows.len(), |i: int| plan_of(rows[i])->Ok_0)
}

/// Whether row `k` is the first that does not convert.
pub open spec fn first_failure(rows: Seq<PlanRowView>, k: int) -> bool {
    &&& 0 <= k < rows.len()
    &&& plan_of(rows[k]) is Err
    &&& forall|j: int| 0 <= j < k ==> (#[trigger] plan_of(rows[j])) is Ok
}

/// What starting a scan over `rows` gives: with every row converted, a scan
/// at its start over the plans in the rows' order; else the error of the
/// first row that does not convert.
pub open spec fn begins(rows: Seq<PlanRowView>, outcome: Result<DueScan, PlanError>) -> bool {
    match outcome {
        Ok(scan) => {
            &&& scan.wf()
            &&& forall|i: int| 0 <= i < rows.len() ==> (#[trigger] plan_of(rows[i])) is Ok
            &&& scan@ == started(converted(rows))
        },
        Err(error) => exists|k: int|
            #![trigger first_failure(rows, k)]
            first_failure(rows, k) && plan_of(rows[k]) == Err::<PlanView, PlanErrorView>(error@),
    }
}

/// A scan's invariant: the position is within the plans, and a plan that
/// awaits its answer exists.
pub open spec fn scan_valid(scan: DueScanView) -> bool {
    &&& scan.position <= scan.plans.len()
    &&& scan.asking ==> scan.position < scan.plans.len()
}

/// A scan at its start.
pub open spec fn started(plans: Seq<PlanView>) -> DueScanView {
    DueScanView { plans, position: 0, asking: false, due: Seq::empty() }
}

/// The scan moved on to the next plan that is due at time `now`, which then
/// awaits its answer, or to the end. A scan that awaits an answer stays.
pub open spec fn advanced(scan: DueScanView, now: i64) -> DueScanView
    decreases scan.plans.len() - scan.position,
{
    if scan.asking || scan.position >= scan.plans.len() {
        scan
    } else if plan_due_at(scan.plans[scan.position as int], now) {
        DueScanView { asking: true, ..scan }
    } else {
        advanced(DueScanView { position: scan.position + 1, ..scan }, now)
    }
}

/// The plan whose claims are to be looked up, by its id.
pub open spec fn lookup_of(scan: DueScanView) -> Option<u128> {
    if scan.asking && scan.position < scan.plans.len() {
        Some(scan.plans[scan.position as int].id)
    } else {
        None
    }
}

/// The scan after the answer for the awaiting plan: the plan is kept if it
/// has no claim, and the scan is past it. A scan that awaits nothing stays.
pub open spec fn answered(scan: DueScanView, has_claim: bool) -> DueScanView {
    if scan.asking && scan.position < scan.plans.len() {
        DueScanView {
            plans: scan.plans,
            position: scan.position + 1,
            asking: false,
            due: if has_claim {
                scan.due
            } else {
                scan.due.push(scan.plans[scan.position as int])
            },
        }
    } else {
        scan
    }
}

/// Whether a plan belongs to the result: due at `now`, and not among the
/// claimed.
pub open spec fn due_unclaimed(plan: PlanView, now: i64, claimed: Set<u128>) -> bool {
    plan_due_at(plan, now) && !claimed.contains(plan.id)
}

/// The plans of a list that are due at `now` and not claimed, in the list's
/// order.
pub open spec fn selection(plans: Seq<PlanView>, now: i64, claimed: Set<u128>) -> Seq<PlanView> {
    plans.filter(|plan: PlanView| due_unclaimed(plan, now, claimed))
}

/// What holds of a scan throughout a run at time `now` in which each lookup
/// is answered from `claimed`: the plans kept are the selection from those
/// dealt with, and a plan that awaits its answer is due.
pub open spec fn on_course(scan: DueScanView, now: i64, claimed: Set<u128>) -> bool {
    &&& scan_valid(scan)
    &&& scan.due == selection(scan.plans.take(scan.position as int), now, claimed)
    &&& scan.asking ==> plan_due_at(scan.plans[scan.position as int], now)
}

impl View for DueScan {
    type V = DueScanView;

    closed spec fn view(&self) -> DueScanView {
        DueScanView {
            plans: plan_views(self.plans@),
            position: self.position as nat,
            asking: self.asking,
            due: plan_views(self.due@),
        }
    }
}

impl DueScan {
    /// The scan's invariant.
    pub open spec fn wf(&self) -> bool {
        scan_valid(self@)
    }

    /// Starts a scan over `rows`, converting each to a plan. The first row
    /// that does not convert ends it with that row's error.
    pub fn begin(rows: &Vec<PlanRow>) -> (outcome: Result<DueScan, PlanError>)
        ensures
            begins(row_views(rows@), outcome),
    {
        let mut plans: Vec<DueForClaimPlan> = Vec::new();
        let mut i: usize = 0;
        while i < rows.len()
            invariant
                0 <= i <= rows@.len(),
                plans@.len() == i,
                forall|j: int| 0 <= j < i ==> (#[trigger] plan_of(row_views(rows@)[j])) is Ok,
                forall|j: int|
                    0 <= j < i ==> (#[trigger] plans@[j])@ == plan_of(row_views(rows@)[j])->Ok_0,
            decreases rows@.len() - i,
        {
            match DueForClaimPlan::from_row(&rows[i]) {
                Err(error) => {
                    assert(first_failure(row_views(rows@), i as int));
                    return Err(error);
                },
                Ok(plan) => {
                    plans.push(plan);
                },
            }
            i += 1;
        }
        let scan = DueScan { plans, position: 0, asking: false, due: Vec::new() };
        assert(scan@.plans =~= converted(row_views(rows@)));
        assert(scan@.due =~= Seq::<PlanView>::empty());
        Ok(scan)
    }

    /// Moves on to the next plan that is due at time `now` and returns its
    /// id, for the caller to look up its claims; `None` once every plan is
    /// dealt with. While an answer is awaited, the same id is returned.
    pub fn next_lookup_at(&mut self, now: i64) -> (lookup: Option<u128>)
        requires
            old(self).wf(),
        ensures
            final(self).wf(),
            final(self)@ == advanced(old(self)@, now),
            lookup == lookup_of(final(self)@),
    {
        while self.position < self.plans.len() && !self.asking
            invariant
                self.wf(),
                advanced(self@, now) == advanced(old(self)@, now),
            decreases self.plans@.len() - self.position + (if self.asking { 0int } else { 1int }),
        {
            let plan = &self.plans[self.position];
            let method = match &plan.distribution_method {
                Some(method) => Some(method.as_str()),
                None => None,
            };
            if PlanService::is_due_for_claim_at(method, plan.contract_created_at, now) {
                self.asking = true;
            } else {
                self.position += 1;
            }
        }
        if self.asking {
            Some(self.plans[self.position].id)
        } else {
            None
        }
    }

    /// Moves on as `next_lookup_at` does, at the time that the system clock
    /// shows.
    pub fn next_lookup(&mut self) -> (lookup: Option<u128>)
        requires
            old(self).wf(),
        ensures
            final(self).wf(),
            lookup == lookup_of(final(self)@),
            exists|now: i64| #![trigger advanced(old(self)@, now)] final(self)@ == advanced(old(self)@, now),
    {
        let now = unix_now();
        self.next_lookup_at(now)
    }

    /// Takes the answer for the plan that awaits it: `has_claim` says
    /// whether a claim on it exists. A plan without a claim is kept. A scan
    /// that awaits nothing is left as it is.
    pub fn record_claim(&mut self, has_claim: bool)
        requires
            old(self).wf(),
        ensures
            final(self).wf(),
            final(self)@ == answered(old(self)@, has_claim),
    {
        if self.asking {
            let here = self.position;
            let count = self.plans.len();
            assert(here < count);
            if !has_claim {
                let copy = self.plans[here].duplicate();
                self.due.push(copy);
                assert(plan_views(self.due@) =~= old(self)@.due.push(old(self)@.plans[here as int]));
            }
            self.position = here + 1;
            self.asking = false;
        }
    }

    /// Whether every plan is dealt with.
    pub fn is_finished(&self) -> (finished: bool)
        requires
            self.wf(),
        ensures
            finished == (self@.position == self@.plans.len()),
    {
        self.position == self.plans.len()
    }

    /// The plans kept, in the order read.
    pub fn finish(self) -> (due: Vec<DueForClaimPlan>)
        ensures
            plan_views(due@) == self@.due,
    {
        self.due
    }

    /// The first plan kept, if any: the result of a scan over a single row.
    pub fn finish_one(self) -> (due: Option<DueForClaimPlan>)
        ensures
            match due {
                Some(plan) => self@.due.len() > 0 && plan@ == self@.due[0],
                None => self@.due.len() == 0,
            },
    {
        if self.due.len() == 0 {
            None
        } else {
            Some(self.due[0].duplicate())
        }
    }
}

/// A scan starts on course.
pub proof fn law_scan_starts_on_course(plans: Seq<PlanView>, now: i64, claimed: Set<u128>)
    ensures
        on_course(started(plans), now, claimed),
{
    reveal(Seq::filter);
    assert(plans.take(0) =~= Seq::<PlanView>::empty());
}

/// Moving on keeps a scan on course: the plans passed over are not due.
pub proof fn law_advance_stays_on_course(scan: DueScanView, now: i64, claimed: Set<u128>)
    requires
        on_course(scan, now, claimed),
    ensures
        on_course(advanced(scan, now), now, claimed),
    decreases scan.plans.len() - scan.position,
{
    if scan.asking || scan.position >= scan.plans.len() {
    } else if plan_due_at(scan.plans[scan.position as int], now) {
    } else {
        let next = DueScanView { position: scan.position + 1, ..scan };
        let upto = scan.plans.take(next.position as int);
        assert(upto.drop_last() =~= scan.plans.take(scan.position as int));
        assert(upto.last() == scan.plans[scan.position as int]);
        reveal(Seq::filter);
        assert(on_course(next, now, claimed));
        law_advance_stays_on_course(next, now, claimed);
    }
}

/// An answer taken from `claimed` keeps a scan on course: the plan is kept
/// exactly if it is not claimed.
pub proof fn law_answer_stays_on_course(scan: DueScanView, now: i64, claimed: Set<u128>)
    requires
        on_course(scan, now, claimed),
        scan.asking,
    ensures
        on_course(answered(scan, claimed.contains(scan.plans[scan.position as int].id)), now, claimed),
{
    let next = answered(scan, claimed.contains(scan.plans[scan.position as int].id));
    let upto = scan.plans.take(next.position as int);
    assert(upto.drop_last() =~= scan.plans.take(scan.position as int));
    assert(upto.last() == scan.plans[scan.position as int]);
    reveal(Seq::filter);
}

/// A scan on course that has dealt with every plan has kept exactly the
/// plans that are due and not claimed, in the order read.
pub proof fn law_finished_scan_is_selection(scan: DueScanView, now: i64, claimed: Set<u128>)
    requires
        on_course(scan, now, claimed),
        scan.position == scan.plans.len(),
    ensures
        scan.due == selection(scan.plans, now, claimed),
{
    assert(scan.plans.take(scan.position as int) =~= scan.plans);
}

} // verus!
