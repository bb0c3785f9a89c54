use vstd::prelude::*;

use crate::labels::{marker_deferred, marker_deferred_string};

verus! {

/// Milliseconds in a minute.
pub const MILLIS_PER_MINUTE: u64 = 60000;

/// What the sweeper reads of one marked pod.
///
/// Times are milliseconds since the Unix epoch; `created_ms` is `None` when
/// the cluster reported no creation time, `marker` is the marker label's value.
#[derive(Debug)]
pub struct StalePodRecord {
    pub name: String,
    pub namespace: String,
    pub uid: String,
    pub created_ms: Option<i64>,
    pub marker: Option<String>,
}

/// A pod is removed when it is older than the threshold, or when its session
/// marked it for deferred deletion, whatever its age.
pub open spec fn is_stale(p: StalePodRecord, now_ms: i64, threshold_minutes: u64) -> bool {
    ||| (match p.created_ms {
        Some(c) => now_ms - c > threshold_minutes * MILLIS_PER_MINUTE,
        None => false,
    })
    ||| (match p.marker {
        Some(m) => m@ == marker_deferred(),
        None => false,
    })
}

/// Decides whether one pod is to be removed.
pub fn pod_is_stale(p: &StalePodRecord, now_ms: i64, threshold_minutes: u64) -> (r: bool)
    ensures
        r == is_stale(*p, now_ms, threshold_minutes),
{
    let old_enough = match p.created_ms {
        Some(c) => {
            let age = now_ms as i128 - c as i128;
            assert(threshold_minutes as int * 60000 <= 0xffff_ffff_ffff_ffff * 60000)
                by (nonlinear_arith)
                requires
                    threshold_minutes <= 0xffff_ffff_ffff_ffff,
            ;
            let limit = threshold_minutes as i128 * MILLIS_PER_MINUTE as i128;
            age > limit
        },
        None => false,
    };
    let deferred = match &p.marker {
        Some(m) => *m == marker_deferred_string(),
        None => false,
    };
    old_enough || deferred
}

/// The positions of the stale pods, in list order.
pub open spec fn selects_stale(
    sel: Seq<usize>,
    pods: Seq<StalePodRecord>,
    now_ms: i64,
    threshold_minutes: u64,
) -> bool {
    &&& forall|k: int, l: int| 0 <= k < l < sel.len() ==> sel[k] < sel[l]
    &&& forall|k: int|
        0 <= k < sel.len() ==> #[trigger] sel[k] < pods.len() && is_stale(
            pods[sel[k] as int],
            now_ms,
            threshold_minutes,
        )
    &&& forall|i: int|
        0 <= i < pods.len() && is_stale(#[trigger] pods[i], now_ms, threshold_minutes) ==> exists|
            k: int,
        |
            0 <= k < sel.len() && sel[k] == i
}

/// Picks the pods to remove, keeping their order.
pub fn select_stale(pods: &Vec<StalePodRecord>, now_ms: i64, threshold_minutes: u64) -> (r: Vec<
    usize,
>)
    ensures
        selects_stale(r@, pods@, now_ms, threshold_minutes),
{
    let mut r: Vec<usize> = Vec::new();
    let mut i: usize = 0;
    while i < pods.len()
        invariant
            0 <= i <= pods@.len(),
            forall|k: int, l: int| 0 <= k < l < r@.len() ==> r@[k] < r@[l],
            forall|k: int| 0 <= k < r@.len() ==> #[trigger] r@[k] < i,
            forall|k: int|
                0 <= k < r@.len() ==> is_stale(pods@[#[trigger] r@[k] as int], now_ms, threshold_minutes),
            forall|j: int|
                0 <= j < i && is_stale(#[trigger] pods@[j], now_ms, threshold_minutes) ==> exists|
                    k: int,
                |
                    0 <= k < r@.len() && r@[k] == j,
        decreases pods@.len() - i,
    {
        let ghost prev = r@;
        if pod_is_stale(&pods[i], now_ms, threshold_minutes) {
            r.push(i);
            assert(r@[r@.len() - 1] == i);
        }
        assert forall|j: int|
            0 <= j < i + 1 && is_stale(#[trigger] pods@[j], now_ms, threshold_minutes) implies exists|
                k: int,
            |
                0 <= k < r@.len() && r@[k] == j by {
            if j < i {
                let k = choose|k: int| 0 <= k < prev.len() && prev[k] == j;
                assert(r@[k] == prev[k]);
            } else {
                assert(r@[r@.len() - 1] == j);
            }
        }
        i = i + 1;
    }
    r
}

/// One request of the sweep, naming a pod by its position in the list.
#[derive(Clone, Copy, Debug, PartialEq, Eq, Structural)]
pub enum SweepAction {
    Delete(usize),
    AwaitDeleted(usize),
}

/// The requests for one selected pod: delete it and, when asked, wait until
/// it is gone before turning to the next.
pub open spec fn actions_for(i: usize, wait: bool) -> Seq<SweepAction> {
    if wait {
        seq![SweepAction::Delete(i), SweepAction::AwaitDeleted(i)]
    } else {
        seq![SweepAction::Delete(i)]
    }
}

/// The requests for a selection, one pod after the other.
pub open spec fn plan_of(sel: Seq<usize>, wait: bool) -> Seq<SweepAction>
    decreases sel.len(),
{
    if sel.len() == 0 {
        seq![]
    } else {
        plan_of(sel.drop_last(), wait) + actions_for(sel.last(), wait)
    }
}

/// The sweep as an ordered list of requests: each stale pod is deleted, and
/// with `wait` its deletion is confirmed before the next pod is touched.
pub fn sweep_plan(pods: &Vec<StalePodRecord>, now_ms: i64, threshold_minutes: u64, wait: bool) -> (r:
    Vec<SweepAction>)
    ensures
        exists|sel: Seq<usize>|
            selects_stale(sel, pods@, now_ms, threshold_minutes) && r@ == plan_of(sel, wait),
{
    let sel = select_stale(pods, now_ms, threshold_minutes);
    let mut r: Vec<SweepAction> = Vec::new();
    let mut k: usize = 0;
    while k < sel.len()
        invariant
            0 <= k <= sel@.len(),
            r@ == plan_of(sel@.take(k as int), wait),
        decreases sel@.len() - k,
    {
        assert(sel@.take(k + 1).drop_last() =~= sel@.take(k as int));
        r.push(SweepAction::Delete(sel[k]));
        if wait {
            r.push(SweepAction::AwaitDeleted(sel[k]));
        }
        assert(r@ =~= plan_of(sel@.take(k + 1), wait));
        k = k + 1;
    }
    assert(sel@.take(sel@.len() as int) =~= sel@);
    r
}

/// Number of pods that a plan deletes.
pub open spec fn deletions(plan: Seq<SweepAction>) -> nat
    decreases plan.len(),
{
    if plan.len() == 0 {
        0
    } else {
        deletions(plan.drop_last()) + match plan.last() {
            SweepAction::Delete(_) => 1nat,
            SweepAction::AwaitDeleted(_) => 0nat,
        }
    }
}

proof fn lemma_deletions_concat(a: Seq<SweepAction>, b: Seq<SweepAction>)
    ensures
        deletions(a + b) == deletions(a) + deletions(b),
    decreases b.len(),
{
    if b.len() > 0 {
        lemma_deletions_concat(a, b.drop_last());
        assert((a + b).drop_last() =~= a + b.drop_last());
    }
}

/// A plan deletes each selected pod exactly once, so the count of its
/// deletions is the number of pods found stale.
pub proof fn plan_deletes_each_selected_pod(sel: Seq<usize>, wait: bool)
    ensures
        deletions(plan_of(sel, wait)) == sel.len(),
    decreases sel.len(),
{
    if sel.len() > 0 {
        plan_deletes_each_selected_pod(sel.drop_last(), wait);
        lemma_deletions_concat(plan_of(sel.drop_last(), wait), actions_for(sel.last(), wait));
        let one = actions_for(sel.last(), wait);
        let del = seq![SweepAction::Delete(sel.last())];
        assert(del.drop_last() =~= Seq::<SweepAction>::empty());
        assert(deletions(Seq::<SweepAction>::empty()) == 0);
        assert(deletions(del) == 1);
        if wait {
            assert(one.drop_last() =~= del);
        }
        assert(deletions(one) == 1);
    }
}

/// Counts the pods that a plan deletes: the candidates found.
pub fn count_deletions(plan: &Vec<SweepAction>) -> (r: usize)
    ensures
        r == deletions(plan@),
{
    let mut n: usize = 0;
    let mut i: usize = 0;
    while i < plan.len()
        invariant
            0 <= i <= plan@.len(),
            n == deletions(plan@.take(i as int)),
            n <= i,
        decreases plan@.len() - i,
    {
        assert(plan@.take(i + 1).drop_last() =~= plan@.take(i as int));
        match plan[i] {
            SweepAction::Delete(_) => {
                n = n + 1;
            },
            SweepAction::AwaitDeleted(_) => {},
        }
        i = i + 1;
    }
    assert(plan@.take(plan@.len() as int) =~= plan@);
    n
}

/// Relies on chrono's `From<SystemTime> for DateTime<Utc>`, applied to the
/// system clock: the current time as milliseconds since the Unix epoch, also
/// for a clock set before the epoch.
#[verifier::external_body]
fn now_millis() -> (r: i64) {
    chrono::DateTime::<chrono::Utc>::from(std::time::SystemTime::now()).timestamp_millis()
}

/// The sweep as of the current time: the plan for some reading of the clock.
/// Pods marked for deferred deletion are in it whatever the clock says.
pub fn sweep_plan_now(pods: &Vec<StalePodRecord>, threshold_minutes: u64, wait: bool) -> (r: Vec<
    SweepAction,
>)
    ensures
        exists|now_ms: i64, sel: Seq<usize>|
            selects_stale(sel, pods@, now_ms, threshold_minutes) && r@ == plan_of(sel, wait),
{
    let now_ms = now_millis();
    sweep_plan(pods, now_ms, threshold_minutes, wait)
}

/// A pod marked for deferred deletion is swept at any age and any threshold,
/// and a pod younger than the threshold is swept only when so marked.
pub proof fn deferred_pods_are_always_swept(p: StalePodRecord, now_ms: i64, threshold_minutes: u64)
    ensures
        (match p.marker {
            Some(m) => m@ == marker_deferred(),
            None => false,
        }) ==> is_stale(p, now_ms, threshold_minutes),
        (match p.created_ms {
            Some(c) => now_ms - c <= threshold_minutes * MILLIS_PER_MINUTE,
            None => true,
        }) && is_stale(p, now_ms, threshold_minutes) ==> p.marker is Some
            && p.marker->0@ == marker_deferred(),
{
}

} // verus!
