use vstd::prelude::*;

use crate::call_site::CallSite;
use crate::error::TracedError;
use crate::result::TracedResult;

verus! {

/// Forwarding through `n` sites: start from a trace holding only the
/// construction site `origin`, and let each forwarding step append its own
/// site, as `branch` does (widening by `from_residual` keeps the trace as it
/// is). Then the final trace has `1 + n` entries: `origin` first, then each
/// forwarding site in the order the steps happened.
pub proof fn lemma_forwarding_chain(
    origin: CallSite,
    sites: Seq<CallSite>,
    traces: Seq<Seq<CallSite>>,
)
    requires
        traces.len() == sites.len() + 1,
        traces[0] == seq![origin],
        forall|i: int| 0 <= i < sites.len() ==> #[trigger] traces[i + 1] == traces[i].push(sites[i]),
    ensures
        traces.last() == seq![origin] + sites,
        traces.last().len() == 1 + sites.len(),
        traces.last()[0] == origin,
        forall|i: int| 0 <= i < sites.len() ==> traces.last()[i + 1] == sites[i],
{
    assert forall|k: int| 0 <= k <= sites.len() implies traces[k] == seq![origin] + sites.subrange(
        0,
        k,
    ) by {
        lemma_forwarding_prefix(origin, sites, traces, k);
    }
    assert(sites.subrange(0, sites.len() as int) =~= sites);
}

proof fn lemma_forwarding_prefix(
    origin: CallSite,
    sites: Seq<CallSite>,
    traces: Seq<Seq<CallSite>>,
    k: int,
)
    requires
        traces.len() == sites.len() + 1,
        traces[0] == seq![origin],
        forall|i: int| 0 <= i < sites.len() ==> #[trigger] traces[i + 1] == traces[i].push(sites[i]),
        0 <= k <= sites.len(),
    ensures
        traces[k] == seq![origin] + sites.subrange(0, k),
    decreases k,
{
    if k == 0 {
        assert(seq![origin] + sites.subrange(0, 0) =~= seq![origin]);
    } else {
        lemma_forwarding_prefix(origin, sites, traces, k - 1);
        assert(traces[(k - 1) + 1] == traces[k - 1].push(sites[k - 1]));
        assert(seq![origin] + sites.subrange(0, k) =~= (seq![origin] + sites.subrange(0, k - 1)).push(
            sites[k - 1],
        ));
    }
}

/// Converting a traced outcome into a standard `Result` and back gives the
/// same outcome: the error value and its whole trace are kept.
pub proof fn lemma_round_trip<T, E>(t: TracedResult<T, E>)
    ensures
        TracedResult::of_result(t.as_result()) == t,
{
}

/// Converting a standard `Result` with a traced error into a traced outcome
/// and back gives the same `Result`.
pub proof fn lemma_round_trip_result<T, E>(r: Result<T, TracedError<E>>)
    ensures
        TracedResult::of_result(r).as_result() == r,
{
}

} // verus!
