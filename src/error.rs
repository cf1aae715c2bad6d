use vstd::prelude::*;

use crate::call_site::CallSite;
use crate::render::{push_site_line, trace_lines};

verus! {

/// An error value together with the trace of call sites it passed through.
///
/// The trace is never empty: its first entry is the site where the error was
/// wrapped, and each later entry is a site that forwarded it, oldest first.
/// Entries are only ever appended; the trace is never reordered,
/// deduplicated or shortened.
#[derive(Debug)]
pub struct TracedError<E> {
    trace: Vec<CallSite>,
    inner: E,
}

impl<E> TracedError<E> {
    #[verifier::type_invariant]
    spec fn trace_non_empty(self) -> bool {
        self.trace@.len() >= 1
    }

    /// The wrapped error value.
    pub closed spec fn error(self) -> E {
        self.inner
    }

    /// The recorded call sites, oldest first.
    pub closed spec fn sites(self) -> Seq<CallSite> {
        self.trace@
    }

    /// Wraps `inner`, recording `at` as the site of construction.
    pub fn new(inner: E, at: CallSite) -> (r: TracedError<E>)
        ensures
            r.error() == inner,
            r.sites() == seq![at],
    {
        let trace = vec![at];
        TracedError { trace, inner }
    }

    /// Discards the trace and hands back the error value.
    pub fn into_inner(self) -> (r: E)
        ensures
            r == self.error(),
    {
        self.inner
    }

    /// Read-only access to the error value.
    pub fn inner(&self) -> (r: &E)
        ensures
            *r == self.error(),
    {
        &self.inner
    }

    /// Read-only view of the recorded sites, oldest first.
    pub fn trace(&self) -> (r: &Vec<CallSite>)
        ensures
            r@ == self.sites(),
            r@.len() >= 1,
    {
        proof {
            use_type_invariant(self);
        }
        &self.trace
    }

    /// Splits into the error value and the recorded sites, losing nothing.
    pub fn split(self) -> (r: (E, Vec<CallSite>))
        ensures
            r.0 == self.error(),
            r.1@ == self.sites(),
            r.1@.len() >= 1,
    {
        proof {
            use_type_invariant(&self);
        }
        (self.inner, self.trace)
    }

    /// Human-readable text: `message` (the error's own text), then one line
    /// `At (line:col) in file` per recorded site, newest first, so that the
    /// site of construction comes last.
    pub fn render(&self, message: &str) -> (r: String)
        ensures
            r@ == message@ + trace_lines(self.sites()),
    {
        let ghost t = self.sites();
        let mut out = String::new();
        out.append(message);
        let mut i: usize = self.trace.len();
        assert(t.subrange(0, i as int) =~= t);
        while i > 0
            invariant
                i <= t.len(),
                t == self.trace@,
                out@ + trace_lines(t.subrange(0, i as int)) == message@ + trace_lines(t),
            decreases i,
        {
            let ghost before = out@;
            push_site_line(&mut out, &self.trace[i - 1]);
            proof {
                let head = t.subrange(0, i as int);
                assert(head.drop_last() =~= t.subrange(0, i - 1));
                assert(head.last() == t[i - 1]);
                assert(out@ + trace_lines(t.subrange(0, i - 1)) =~= before + trace_lines(head));
            }
            i = i - 1;
        }
        assert(t.subrange(0, 0) =~= Seq::<CallSite>::empty());
        assert(out@ =~= message@ + trace_lines(t));
        out
    }

    /// Appends `at` as the newest site: the error is being forwarded there.
    pub(crate) fn record(self, at: CallSite) -> (r: TracedError<E>)
        ensures
            r.error() == self.error(),
            r.sites() == self.sites().push(at),
    {
        proof {
            use_type_invariant(&self);
        }
        let TracedError { mut trace, inner } = self;
        trace.push(at);
        TracedError { trace, inner }
    }

    /// Replaces the error value by `map` of it; the trace is left as it is.
    pub(crate) fn map_inner<F, M: FnOnce(E) -> F>(self, map: M) -> (r: TracedError<F>)
        requires
            map.requires((self.error(),)),
        ensures
            map.ensures((self.error(),), r.error()),
            r.sites() == self.sites(),
    {
        proof {
            use_type_invariant(&self);
        }
        let TracedError { trace, inner } = self;
        TracedError { trace, inner: map(inner) }
    }

    /// Converts the error value with `From`, carrying the trace over unchanged:
    /// widening adds no site.
    pub(crate) fn widen<F: From<E>>(self) -> (r: TracedError<F>)
        ensures
            call_ensures(F::from, (self.error(),), r.error()),
            r.sites() == self.sites(),
    {
        proof {
            use_type_invariant(&self);
        }
        let TracedError { trace, inner } = self;
        TracedError { trace, inner: F::from(inner) }
    }
}

} // verus!
