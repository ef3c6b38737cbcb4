//! The two-phase enumeration protocol used to pull a variable-length result set
//! out of a foreign "query count, then query data" entry point.
//!
//! A foreign enumeration call follows one calling convention: asked without a
//! buffer it reports how many elements exist; asked with a buffer it fills the
//! buffer and reports how many elements were available. Because the element set
//! may change between the sizing call and the fill call, a fill can come back
//! with the distinguished "incomplete" signal, and the whole exchange must be
//! retried until one fill succeeds or a call fails hard.

use vstd::prelude::*;

verus! {

/// Outcome of one call to a foreign enumeration entry point: plain success, the
/// distinguished "offered buffer was too small, retry" signal, or a hard error
/// carrying the foreign status code verbatim.
#[derive(Clone, Copy, Debug, PartialEq, Eq, Structural)]
pub enum QueryStatus {
    Success,
    Incomplete,
    Error(i32),
}

/// A foreign enumeration entry point, seen through the two requests the calling
/// convention allows: a count-only query (the null-buffer idiom) and a fill
/// query against a buffer of a stated capacity.
///
/// The ghost state models what the convention documents. `elements` is the
/// element set the source holds right after a call returns; any call may find
/// the set changed, unless the source is `frozen`. `reported` is the count the
/// source most recently stood behind: a fill query may only be made with that
/// capacity, which is exactly the discipline that keeps the foreign call from
/// writing past the caller's buffer. `instability` bounds how many more times
/// the source may still answer "incomplete"; the convention trusts every source
/// to eventually stabilize or fail, and this bound is that trust made explicit.
/// The remaining members are bookkeeping every query must honour: the source's
/// fixed `config` never moves, `calls` counts the queries made, `errors` the
/// hard-error replies among them, `last_error` holds the error of the most
/// recent reply if it was one, and `last_was_fill` tells the two query forms
/// apart, so that callers can speak of how a result was reached.
pub trait ForeignSource<T>: Sized {
    /// Whatever configures the source when it is made — which elements it can
    /// serve, when it errs — as opposed to its call-to-call state: no query
    /// moves it.
    type Config;

    /// The elements the source holds, as of the end of the most recent call.
    /// Unless a source says otherwise, nothing is claimed of it beyond the
    /// calling convention, and the defaults here say as little as that: no
    /// elements are promised, no report stands, nothing is ruled out.
    open spec fn elements(&self) -> Seq<T> {
        Seq::empty()
    }

    /// The element count the source most recently reported, if any report
    /// is still standing.
    open spec fn reported(&self) -> Option<u32> {
        None
    }

    /// A frozen source never changes its element set again.
    open spec fn frozen(&self) -> bool {
        false
    }

    /// A source with this property never answers with a hard error.
    open spec fn never_errs(&self) -> bool {
        false
    }

    /// How many more times the source may answer "incomplete".
    open spec fn instability(&self) -> nat {
        0
    }

    /// The source's fixed configuration.
    open spec fn config(&self) -> Self::Config {
        arbitrary()
    }

    /// How many queries have reached the source, as the source counts them;
    /// the tally holds still once it reaches the largest machine count.
    open spec fn calls(&self) -> nat {
        0
    }

    /// How many of the source's replies were hard errors.
    open spec fn errors(&self) -> nat {
        0
    }

    /// The hard error carried by the source's most recent reply, if that
    /// reply was one.
    open spec fn last_error(&self) -> Option<i32> {
        None
    }

    /// Whether the most recent query was a fill query.
    open spec fn last_was_fill(&self) -> bool {
        false
    }

    /// The count-only query: the null-buffer form of the foreign call. No
    /// buffer is offered, so the "too small" signal cannot arise; the call
    /// either reports the current element count or fails hard.
    fn query_count(&mut self) -> (r: (QueryStatus, u32))
        ensures
            !(r.0 is Incomplete),
            !(r.0 is Error) ==> r.1 as int == final(self).elements().len() && final(self).reported() == Some(
                r.1,
            ),
            final(self).instability() <= old(self).instability(),
            old(self).frozen() ==> final(self).frozen() && final(self).elements() == old(self).elements(),
            old(self).never_errs() ==> final(self).never_errs() && !(r.0 is Error),
            final(self).config() == old(self).config(),
            old(self).calls() <= final(self).calls() <= old(self).calls() + 1,
            old(self).calls() < u64::MAX ==> final(self).calls() == old(self).calls() + 1,
            r.0 matches QueryStatus::Error(c) ==> final(self).last_error() == Some(c) && final(self).errors()
                == old(self).errors() + 1,
            !(r.0 is Error) ==> final(self).last_error() is None && final(self).errors() == old(
                self).errors(),
            !final(self).last_was_fill(),
    ;

    /// The fill query: the foreign call offered a buffer of `capacity`
    /// elements. On success the returned buffer holds the complete element
    /// set, which the convention guarantees fits the offered capacity; on
    /// "incomplete" the element set has outgrown the offer and nothing of the
    /// partial fill may be used. A fill may only be made with a capacity the
    /// source itself most recently reported.
    fn query_fill(&mut self, capacity: u32) -> (r: (QueryStatus, Vec<T>))
        requires
            old(self).reported() == Some(capacity),
        ensures
            r.0 is Success ==> r.1@ == final(self).elements() && final(self).elements().len()
                <= capacity as int,
            r.0 is Incomplete ==> final(self).elements().len() > capacity as int
                && final(self).instability() < old(self).instability(),
            !(r.0 is Incomplete) ==> final(self).instability() <= old(self).instability(),
            old(self).frozen() ==> final(self).frozen() && final(self).elements() == old(self).elements(),
            old(self).never_errs() ==> final(self).never_errs() && !(r.0 is Error),
            final(self).config() == old(self).config(),
            old(self).calls() <= final(self).calls() <= old(self).calls() + 1,
            old(self).calls() < u64::MAX ==> final(self).calls() == old(self).calls() + 1,
            r.0 matches QueryStatus::Error(c) ==> final(self).last_error() == Some(c) && final(self).errors()
                == old(self).errors() + 1,
            !(r.0 is Error) ==> final(self).last_error() is None && final(self).errors() == old(
                self).errors(),
            final(self).last_was_fill(),
    ;
}

/// Retrieves the complete, variable-length element set of a foreign
/// enumeration source: size, allocate, fill, and retry from the start whenever
/// the element set outgrew the offer between the two calls.
///
/// On success the returned elements are exactly the source's element set as of
/// the final call — a successful fill, never a truncation — and no call ever
/// answered a hard error along the way. A hard error from either call stops
/// the fetch at once: it is the one error reply the source gave, and its code
/// is handed back verbatim; partial fills are discarded and never surfaced.
/// A source that never fails hard always comes back `Ok`, and a fetch leaves
/// a frozen source's element set untouched, so repeated fetches against an
/// unchanging source keep returning the same elements; such a source is read
/// in one round — one sizing call and one fill.
pub fn fetch_all<T, S: ForeignSource<T>>(source: &mut S) -> (r: Result<Vec<T>, i32>)
    ensures
        r matches Ok(v) ==> v@ == final(source).elements(),
        old(source).frozen() ==> final(source).frozen() && final(source).elements() == old(
            source).elements(),
        old(source).never_errs() ==> final(source).never_errs() && r is Ok,
        old(source).frozen() && old(source).never_errs() ==> (r matches Ok(v) && v@ == old(
            source).elements()),
        final(source).config() == old(source).config(),
        r matches Err(c) ==> final(source).last_error() == Some(c) && final(source).errors()
            == old(source).errors() + 1,
        r is Ok ==> final(source).last_error() is None && final(source).errors() == old(
            source).errors() && final(source).last_was_fill(),
        final(source).calls() >= old(source).calls(),
        r is Ok && old(source).calls() + 2 <= u64::MAX ==> final(source).calls() >= old(
            source).calls() + 2,
        old(source).frozen() ==> final(source).calls() <= old(source).calls() + 2,
        old(source).frozen() && r is Ok && old(source).calls() + 2 <= u64::MAX ==> final(
            source).calls() == old(source).calls() + 2,
{
    loop
        invariant
            old(source).frozen() ==> source.frozen() && source.elements() == old(
                source,
            ).elements(),
            old(source).never_errs() ==> source.never_errs(),
            source.config() == old(source).config(),
            source.errors() == old(source).errors(),
            source.calls() >= old(source).calls(),
            old(source).frozen() ==> source.calls() == old(source).calls(),
        decreases source.instability(),
    {
        let (status, count) = source.query_count();
        if let QueryStatus::Error(code) = status {
            return Err(code);
        }
        let (status, data) = source.query_fill(count);
        match status {
            QueryStatus::Success => {
                return Ok(data);
            },
            QueryStatus::Incomplete => {
            },
            QueryStatus::Error(code) => {
                return Err(code);
            },
        }
    }
}

} // verus!
