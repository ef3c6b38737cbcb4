//! In-memory enumeration sources.
//!
//! These sources answer the two-phase enumeration protocol of [`crate::fetch`]
//! entirely from owned data. They are the verified reference implementations of
//! [`crate::fetch::ForeignSource`], and they let the retry loop be driven
//! through every answer the protocol allows: a steady element set, one that
//! grows between the sizing call and the fill call, and one that fails hard on
//! a chosen call. Elements are plain `u64` sentinel values.

use crate::fetch::{ForeignSource, QueryStatus};
use vstd::prelude::*;

verus! {

/// The error code an in-memory source answers with when its element count does
/// not fit the 32-bit count of the calling convention.
pub const COUNT_OVERFLOW: i32 = -1;

/// A fresh copy of an element vector, handed out as a fill reply.
fn copied_items(items: &Vec<u64>) -> (r: Vec<u64>)
    ensures
        r@ == items@,
{
    let mut out: Vec<u64> = Vec::new();
    let mut i: usize = 0;
    while i < items.len()
        invariant
            i <= items@.len(),
            out@ == items@.take(i as int),
        decreases items@.len() - i,
    {
        out.push(items[i]);
        assert(items@.take(i as int).push(items@[i as int]) =~= items@.take(i + 1));
        i = i + 1;
    }
    assert(items@.take(items@.len() as int) =~= items@);
    out
}

/// A source whose element set never changes: every count query reports the same
/// elements, and every well-capacitied fill hands them out in full.
pub struct FixedSource {
    items: Vec<u64>,
    counted: bool,
    calls: u64,
    errs: Ghost<nat>,
    last_err: Ghost<Option<i32>>,
    filled: Ghost<bool>,
}

impl FixedSource {
    /// A source that steadily holds `items`.
    pub fn new(items: Vec<u64>) -> (s: Self)
        ensures
            s.elements() == items@,
            s.frozen(),
            s.never_errs() == (items@.len() <= u32::MAX as int),
            s.calls() == 0,
            s.errors() == 0,
            s.last_error() is None,
    {
        FixedSource {
            items,
            counted: false,
            calls: 0,
            errs: Ghost(0),
            last_err: Ghost(None),
            filled: Ghost(false),
        }
    }
}

impl ForeignSource<u64> for FixedSource {
    type Config = Seq<u64>;

    closed spec fn elements(&self) -> Seq<u64> {
        self.items@
    }

    closed spec fn reported(&self) -> Option<u32> {
        if self.counted && self.items@.len() <= u32::MAX as int {
            Some(self.items@.len() as u32)
        } else {
            None
        }
    }

    closed spec fn frozen(&self) -> bool {
        true
    }

    closed spec fn never_errs(&self) -> bool {
        self.items@.len() <= u32::MAX as int
    }

    closed spec fn instability(&self) -> nat {
        0
    }

    closed spec fn config(&self) -> Seq<u64> {
        self.items@
    }

    closed spec fn calls(&self) -> nat {
        self.calls as nat
    }

    closed spec fn errors(&self) -> nat {
        self.errs@
    }

    closed spec fn last_error(&self) -> Option<i32> {
        self.last_err@
    }

    closed spec fn last_was_fill(&self) -> bool {
        self.filled@
    }

    fn query_count(&mut self) -> (r: (QueryStatus, u32)) {
        if self.calls < u64::MAX {
            self.calls = self.calls + 1;
        }
        self.filled = Ghost(false);
        if self.items.len() <= u32::MAX as usize {
            self.counted = true;
            self.last_err = Ghost(None);
            (QueryStatus::Success, self.items.len() as u32)
        } else {
            self.errs = Ghost(self.errs@ + 1);
            self.last_err = Ghost(Some(COUNT_OVERFLOW));
            (QueryStatus::Error(COUNT_OVERFLOW), 0)
        }
    }

    fn query_fill(&mut self, capacity: u32) -> (r: (QueryStatus, Vec<u64>)) {
        if self.calls < u64::MAX {
            self.calls = self.calls + 1;
        }
        self.filled = Ghost(true);
        self.last_err = Ghost(None);
        if self.items.len() <= capacity as usize {
            (QueryStatus::Success, copied_items(&self.items))
        } else {
            (QueryStatus::Incomplete, Vec::new())
        }
    }
}

/// A source whose element set grows once, in the middle of an exchange: until
/// the first fill query it holds its initial elements, and that first fill
/// finds the grown set, exactly as a concurrently mutated foreign source would.
/// It also counts the calls made to it, so a driver can observe how many
/// queries a fetch took.
pub struct GrowingSource {
    initial: Vec<u64>,
    grown_items: Vec<u64>,
    grown: bool,
    counted: bool,
    calls: u64,
    errs: Ghost<nat>,
    last_err: Ghost<Option<i32>>,
    filled: Ghost<bool>,
}

impl GrowingSource {
    /// A source that holds `initial` until the first fill query reaches it,
    /// and `grown_items` from then on.
    pub fn new(initial: Vec<u64>, grown_items: Vec<u64>) -> (s: Self)
        ensures
            s.elements() == initial@,
            s.initial_elements() == initial@,
            s.grown_elements() == grown_items@,
            !s.has_grown(),
            s.never_errs() == (initial@.len() <= u32::MAX as int && grown_items@.len()
                <= u32::MAX as int),
            s.calls() == 0,
            s.errors() == 0,
            s.last_error() is None,
    {
        GrowingSource {
            initial,
            grown_items,
            grown: false,
            counted: false,
            calls: 0,
            errs: Ghost(0),
            last_err: Ghost(None),
            filled: Ghost(false),
        }
    }

    /// The elements the source serves before any fill query reaches it.
    pub closed spec fn initial_elements(&self) -> Seq<u64> {
        self.initial@
    }

    /// The elements the source serves once a fill query has reached it.
    pub closed spec fn grown_elements(&self) -> Seq<u64> {
        self.grown_items@
    }

    /// Whether a fill query has moved the source to its grown element set.
    pub closed spec fn has_grown(&self) -> bool {
        self.grown
    }

    /// How many queries have reached the source so far.
    pub fn call_count(&self) -> (n: u64)
        ensures
            n as nat == self.calls(),
    {
        self.calls
    }
}

/// What a growing source serves: the initial elements until it has grown, the
/// grown elements from then on; only a fill query moves it to the grown set,
/// and its two element sets are its fixed configuration.
pub proof fn lemma_growing_source_elements(s: &GrowingSource)
    ensures
        !s.has_grown() ==> s.elements() == s.initial_elements(),
        s.has_grown() ==> s.elements() == s.grown_elements(),
        s.last_was_fill() ==> s.has_grown(),
        s.config() == (s.initial_elements(), s.grown_elements()),
{
}

impl ForeignSource<u64> for GrowingSource {
    type Config = (Seq<u64>, Seq<u64>);

    closed spec fn elements(&self) -> Seq<u64> {
        if self.grown {
            self.grown_items@
        } else {
            self.initial@
        }
    }

    closed spec fn reported(&self) -> Option<u32> {
        if self.counted && self.elements().len() <= u32::MAX as int {
            Some(self.elements().len() as u32)
        } else {
            None
        }
    }

    closed spec fn frozen(&self) -> bool {
        self.grown
    }

    closed spec fn never_errs(&self) -> bool {
        self.initial@.len() <= u32::MAX as int && self.grown_items@.len() <= u32::MAX as int
    }

    closed spec fn instability(&self) -> nat {
        if self.grown {
            0
        } else {
            1
        }
    }

    closed spec fn config(&self) -> (Seq<u64>, Seq<u64>) {
        (self.initial@, self.grown_items@)
    }

    closed spec fn calls(&self) -> nat {
        self.calls as nat
    }

    closed spec fn errors(&self) -> nat {
        self.errs@
    }

    closed spec fn last_error(&self) -> Option<i32> {
        self.last_err@
    }

    closed spec fn last_was_fill(&self) -> bool {
        self.filled@ && self.grown
    }

    fn query_count(&mut self) -> (r: (QueryStatus, u32))
        ensures
            final(self).has_grown() == old(self).has_grown(),
            final(self).initial_elements() == old(self).initial_elements(),
            final(self).grown_elements() == old(self).grown_elements(),
            final(self).elements() == old(self).elements(),
    {
        if self.calls < u64::MAX {
            self.calls = self.calls + 1;
        }
        self.filled = Ghost(false);
        let n = if self.grown {
            self.grown_items.len()
        } else {
            self.initial.len()
        };
        if n <= u32::MAX as usize {
            self.counted = true;
            self.last_err = Ghost(None);
            (QueryStatus::Success, n as u32)
        } else {
            self.errs = Ghost(self.errs@ + 1);
            self.last_err = Ghost(Some(COUNT_OVERFLOW));
            (QueryStatus::Error(COUNT_OVERFLOW), 0)
        }
    }

    fn query_fill(&mut self, capacity: u32) -> (r: (QueryStatus, Vec<u64>))
        ensures
            final(self).has_grown(),
            final(self).initial_elements() == old(self).initial_elements(),
            final(self).grown_elements() == old(self).grown_elements(),
            final(self).elements() == old(self).grown_elements(),
    {
        if self.calls < u64::MAX {
            self.calls = self.calls + 1;
        }
        self.filled = Ghost(true);
        self.last_err = Ghost(None);
        if !self.grown {
            self.grown = true;
            self.counted = false;
        }
        if self.grown_items.len() <= capacity as usize {
            (QueryStatus::Success, copied_items(&self.grown_items))
        } else {
            (QueryStatus::Incomplete, Vec::new())
        }
    }
}

/// A source that fails hard on one chosen call, with a chosen status code, and
/// otherwise behaves like a steady source. Calls are numbered from one.
pub struct FaultySource {
    items: Vec<u64>,
    code: i32,
    fail_on: u64,
    calls: u64,
    counted: bool,
    errs: Ghost<nat>,
    last_err: Ghost<Option<i32>>,
    filled: Ghost<bool>,
}

impl FaultySource {
    /// Every value of this type keeps its books straight, and
    /// `use_type_invariant` hands any holder of one these facts: once the
    /// tally has reached a scheduled failing call, an error reply has been
    /// given; and any error on record carries the scheduled code — or the
    /// count-overflow code, where the elements outnumber the 32-bit count.
    #[verifier::type_invariant]
    pub open spec fn books_kept(&self) -> bool {
        &&& (self.fails_on() >= 1 && self.calls() >= self.fails_on() as nat ==> self.errors()
            >= 1)
        &&& (self.last_error() matches Some(c) ==> c == self.error_code() || (c == COUNT_OVERFLOW
            && self.elements().len() > u32::MAX as int))
    }

    /// A source holding `items` whose `fail_on`-th call answers with the hard
    /// error `code`.
    pub fn new(items: Vec<u64>, fail_on: u64, code: i32) -> (s: Self)
        ensures
            s.elements() == items@,
            s.frozen(),
            !s.never_errs(),
            s.fails_on() == fail_on,
            s.error_code() == code,
            s.calls() == 0,
            s.errors() == 0,
            s.last_error() is None,
    {
        FaultySource {
            items,
            code,
            fail_on,
            calls: 0,
            counted: false,
            errs: Ghost(0),
            last_err: Ghost(None),
            filled: Ghost(false),
        }
    }

    /// The number of the call that answers the scheduled hard error.
    pub closed spec fn fails_on(&self) -> u64 {
        self.fail_on
    }

    /// The status code of the scheduled hard error.
    pub closed spec fn error_code(&self) -> i32 {
        self.code
    }
}

/// A faulty source's schedule is its fixed configuration.
pub proof fn lemma_faulty_source_config(s: &FaultySource)
    ensures
        s.config() == (s.fails_on(), s.error_code()),
{
}

impl ForeignSource<u64> for FaultySource {
    type Config = (u64, i32);

    closed spec fn elements(&self) -> Seq<u64> {
        self.items@
    }

    closed spec fn reported(&self) -> Option<u32> {
        if self.counted && self.items@.len() <= u32::MAX as int {
            Some(self.items@.len() as u32)
        } else {
            None
        }
    }

    closed spec fn frozen(&self) -> bool {
        true
    }

    closed spec fn never_errs(&self) -> bool {
        false
    }

    closed spec fn instability(&self) -> nat {
        0
    }

    closed spec fn config(&self) -> (u64, i32) {
        (self.fail_on, self.code)
    }

    closed spec fn calls(&self) -> nat {
        self.calls as nat
    }

    closed spec fn errors(&self) -> nat {
        self.errs@
    }

    closed spec fn last_error(&self) -> Option<i32> {
        self.last_err@
    }

    closed spec fn last_was_fill(&self) -> bool {
        self.filled@
    }

    fn query_count(&mut self) -> (r: (QueryStatus, u32))
        ensures
            final(self).fails_on() == old(self).fails_on(),
            final(self).error_code() == old(self).error_code(),
            final(self).elements() == old(self).elements(),
            final(self).calls() == final(self).fails_on() as nat ==> r == (
                QueryStatus::Error(final(self).error_code()),
                0u32,
            ),
            final(self).calls() != final(self).fails_on() as nat && final(self).elements().len()
                <= u32::MAX as int ==> r.0 is Success && r.1 as int == final(
                self).elements().len(),
            final(self).calls() != final(self).fails_on() as nat && final(self).elements().len()
                > u32::MAX as int ==> r == (QueryStatus::Error(COUNT_OVERFLOW), 0u32),
    {
        proof {
            use_type_invariant(&*self);
        }
        self.filled = Ghost(false);
        let next = if self.calls < u64::MAX {
            self.calls + 1
        } else {
            self.calls
        };
        if next == self.fail_on {
            self.errs = Ghost(self.errs@ + 1);
            self.last_err = Ghost(Some(self.code));
            self.calls = next;
            return (QueryStatus::Error(self.code), 0);
        }
        self.calls = next;
        if self.items.len() <= u32::MAX as usize {
            self.counted = true;
            self.last_err = Ghost(None);
            (QueryStatus::Success, self.items.len() as u32)
        } else {
            self.errs = Ghost(self.errs@ + 1);
            self.last_err = Ghost(Some(COUNT_OVERFLOW));
            (QueryStatus::Error(COUNT_OVERFLOW), 0)
        }
    }

    fn query_fill(&mut self, capacity: u32) -> (r: (QueryStatus, Vec<u64>))
        ensures
            final(self).fails_on() == old(self).fails_on(),
            final(self).error_code() == old(self).error_code(),
            final(self).elements() == old(self).elements(),
            final(self).calls() == final(self).fails_on() as nat ==> r.0 == QueryStatus::Error(
                final(self).error_code(),
            ) && r.1@ == Seq::<u64>::empty(),
            final(self).calls() != final(self).fails_on() as nat ==> r.0 is Success && r.1@
                == final(self).elements(),
    {
        proof {
            use_type_invariant(&*self);
        }
        self.filled = Ghost(true);
        let next = if self.calls < u64::MAX {
            self.calls + 1
        } else {
            self.calls
        };
        if next == self.fail_on {
            self.errs = Ghost(self.errs@ + 1);
            self.last_err = Ghost(Some(self.code));
            self.calls = next;
            return (QueryStatus::Error(self.code), Vec::new());
        }
        self.calls = next;
        self.last_err = Ghost(None);
        if self.items.len() <= capacity as usize {
            (QueryStatus::Success, copied_items(&self.items))
        } else {
            (QueryStatus::Incomplete, Vec::new())
        }
    }
}

/// A steady source that keeps watch over the protocol discipline: it records
/// the count it last reported and notes whether any fill query ever offered a
/// capacity above it, which would make the matching foreign call write past
/// the buffer the caller allocated.
pub struct AuditSource {
    items: Vec<u64>,
    last_count: Option<u32>,
    over_asked: bool,
    calls: u64,
    errs: Ghost<nat>,
    last_err: Ghost<Option<i32>>,
    filled: Ghost<bool>,
}

impl AuditSource {
    /// Every value of this type has a clean audit, and `use_type_invariant`
    /// hands any holder of one that fact: a fill query may only be made with
    /// the capacity the source most recently reported, so the watching branch
    /// that would record an overdrawn request can never be reached.
    #[verifier::type_invariant]
    pub open spec fn never_over_asked(&self) -> bool {
        !self.audit_failed()
    }

    /// A watching source that steadily holds `items`.
    pub fn new(items: Vec<u64>) -> (s: Self)
        ensures
            s.elements() == items@,
            s.frozen(),
            s.never_errs() == (items@.len() <= u32::MAX as int),
            !s.audit_failed(),
            s.calls() == 0,
            s.errors() == 0,
            s.last_error() is None,
    {
        AuditSource {
            items,
            last_count: None,
            over_asked: false,
            calls: 0,
            errs: Ghost(0),
            last_err: Ghost(None),
            filled: Ghost(false),
        }
    }

    /// Whether some fill query asked for more elements than the source had
    /// most recently reported.
    pub closed spec fn audit_failed(&self) -> bool {
        self.over_asked
    }

    /// Whether some fill query asked for more elements than the source had
    /// most recently reported.
    pub fn was_over_asked(&self) -> (b: bool)
        ensures
            b == self.audit_failed(),
    {
        self.over_asked
    }
}

impl ForeignSource<u64> for AuditSource {
    type Config = Seq<u64>;

    closed spec fn elements(&self) -> Seq<u64> {
        self.items@
    }

    closed spec fn reported(&self) -> Option<u32> {
        if self.items@.len() <= u32::MAX as int {
            self.last_count
        } else {
            None
        }
    }

    closed spec fn frozen(&self) -> bool {
        true
    }

    closed spec fn never_errs(&self) -> bool {
        self.items@.len() <= u32::MAX as int
    }

    closed spec fn instability(&self) -> nat {
        if self.last_count matches Some(c) && (c as int) < self.items@.len() {
            1
        } else {
            0
        }
    }

    closed spec fn config(&self) -> Seq<u64> {
        self.items@
    }

    closed spec fn calls(&self) -> nat {
        self.calls as nat
    }

    closed spec fn errors(&self) -> nat {
        self.errs@
    }

    closed spec fn last_error(&self) -> Option<i32> {
        self.last_err@
    }

    closed spec fn last_was_fill(&self) -> bool {
        self.filled@
    }

    fn query_count(&mut self) -> (r: (QueryStatus, u32))
        ensures
            final(self).audit_failed() == old(self).audit_failed(),
    {
        proof {
            use_type_invariant(&*self);
        }
        if self.calls < u64::MAX {
            self.calls = self.calls + 1;
        }
        self.filled = Ghost(false);
        if self.items.len() <= u32::MAX as usize {
            let n = self.items.len() as u32;
            self.last_count = Some(n);
            self.last_err = Ghost(None);
            (QueryStatus::Success, n)
        } else {
            self.errs = Ghost(self.errs@ + 1);
            self.last_err = Ghost(Some(COUNT_OVERFLOW));
            (QueryStatus::Error(COUNT_OVERFLOW), 0)
        }
    }

    fn query_fill(&mut self, capacity: u32) -> (r: (QueryStatus, Vec<u64>))
        ensures
            final(self).audit_failed() == old(self).audit_failed(),
    {
        proof {
            use_type_invariant(&*self);
        }
        if self.calls < u64::MAX {
            self.calls = self.calls + 1;
        }
        self.filled = Ghost(true);
        self.last_err = Ghost(None);
        match self.last_count {
            Some(limit) => {
                if capacity > limit {
                    self.over_asked = true;
                }
            },
            None => {
                self.over_asked = true;
            },
        }
        if self.items.len() <= capacity as usize {
            (QueryStatus::Success, copied_items(&self.items))
        } else {
            self.last_count = None;
            (QueryStatus::Incomplete, Vec::new())
        }
    }
}

} // verus!
