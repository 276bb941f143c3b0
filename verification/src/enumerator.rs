//! Accumulation of physical monitor records over a walk of the logical
//! displays.
//!
//! The platform walks the logical displays and invokes a visitor once per
//! display; the visitor resolves the display and appends its records to a
//! shared accumulation target, in walk order. Failure policy, chosen and
//! fixed here: the walk is fail-fast — the first display whose resolution
//! fails aborts the whole enumeration with that error and no partial results.

use vstd::prelude::*;
use crate::PlatformError;
use crate::resolver::MonitorModel;
use crate::resolver::MonitorRecord;
use crate::resolver::PhysicalQuery;
use crate::resolver::models_of;
use crate::resolver::query_error_code;
use crate::resolver::query_ok;
use crate::resolver::query_records;
use crate::resolver::record_wf;
use crate::resolver::resolve;

verus! {

/// The records accumulated over a walk of the given displays: display by
/// display in walk order, each display's monitors in delivery order.
pub open spec fn accumulated(qs: Seq<PhysicalQuery>) -> Seq<MonitorModel>
    decreases qs.len(),
{
    if qs.len() == 0 {
        Seq::empty()
    } else {
        accumulated(qs.drop_last()) + query_records(qs.last())
    }
}

/// Whether every display of the walk resolves.
pub open spec fn all_ok(qs: Seq<PhysicalQuery>) -> bool {
    forall|i: int| 0 <= i < qs.len() ==> query_ok(qs[i])
}

/// Where the records of display `i` begin inside the accumulated sequence.
pub open spec fn display_offset(qs: Seq<PhysicalQuery>, i: int) -> int {
    accumulated(qs.take(i)).len() as int
}

/// Extending the walk by one display appends exactly that display's records.
proof fn lemma_accumulated_take_step(qs: Seq<PhysicalQuery>, i: int)
    requires
        0 <= i < qs.len(),
    ensures
        accumulated(qs.take(i + 1)) == accumulated(qs.take(i)) + query_records(qs[i]),
{
    assert(qs.take(i + 1).drop_last() =~= qs.take(i));
    assert(qs.take(i + 1).last() == qs[i]);
}

/// The records accumulated over a prefix of the walk stand unchanged, at the
/// same positions, in the records accumulated over the whole walk.
proof fn lemma_accumulated_prefix(qs: Seq<PhysicalQuery>, i: int)
    requires
        0 <= i <= qs.len(),
    ensures
        accumulated(qs.take(i)).len() <= accumulated(qs).len(),
        forall|k: int| 0 <= k < accumulated(qs.take(i)).len() ==> accumulated(qs)[k]
            == accumulated(qs.take(i))[k],
    decreases qs.len() - i,
{
    if i == qs.len() {
        assert(qs.take(i) =~= qs);
    } else {
        lemma_accumulated_take_step(qs, i);
        lemma_accumulated_prefix(qs, i + 1);
        assert forall|k: int| 0 <= k < accumulated(qs.take(i)).len() implies accumulated(
            qs,
        )[k] == accumulated(qs.take(i))[k] by {
            assert(accumulated(qs.take(i + 1))[k] == accumulated(qs.take(i))[k]);
        }
    }
}

/// Enumeration preserves order: in the accumulated sequence the records of
/// display `i` form one contiguous block, beginning exactly where the blocks
/// of displays `0 .. i` end; so every physical monitor of display `i` stands
/// before every physical monitor of display `i + 1`.
pub proof fn lemma_enumeration_preserves_order(qs: Seq<PhysicalQuery>, i: int)
    requires
        0 <= i < qs.len(),
    ensures
        display_offset(qs, i) + query_records(qs[i]).len() == display_offset(qs, i + 1),
        display_offset(qs, i + 1) <= accumulated(qs).len(),
        forall|k: int| 0 <= k < query_records(qs[i]).len() ==> accumulated(qs)[display_offset(
            qs,
            i,
        ) + k] == query_records(qs[i])[k],
{
    lemma_accumulated_take_step(qs, i);
    lemma_accumulated_prefix(qs, i + 1);
    assert forall|k: int| 0 <= k < query_records(qs[i]).len() implies accumulated(
        qs,
    )[display_offset(qs, i) + k] == query_records(qs[i])[k] by {
        assert(accumulated(qs.take(i + 1))[display_offset(qs, i) + k] == query_records(qs[i])[k]);
    }
}

/// The walk's shared accumulation target: the records gathered so far and,
/// under the fail-fast policy, the first failure met, once one is.
pub struct EnumState {
    pub records: Vec<MonitorRecord>,
    pub failure: Option<PlatformError>,
}

impl EnumState {
    /// Every accumulated record carries a decoded, terminator-free
    /// description.
    pub open spec fn wf(self) -> bool {
        forall|i: int| 0 <= i < self.records@.len() ==> record_wf(#[trigger] self.records@[i]@)
    }

    /// A fresh accumulation target: no records, no failure.
    pub fn new() -> (state: EnumState)
        ensures
            state.records@.len() == 0,
            state.failure is None,
            state.wf(),
    {
        EnumState { records: Vec::new(), failure: None }
    }
}

/// One visitor step of the display walk: resolve the display from the
/// platform's responses and append its records to the accumulation target.
/// Under the fail-fast policy a resolution failure stores the error, leaves
/// the records untouched, and asks the walk to stop; the returned flag says
/// whether the walk should continue.
pub fn visit_display(state: &mut EnumState, q: &PhysicalQuery) -> (cont: bool)
    requires
        old(state).failure is None,
        old(state).wf(),
    ensures
        final(state).wf(),
        query_ok(*q) ==> {
            &&& cont
            &&& final(state).failure is None
            &&& models_of(final(state).records@) == models_of(old(state).records@)
                + query_records(*q)
        },
        !query_ok(*q) ==> {
            &&& !cont
            &&& final(state).records@ == old(state).records@
            &&& final(state).failure matches Some(e) && e.code == query_error_code(*q)
        },
{
    match resolve(q) {
        Ok(mut records) => {
            state.records.append(&mut records);
            proof {
                assert(models_of(state.records@) =~= models_of(old(state).records@)
                    + query_records(*q));
            }
            true
        }
        Err(e) => {
            state.failure = Some(e);
            false
        }
    }
}

/// Walk every logical display, given the platform's responses for each in
/// walk order, and accumulate every physical monitor record: display by
/// display, each display's monitors in delivery order. Fail-fast: the first
/// display whose resolution fails aborts the enumeration with that error and
/// no partial results.
pub fn enumerate_all(queries: &Vec<PhysicalQuery>) -> (r: Result<
    Vec<MonitorRecord>,
    PlatformError,
>)
    ensures
        all_ok(queries@) <==> r is Ok,
        r matches Ok(records) ==> models_of(records@) == accumulated(queries@),
        r matches Ok(records) ==> forall|i: int|
            0 <= i < records@.len() ==> record_wf(#[trigger] records@[i]@),
        r matches Err(e) ==> exists|i: int|
            0 <= i < queries@.len() && !query_ok(#[trigger] queries@[i]) && e.code
                == query_error_code(queries@[i]) && (forall|j: int|
                0 <= j < i ==> query_ok(#[trigger] queries@[j])),
{
    let n: usize = queries.len();
    let mut state = EnumState::new();
    let mut i: usize = 0;
    proof {
        assert(models_of(state.records@) =~= accumulated(queries@.take(0)));
    }
    while i < n
        invariant
            i <= n,
            n == queries@.len(),
            state.failure is None,
            state.wf(),
            forall|j: int| 0 <= j < i ==> query_ok(#[trigger] queries@[j]),
            models_of(state.records@) == accumulated(queries@.take(i as int)),
        decreases n - i,
    {
        let cont = visit_display(&mut state, &queries[i]);
        if !cont {
            match state.failure {
                Some(e) => {
                    return Err(e);
                }
                None => {
                    proof {
                        assert(false);
                    }
                    return Err(PlatformError { code: 0 });
                }
            }
        }
        proof {
            lemma_accumulated_take_step(queries@, i as int);
        }
        i += 1;
    }
    proof {
        assert(queries@.take(n as int) =~= queries@);
    }
    Ok(state.records)
}

} // verus!
