//! Resolution of one logical display to its physical monitor records.
//!
//! The platform answers two queries per logical display: the count of
//! physical monitors behind it and, for a nonzero count, a fill of one raw
//! hardware record per monitor. The raw records reach the library as aligned
//! copies of their plain fields; resolution keeps each monitor's handle and
//! decodes its fixed-width description buffer.

use vstd::prelude::*;
use crate::PlatformError;
use crate::descriptor::decode_description;
use crate::descriptor::decoded_of;
use crate::descriptor::lemma_decoded_has_no_terminator;

verus! {

/// Mathematical model of one physical monitor record: the opaque
/// command-channel handle and the description as a sequence of UTF-16 units.
#[verifier::ext_equal]
pub struct MonitorModel {
    pub handle: u64,
    pub description: Seq<u16>,
}

/// An aligned copy of one raw hardware record: the monitor's handle and the
/// fixed-width description buffer exactly as the platform delivered it.
#[derive(Clone, Debug)]
pub struct RawMonitor {
    pub handle: u64,
    pub description_buffer: Vec<u16>,
}

impl View for RawMonitor {
    type V = MonitorModel;

    open spec fn view(&self) -> MonitorModel {
        MonitorModel { handle: self.handle, description: self.description_buffer@ }
    }
}

/// One resolved physical monitor: the handle and the decoded description,
/// truncated at the first terminator of the raw buffer.
#[derive(Clone, Debug)]
pub struct MonitorRecord {
    pub handle: u64,
    pub description: Vec<u16>,
}

impl View for MonitorRecord {
    type V = MonitorModel;

    open spec fn view(&self) -> MonitorModel {
        MonitorModel { handle: self.handle, description: self.description@ }
    }
}

/// A record is well formed when its description carries no terminator
/// element: it is decoded text, never the raw fixed-width buffer.
pub open spec fn record_wf(m: MonitorModel) -> bool {
    forall|i: int| 0 <= i < m.description.len() ==> m.description[i] != 0
}

/// What one raw record resolves to: the handle kept, the description decoded.
pub open spec fn resolved_record(raw: MonitorModel) -> MonitorModel {
    MonitorModel { handle: raw.handle, description: decoded_of(raw.description) }
}

/// The models of a sequence of raw records.
pub open spec fn raw_models(raws: Seq<RawMonitor>) -> Seq<MonitorModel> {
    raws.map_values(|r: RawMonitor| r.view())
}

/// The models of a sequence of resolved records.
pub open spec fn models_of(records: Seq<MonitorRecord>) -> Seq<MonitorModel> {
    records.map_values(|r: MonitorRecord| r.view())
}

/// What a whole fill of raw records resolves to, in delivery order.
pub open spec fn resolved_records(raws: Seq<MonitorModel>) -> Seq<MonitorModel> {
    raws.map_values(|m: MonitorModel| resolved_record(m))
}

/// The platform's responses to one resolution pass over a single logical
/// display: the outcome of the count query and, where one was needed, of the
/// fill query.
#[derive(Clone, Debug)]
pub enum PhysicalQuery {
    /// The count query itself failed, with the platform's diagnostic code.
    CountFailed(u32),
    /// The count query reported zero physical monitors; no fill query is made.
    NoMonitors,
    /// The count query reported a nonzero count, but the fill query failed,
    /// with the platform's diagnostic code.
    FillFailed(u32),
    /// The count query reported a nonzero count and the fill query delivered
    /// these raw records.
    Filled(Vec<RawMonitor>),
}

/// Whether the platform's responses let the display resolve at all.
pub open spec fn query_ok(q: PhysicalQuery) -> bool {
    match q {
        PhysicalQuery::CountFailed(_) => false,
        PhysicalQuery::NoMonitors => true,
        PhysicalQuery::FillFailed(_) => false,
        PhysicalQuery::Filled(_) => true,
    }
}

/// The diagnostic code of a failed query.
pub open spec fn query_error_code(q: PhysicalQuery) -> u32 {
    match q {
        PhysicalQuery::CountFailed(code) => code,
        PhysicalQuery::FillFailed(code) => code,
        _ => 0,
    }
}

/// The records that a display with these responses resolves to.
pub open spec fn query_records(q: PhysicalQuery) -> Seq<MonitorModel> {
    match q {
        PhysicalQuery::Filled(raws) => resolved_records(raw_models(raws@)),
        _ => Seq::empty(),
    }
}

/// The resolver's next step after the physical-monitor count query.
#[derive(Clone, Copy, Debug, PartialEq, Eq, Structural)]
pub enum FetchAction {
    /// The count query failed: resolution aborts with this error.
    Abort(PlatformError),
    /// Zero physical monitors: resolution succeeds with an empty list.
    Empty,
    /// Ask the platform to fill exactly this many raw records.
    Fetch(u32),
}

/// Decide the resolver's next step from the count query's outcome: a failure
/// aborts, a zero count succeeds with an empty list (it is not an error), and
/// a nonzero count asks for a fill of exactly that many raw records.
pub fn plan_fetch(count_result: Result<u32, PlatformError>) -> (action: FetchAction)
    ensures
        count_result matches Err(e) ==> action == FetchAction::Abort(e),
        count_result matches Ok(n) ==> action == (if n == 0 {
            FetchAction::Empty
        } else {
            FetchAction::Fetch(n)
        }),
{
    match count_result {
        Err(e) => FetchAction::Abort(e),
        Ok(0) => FetchAction::Empty,
        Ok(n) => FetchAction::Fetch(n),
    }
}

/// Resolve one raw hardware record: keep the handle, decode the description.
pub fn decode_record(raw: &RawMonitor) -> (r: MonitorRecord)
    ensures
        r@ == resolved_record(raw@),
        record_wf(r@),
{
    let description = decode_description(raw.description_buffer.as_slice());
    proof {
        lemma_decoded_has_no_terminator(raw.description_buffer@);
    }
    MonitorRecord { handle: raw.handle, description }
}

/// Resolve every raw record of a successful fill query, in delivery order.
pub fn finish_resolve(raws: &Vec<RawMonitor>) -> (records: Vec<MonitorRecord>)
    ensures
        models_of(records@) == resolved_records(raw_models(raws@)),
        records@.len() == raws@.len(),
        forall|i: int| 0 <= i < records@.len() ==> record_wf(records@[i]@),
{
    let n: usize = raws.len();
    let mut records: Vec<MonitorRecord> = Vec::new();
    let mut i: usize = 0;
    while i < n
        invariant
            i <= n,
            n == raws@.len(),
            records@.len() == i,
            forall|j: int| 0 <= j < i ==> #[trigger] records@[j]@ == resolved_record(raws@[j]@),
            forall|j: int| 0 <= j < i ==> record_wf(#[trigger] records@[j]@),
        decreases n - i,
    {
        let record = decode_record(&raws[i]);
        records.push(record);
        i += 1;
    }
    proof {
        assert(models_of(records@) =~= resolved_records(raw_models(raws@)));
    }
    records
}

/// Resolve one logical display from the platform's responses: a failed count
/// or fill query aborts with the platform's code and no partial records; a
/// zero count yields an empty list, not an error; otherwise every raw record
/// is decoded, in delivery order.
pub fn resolve(q: &PhysicalQuery) -> (r: Result<Vec<MonitorRecord>, PlatformError>)
    ensures
        query_ok(*q) <==> r is Ok,
        r matches Ok(records) ==> models_of(records@) == query_records(*q),
        r matches Err(e) ==> e.code == query_error_code(*q),
        *q is NoMonitors ==> (r matches Ok(records) && records@.len() == 0),
        r matches Ok(records) ==> forall|i: int|
            0 <= i < records@.len() ==> record_wf(records@[i]@),
{
    match q {
        PhysicalQuery::CountFailed(code) => Err(PlatformError { code: *code }),
        PhysicalQuery::NoMonitors => {
            let records: Vec<MonitorRecord> = Vec::new();
            proof {
                assert(models_of(records@) =~= query_records(*q));
            }
            Ok(records)
        }
        PhysicalQuery::FillFailed(code) => Err(PlatformError { code: *code }),
        PhysicalQuery::Filled(raws) => Ok(finish_resolve(raws)),
    }
}

} // verus!
