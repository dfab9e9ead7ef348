use vstd::prelude::*;
use crate::config::{ConfigError, ExperimentConfiguration, ExperimentDocument};

verus! {

/// Milliseconds in one second of start offset.
pub const MILLIS_PER_SEC: u64 = 1000;

/// The instant, in epoch milliseconds, at which an experiment with the given
/// start offset (whole seconds) may begin.
pub open spec fn spec_wake_time(epoch_ms: int, offset_secs: int) -> int {
    epoch_ms + offset_secs * 1000
}

/// How long a task observed at `now_ms` still has to wait for `wake_ms`.
pub open spec fn spec_delay(wake_ms: int, now_ms: int) -> int {
    if now_ms >= wake_ms {
        0
    } else {
        wake_ms - now_ms
    }
}

/// The error, if any, that planning reports for one document.
pub open spec fn spec_document_error(doc: ExperimentDocument, epoch_ms: int) -> Option<ConfigError> {
    if doc.lower_threshold >= doc.upper_threshold {
        Some(ConfigError::InvalidRange)
    } else if spec_wake_time(epoch_ms, doc.start_offset_secs as int) > u64::MAX {
        Some(ConfigError::OffsetOverflow)
    } else {
        None
    }
}

/// Computes `epoch_ms + offset_secs` seconds, or `None` when the instant
/// does not fit in the clock.
pub fn wake_time_ms(epoch_ms: u64, offset_secs: u64) -> (r: Option<u64>)
    ensures
        r is Some <==> spec_wake_time(epoch_ms as int, offset_secs as int) <= u64::MAX,
        r is Some ==> r->Some_0 as int == spec_wake_time(epoch_ms as int, offset_secs as int),
{
    match offset_secs.checked_mul(MILLIS_PER_SEC) {
        Some(off_ms) => epoch_ms.checked_add(off_ms),
        None => None,
    }
}

/// How many milliseconds a task that reads the clock at `now_ms` must
/// sleep before `wake_ms` has elapsed; zero once it has.
pub fn remaining_delay_ms(wake_ms: u64, now_ms: u64) -> (r: u64)
    ensures
        r as int == spec_delay(wake_ms as int, now_ms as int),
{
    if now_ms >= wake_ms {
        0
    } else {
        wake_ms - now_ms
    }
}

/// One experiment ready to be driven: its configuration, its start
/// temperature (thousandths of a degree) and the epoch instant before which
/// it must not start.
#[derive(Debug, Clone)]
pub struct ScheduledRun {
    pub start_temperature: i32,
    pub configuration: ExperimentConfiguration,
    pub wake_ms: u64,
}

/// The single-experiment path: no offset applies, so the run may start at
/// the instant the clock reads now.
pub fn immediate_run(configuration: ExperimentConfiguration, start_temperature: i32, now_ms: u64) -> (r: ScheduledRun)
    ensures
        r.configuration@ == configuration@,
        r.start_temperature == start_temperature,
        r.wake_ms == now_ms,
        spec_delay(r.wake_ms as int, now_ms as int) == 0,
{
    ScheduledRun { start_temperature, configuration, wake_ms: now_ms }
}

/// Plans one run per document, in order: each document receives the shared
/// secret key and starts at `epoch_ms` plus its own offset. Fails with the
/// error of the first document whose thresholds are invalid or whose start
/// instant does not fit in the clock.
pub fn plan_experiments(docs: &Vec<ExperimentDocument>, secret_key: &String, epoch_ms: u64) -> (r: Result<Vec<ScheduledRun>, ConfigError>)
    ensures
        r is Ok <==> forall|i: int| 0 <= i < docs@.len() ==> spec_document_error(#[trigger] docs@[i], epoch_ms as int) is None,
        r is Err ==> exists|i: int|
            0 <= i < docs@.len()
            && spec_document_error(#[trigger] docs@[i], epoch_ms as int) == Some(r->Err_0)
            && forall|j: int| 0 <= j < i ==> spec_document_error(#[trigger] docs@[j], epoch_ms as int) is None,
        r is Ok ==> r->Ok_0@.len() == docs@.len(),
        r is Ok ==> forall|i: int| 0 <= i < docs@.len() ==> {
            &&& (#[trigger] r->Ok_0@[i]).configuration@ == docs@[i].spec_configuration_with(secret_key@)
            &&& r->Ok_0@[i].start_temperature == docs@[i].start_temperature
            &&& r->Ok_0@[i].wake_ms as int == spec_wake_time(epoch_ms as int, docs@[i].start_offset_secs as int)
        },
{
    let mut runs: Vec<ScheduledRun> = Vec::new();
    let mut i: usize = 0;
    while i < docs.len()
        invariant
            i <= docs@.len(),
            runs@.len() == i,
            forall|j: int| 0 <= j < i ==> spec_document_error(#[trigger] docs@[j], epoch_ms as int) is None,
            forall|j: int| 0 <= j < i ==> {
                &&& (#[trigger] runs@[j]).configuration@ == docs@[j].spec_configuration_with(secret_key@)
                &&& runs@[j].start_temperature == docs@[j].start_temperature
                &&& runs@[j].wake_ms as int == spec_wake_time(epoch_ms as int, docs@[j].start_offset_secs as int)
            },
        decreases docs@.len() - i,
    {
        let doc = &docs[i];
        let configuration = match ExperimentConfiguration::from_document_with_key(doc, secret_key) {
            Ok(c) => c,
            Err(e) => {
                assert(spec_document_error(docs@[i as int], epoch_ms as int) == Some(e));
                return Err(e);
            },
        };
        let wake_ms = match wake_time_ms(epoch_ms, doc.start_offset_secs) {
            Some(w) => w,
            None => {
                assert(spec_document_error(docs@[i as int], epoch_ms as int) == Some(ConfigError::OffsetOverflow));
                return Err(ConfigError::OffsetOverflow);
            },
        };
        runs.push(ScheduledRun { start_temperature: doc.start_temperature, configuration, wake_ms });
        i = i + 1;
    }
    Ok(runs)
}

/// A task that reads the clock at any instant and then sleeps for the
/// remaining delay never starts before the shared epoch plus its offset.
pub proof fn lemma_start_not_before_offset(epoch_ms: int, offset_secs: int, now_ms: int)
    ensures
        now_ms + spec_delay(spec_wake_time(epoch_ms, offset_secs), now_ms) >= epoch_ms + offset_secs * 1000,
{
}

/// With a zero offset, a task that reads the clock at or after the epoch
/// starts without any enforced delay.
pub proof fn lemma_zero_offset_starts_at_once(epoch_ms: int, now_ms: int)
    requires
        now_ms >= epoch_ms,
    ensures
        spec_delay(spec_wake_time(epoch_ms, 0), now_ms) == 0,
{
}

/// Distinct offsets from one epoch keep their order and their spacing:
/// the later experiment's start instant lies exactly the offsets'
/// difference in seconds after the earlier one's.
pub proof fn lemma_offsets_keep_spacing(epoch_ms: int, earlier_secs: int, later_secs: int)
    requires
        earlier_secs < later_secs,
    ensures
        spec_wake_time(epoch_ms, later_secs) - spec_wake_time(epoch_ms, earlier_secs) == (later_secs - earlier_secs) * 1000,
        spec_wake_time(epoch_ms, earlier_secs) < spec_wake_time(epoch_ms, later_secs),
{
}

} // verus!
