//! What the gateway tells its metrics sink: for every call that it handled,
//! which endpoint, how it ended, and how long it took.
//!
//! The sink is a pair of Prometheus collections. A sample that the sink does
//! not take is dropped; telemetry never changes what a caller sees.

use crate::errors::{ErrorKind, McpError};
use std::time::Duration;
use vstd::prelude::*;

verus! {

/// `prometheus::Error`, the failure of the metrics sink. It is only put into
/// words.
#[verifier::external_type_specification]
#[verifier::external_body]
pub struct ExPrometheusError(prometheus::Error);

/// How a handled call ended.
#[derive(Clone, Copy, Debug, PartialEq, Eq, Structural)]
pub enum Outcome {
    Success,
    Error,
}

/// The word under which an outcome is counted.
pub open spec fn outcome_label(outcome: Outcome) -> Seq<char> {
    match outcome {
        Outcome::Success => "success"@,
        Outcome::Error => "error"@,
    }
}

impl Outcome {
    /// The word under which this outcome is counted.
    pub fn label(&self) -> (r: &'static str)
        ensures
            r@ == outcome_label(*self),
    {
        match self {
            Outcome::Success => "success",
            Outcome::Error => "error",
        }
    }
}

/// The record of one handled call. It is made, handed to the sink, and gone.
#[derive(Debug, PartialEq, Eq)]
pub struct EndpointObservation {
    pub endpoint: String,
    pub outcome: Outcome,
    pub duration: Duration,
}

/// The counters of handled calls, one for each pair of labels: a
/// `prometheus::IntCounterVec`.
#[verifier::external_body]
pub struct RequestCounter {
    inner: prometheus::IntCounterVec,
}

/// The histograms of call durations, one for each label: a
/// `prometheus::HistogramVec`.
#[verifier::external_body]
pub struct DurationHistogram {
    inner: prometheus::HistogramVec,
}

/// The number that `counter` holds for the labels `endpoint` and `status`; zero
/// where it has never counted under them.
pub uninterp spec fn request_count(counter: RequestCounter, endpoint: Seq<char>, status: Seq<char>) -> u64;

/// The number of samples that `histogram` holds for the label `endpoint`; zero
/// where it has never taken one under it.
pub uninterp spec fn sample_count(histogram: DurationHistogram, endpoint: Seq<char>) -> u64;

/// The number of label names that `counter` was made with.
pub uninterp spec fn counter_labels(counter: RequestCounter) -> nat;

/// Whether `histogram` was made so that it opens a histogram for one label:
/// with one label name, which is not `le`, and with bounds that rise.
pub uninterp spec fn opens_for_one_label(histogram: DurationHistogram) -> bool;

/// The largest bound of a bucket, in milliseconds, that the gateway hands to
/// the sink. Up to here two bounds that differ in milliseconds still differ
/// once they are written in seconds.
pub const LARGEST_BOUND_MS: u64 = 1_000_000_000;

/// Whether each of `bounds` is larger than the one before.
pub open spec fn rising(bounds: Seq<u64>) -> bool {
    forall|i: int| 0 <= i < bounds.len() - 1 ==> bounds[i] < #[trigger] bounds[i + 1]
}

/// Whether none of `labels` is `le`, the name that a histogram keeps for its
/// bucket bounds.
pub open spec fn free_of_le(labels: Seq<&str>) -> bool {
    forall|i: int| 0 <= i < labels.len() ==> (#[trigger] labels[i])@ != "le"@
}

/// The number after `n` in a counter of 64 bits, which starts over after the
/// largest.
pub open spec fn next_count(n: u64) -> u64 {
    if n == u64::MAX {
        0
    } else {
        (n + 1) as u64
    }
}

/// The number after `n` in the sample count of a histogram, which has 63 bits
/// and starts over after the largest.
pub open spec fn next_sample_count(n: u64) -> u64 {
    if n >= 0x7fff_ffff_ffff_ffff {
        0
    } else {
        (n + 1) as u64
    }
}

impl RequestCounter {
    /// Makes a family of counters.
    ///
    /// Calls `prometheus::Opts::new` and `prometheus::IntCounterVec::new`, which
    /// refuse a name, help text or label name that Prometheus does not allow. A
    /// new family keeps the label names it was given and has counted nothing.
    #[verifier::external_body]
    fn create(name: &str, help: &str, labels: &Vec<&str>) -> (r: Result<RequestCounter, prometheus::Error>)
        ensures
            r matches Ok(counter) ==> counter_labels(counter) == labels@.len(),
            r matches Ok(counter) ==> forall|endpoint: Seq<char>, status: Seq<char>|
                #[trigger] request_count(counter, endpoint, status) == 0,
    {
        match prometheus::IntCounterVec::new(prometheus::Opts::new(name, help), labels) {
            Ok(inner) => Ok(RequestCounter { inner }),
            Err(e) => Err(e),
        }
    }

    /// Counts one call under the labels `endpoint` and `status`.
    ///
    /// Calls `get_metric_with_label_values` on the family and `inc` on the
    /// counter it gives. A counter is given exactly where the family was made
    /// with two label names; otherwise nothing is counted. The result says
    /// which. Labels that Prometheus does not tell apart share a counter, so
    /// nothing is said here of any other pair of labels.
    #[verifier::external_body]
    fn increment(&mut self, endpoint: &str, status: &str) -> (counted: bool)
        ensures
            counted <==> counter_labels(*old(self)) == 2,
            counter_labels(*final(self)) == counter_labels(*old(self)),
            request_count(*final(self), endpoint@, status@) == if counted {
                next_count(request_count(*old(self), endpoint@, status@))
            } else {
                request_count(*old(self), endpoint@, status@)
            },
        no_unwind
    {
        match self.inner.get_metric_with_label_values(&[endpoint, status]) {
            Ok(counter) => {
                counter.inc();
                true
            },
            Err(_) => false,
        }
    }
}

impl DurationHistogram {
    /// Makes a family of histograms whose buckets end at the given bounds, in
    /// milliseconds.
    ///
    /// Calls `prometheus::HistogramOpts::new`, its `buckets`, and
    /// `prometheus::HistogramVec::new`, which refuse a name, help text or label
    /// name that Prometheus does not allow. Each bound is handed over in
    /// seconds, as `Duration::from_millis` and `Duration::as_secs_f64` give
    /// it. A new family holds no sample. The number of label names, the name
    /// `le` and the bounds are looked at only later, when the family is asked
    /// to open a histogram for one label: that works out exactly where there
    /// is one label name, it is not `le`, and the bounds rise.
    #[verifier::external_body]
    fn create(name: &str, help: &str, labels: &Vec<&str>, bounds_ms: &Vec<u64>) -> (r: Result<
        DurationHistogram,
        prometheus::Error,
    >)
        requires
            forall|i: int| 0 <= i < bounds_ms@.len() ==> bounds_ms@[i] <= LARGEST_BOUND_MS,
        ensures
            r matches Ok(histogram) ==> (opens_for_one_label(histogram) <==> labels@.len() == 1 && free_of_le(
                labels@,
            ) && rising(bounds_ms@)),
            r matches Ok(histogram) ==> forall|endpoint: Seq<char>| #[trigger]
                sample_count(histogram, endpoint) == 0,
    {
        let bounds = bounds_ms.iter().map(|ms| Duration::from_millis(*ms).as_secs_f64()).collect();
        match prometheus::HistogramVec::new(prometheus::HistogramOpts::new(name, help).buckets(bounds), labels) {
            Ok(inner) => Ok(DurationHistogram { inner }),
            Err(e) => Err(e),
        }
    }

    /// Enters `duration`, in seconds, under the label `endpoint`.
    ///
    /// Calls `get_metric_with_label_values` on the family and `observe` on the
    /// histogram it gives, with the duration as `Duration::as_secs_f64` gives
    /// it. A histogram is given exactly where the family was made for it;
    /// otherwise nothing is entered. The result says which. The count of
    /// samples has 63 bits.
    #[verifier::external_body]
    fn observe(&mut self, endpoint: &str, duration: Duration) -> (timed: bool)
        ensures
            timed <==> opens_for_one_label(*old(self)),
            opens_for_one_label(*final(self)) == opens_for_one_label(*old(self)),
            sample_count(*final(self), endpoint@) == if timed {
                next_sample_count(sample_count(*old(self), endpoint@))
            } else {
                sample_count(*old(self), endpoint@)
            },
        no_unwind
    {
        match self.inner.get_metric_with_label_values(&[endpoint]) {
            Ok(histogram) => {
                histogram.observe(duration.as_secs_f64());
                true
            },
            Err(_) => false,
        }
    }
}

/// Enters both families into the process-wide registry, from which
/// [`gather_metrics`] reads.
///
/// Calls `prometheus::register` once for each, with a second handle to the
/// same collection. The registry refuses a family whose name it already has,
/// so nothing is promised of the result.
#[verifier::external_body]
fn register(counter: &RequestCounter, histogram: &DurationHistogram) -> (r: Result<(), prometheus::Error>) {
    match prometheus::register(Box::new(counter.inner.clone())) {
        Ok(()) => prometheus::register(Box::new(histogram.inner.clone())),
        Err(e) => Err(e),
    }
}

/// The text of a failure of the metrics sink.
///
/// Calls the `Display` of `prometheus::Error`.
#[verifier::external_body]
pub(crate) fn sink_error_text(error: &prometheus::Error) -> (r: String) {
    error.to_string()
}

/// Renders everything in the process-wide registry in the Prometheus text
/// format.
///
/// Calls `prometheus::gather` and `prometheus::TextEncoder::encode`. What comes
/// out depends on all that the process has registered and counted so far, so
/// nothing is promised of it.
#[verifier::external_body]
pub fn gather_metrics() -> (r: Result<Vec<u8>, prometheus::Error>) {
    let mut buffer = Vec::new();
    match prometheus::Encoder::encode(&prometheus::TextEncoder::new(), &prometheus::gather(), &mut buffer) {
        Ok(()) => Ok(buffer),
        Err(e) => Err(e),
    }
}

/// The metrics sink of the gateway.
///
/// A sink is made so that it takes every observation: its counters have the
/// two labels `endpoint` and `status`, its histograms the one label
/// `endpoint` and bucket bounds that rise.
pub struct MetricsRecorder {
    requests_total: RequestCounter,
    request_duration: DurationHistogram,
}

impl MetricsRecorder {
    #[verifier::type_invariant]
    spec fn takes_every_observation(self) -> bool {
        &&& counter_labels(self.requests_total) == 2
        &&& opens_for_one_label(self.request_duration)
    }

    /// The number of calls counted for `endpoint` with the outcome word
    /// `status`.
    pub closed spec fn requests(self, endpoint: Seq<char>, status: Seq<char>) -> u64 {
        request_count(self.requests_total, endpoint, status)
    }

    /// The number of durations entered for `endpoint`.
    pub closed spec fn samples(self, endpoint: Seq<char>) -> u64 {
        sample_count(self.request_duration, endpoint)
    }

    /// Makes the sink and enters it into the process-wide registry.
    ///
    /// Whether this succeeds depends on what the registry holds: it refuses
    /// metrics whose names it already has, as it does once a sink has been
    /// made in this process. A new sink has counted nothing.
    pub fn new() -> (r: Result<MetricsRecorder, McpError>)
        ensures
            r matches Ok(recorder) ==> {
                &&& forall|endpoint: Seq<char>, status: Seq<char>| #[trigger]
                    recorder.requests(endpoint, status) == 0
                &&& forall|endpoint: Seq<char>| #[trigger] recorder.samples(endpoint) == 0
            },
            r matches Err(e) ==> e@.kind == ErrorKind::InternalError,
    {
        let mut pair: Vec<&str> = Vec::new();
        pair.push("endpoint");
        pair.push("status");
        let requests_total = match RequestCounter::create("mcp_requests_total", "Total MCP requests handled", &pair) {
            Ok(counter) => counter,
            Err(e) => {
                return Err(McpError::InternalError(sink_error_text(&e)));
            },
        };
        let mut single: Vec<&str> = Vec::new();
        single.push("endpoint");
        let mut bounds: Vec<u64> = Vec::new();
        bounds.push(10);
        bounds.push(50);
        bounds.push(100);
        bounds.push(250);
        bounds.push(500);
        bounds.push(1000);
        bounds.push(2500);
        bounds.push(5000);
        proof {
            reveal_strlit("endpoint");
            reveal_strlit("le");
            assert(single@[0]@.len() != "le"@.len());
            assert(free_of_le(single@));
            assert(rising(bounds@));
        }
        let request_duration = match DurationHistogram::create(
            "mcp_request_duration_seconds",
            "Request duration for MCP endpoints",
            &single,
            &bounds,
        ) {
            Ok(histogram) => histogram,
            Err(e) => {
                return Err(McpError::InternalError(sink_error_text(&e)));
            },
        };
        match register(&requests_total, &request_duration) {
            Ok(()) => {},
            Err(e) => {
                return Err(McpError::InternalError(sink_error_text(&e)));
            },
        }
        Ok(MetricsRecorder { requests_total, request_duration })
    }

    /// Hands one observation to the sink.
    pub fn observe(&mut self, observation: &EndpointObservation)
        ensures
            recorded(*old(self), *final(self), observation.endpoint@, outcome_label(observation.outcome)),
    {
        observe_request(self, observation.endpoint.as_str(), observation.outcome.label(), observation.duration)
    }
}

/// What one observation for `endpoint` under the outcome word `status` does to
/// the sink: the count for the pair goes up by one, and so does the number of
/// samples for the endpoint.
pub open spec fn recorded(before: MetricsRecorder, after: MetricsRecorder, endpoint: Seq<char>, status: Seq<char>) -> bool {
    &&& after.requests(endpoint, status) == next_count(before.requests(endpoint, status))
    &&& after.samples(endpoint) == next_sample_count(before.samples(endpoint))
}

/// Counts one handled call for `endpoint` under the outcome word `status` and
/// enters its duration. This cannot fail.
pub fn observe_request(recorder: &mut MetricsRecorder, endpoint: &str, status: &str, duration: Duration)
    ensures
        recorded(*old(recorder), *final(recorder), endpoint@, status@),
{
    proof {
        use_type_invariant(&*recorder);
    }
    let counted = recorder.requests_total.increment(endpoint, status);
    let timed = recorder.request_duration.observe(endpoint, duration);
    assert(counted && timed);
}

} // verus!
