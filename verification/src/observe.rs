//! The observability middleware's decisions: how a response is classified,
//! which metrics it moves and what the log says about it.

use vstd::prelude::*;
use vstd::string::*;
use crate::text::{decimal, decimal_string};

verus! {

/// How much the middleware records. One setting holds for a whole deployment.
#[derive(Clone, Copy, Debug, PartialEq, Eq, Structural)]
pub enum Detail {
    /// Errors are told from the rest; the latency histogram has no labels.
    Minimal,
    /// Redirects are counted on a counter of their own and logged at a level
    /// of their own, and the latency histogram is labelled like the counters.
    Rich,
}

/// The level of a log line.
#[derive(Clone, Copy, Debug, PartialEq, Eq, Structural)]
pub enum Level {
    Info,
    Warn,
    Error,
}

/// The metrics the middleware writes to.
#[derive(Clone, Copy, Debug, PartialEq, Eq, Structural)]
pub enum Metric {
    /// Counter of the responses that no other counter counts.
    Responses,
    /// Counter of the error responses: status 400 and above.
    ErrorResponses,
    /// Counter of the 3xx responses, where a deployment counts them apart.
    RedirectResponses,
    /// Histogram of the time from receiving a request to having its response.
    ProcessingTime,
}

/// The label set of a metric event.
#[derive(Clone, Debug, PartialEq, Eq)]
pub struct Labels {
    /// The response status in decimal, such as `200`.
    pub status: String,
    /// The request method, such as `GET`.
    pub method: String,
}

/// What a metric event adds to its metric.
#[derive(Clone, Copy, Debug, PartialEq, Eq, Structural)]
pub enum Sample {
    /// An increment of a counter.
    Count(u64),
    /// An observation of a histogram: a duration in nanoseconds.
    Nanos(u128),
}

/// One counter increment or one histogram observation.
#[derive(Clone, Debug, PartialEq, Eq)]
pub struct MetricEvent {
    pub metric: Metric,
    pub labels: Option<Labels>,
    pub sample: Sample,
}

/// The log line of one request.
#[derive(Clone, Debug, PartialEq, Eq)]
pub struct LogLine {
    pub level: Level,
    pub message: String,
    /// The URI of the inbound request, before any rewriting.
    pub uri: String,
    pub method: String,
    /// The status of the response that the client receives.
    pub status: u16,
    pub elapsed_nanos: u128,
    /// Why the proxy answered in the upstream's place, where it did.
    pub cause: Option<String>,
}

/// Everything recorded about one request: its metric events, in the order in
/// which they are emitted, and its one log line.
#[derive(Clone, Debug, PartialEq, Eq)]
pub struct Observation {
    pub events: Vec<MetricEvent>,
    pub log: LogLine,
}

/// `Labels` as the contracts see them.
pub struct LabelsView {
    pub status: Seq<char>,
    pub method: Seq<char>,
}

/// A `MetricEvent` as the contracts see it.
pub struct MetricEventView {
    pub metric: Metric,
    pub labels: Option<LabelsView>,
    pub sample: Sample,
}

/// A `LogLine` as the contracts see it.
pub struct LogLineView {
    pub level: Level,
    pub message: Seq<char>,
    pub uri: Seq<char>,
    pub method: Seq<char>,
    pub status: u16,
    pub elapsed_nanos: u128,
    pub cause: Option<Seq<char>>,
}

/// An `Observation` as the contracts see it.
pub struct ObservationView {
    pub events: Seq<MetricEventView>,
    pub log: LogLineView,
}

impl View for Labels {
    type V = LabelsView;

    open spec fn view(&self) -> LabelsView {
        LabelsView { status: self.status@, method: self.method@ }
    }
}

impl View for MetricEvent {
    type V = MetricEventView;

    open spec fn view(&self) -> MetricEventView {
        MetricEventView {
            metric: self.metric,
            labels: match self.labels {
                Some(labels) => Some(labels@),
                None => None,
            },
            sample: self.sample,
        }
    }
}

impl View for LogLine {
    type V = LogLineView;

    open spec fn view(&self) -> LogLineView {
        LogLineView {
            level: self.level,
            message: self.message@,
            uri: self.uri@,
            method: self.method@,
            status: self.status,
            elapsed_nanos: self.elapsed_nanos,
            cause: match self.cause {
                Some(cause) => Some(cause@),
                None => None,
            },
        }
    }
}

impl View for Observation {
    type V = ObservationView;

    open spec fn view(&self) -> ObservationView {
        ObservationView {
            events: self.events@.map_values(|event: MetricEvent| event@),
            log: self.log@,
        }
    }
}

/// A 4xx or 5xx status, or anything above: the response is an error.
pub open spec fn is_error(status: u16) -> bool {
    status >= 400
}

/// A 3xx status: the response is a redirect.
pub open spec fn is_redirect(status: u16) -> bool {
    300 <= status < 400
}

/// The level at which a response with this status is logged.
pub open spec fn level_for(detail: Detail, status: u16) -> Level {
    if is_error(status) {
        Level::Error
    } else if detail is Rich && is_redirect(status) {
        Level::Warn
    } else {
        Level::Info
    }
}

/// The text of a log line at the given level.
pub open spec fn message_for(level: Level) -> Seq<char> {
    match level {
        Level::Info => "Serving response"@,
        Level::Warn => "Serving redirect"@,
        Level::Error => "Serving error"@,
    }
}

/// The name under which a metric is exposed.
pub open spec fn metric_name(metric: Metric) -> Seq<char> {
    match metric {
        Metric::Responses => "responses_total"@,
        Metric::ErrorResponses => "error_responses_total"@,
        Metric::RedirectResponses => "redirect_responses_total"@,
        Metric::ProcessingTime => "response_processing_time_seconds"@,
    }
}

/// The labels of the events of one response.
pub open spec fn labels_for(status: u16, method: Seq<char>) -> LabelsView {
    LabelsView { status: decimal(status as nat), method }
}

/// One increment of `metric` under `labels`.
pub open spec fn increment(metric: Metric, labels: LabelsView) -> MetricEventView {
    MetricEventView { metric, labels: Some(labels), sample: Sample::Count(1) }
}

/// The one counter that a response with this status moves: the error counter
/// from 400 on, the redirect counter for a redirect where redirects are
/// counted apart, the response counter for the rest.
pub open spec fn counter_for(detail: Detail, status: u16) -> Metric {
    if is_error(status) {
        Metric::ErrorResponses
    } else if detail is Rich && is_redirect(status) {
        Metric::RedirectResponses
    } else {
        Metric::Responses
    }
}

/// The latency observation of one response. It carries the labels only under
/// `Detail::Rich`.
pub open spec fn timing(detail: Detail, labels: LabelsView, elapsed_nanos: u128) -> MetricEventView {
    MetricEventView {
        metric: Metric::ProcessingTime,
        labels: if detail is Rich {
            Some(labels)
        } else {
            None
        },
        sample: Sample::Nanos(elapsed_nanos),
    }
}

/// The metric events of one response, in the order of emission: one increment
/// of the response's counter, then its latency.
pub open spec fn events_for(
    detail: Detail,
    status: u16,
    method: Seq<char>,
    elapsed_nanos: u128,
) -> Seq<MetricEventView> {
    let labels = labels_for(status, method);
    seq![
        increment(counter_for(detail, status), labels),
        timing(detail, labels, elapsed_nanos),
    ]
}

/// The log line of one response.
pub open spec fn log_for(
    detail: Detail,
    status: u16,
    method: Seq<char>,
    uri: Seq<char>,
    elapsed_nanos: u128,
    cause: Option<Seq<char>>,
) -> LogLineView {
    LogLineView {
        level: level_for(detail, status),
        message: message_for(level_for(detail, status)),
        uri,
        method,
        status,
        elapsed_nanos,
        cause,
    }
}

/// Everything recorded about one response.
pub open spec fn observation(
    detail: Detail,
    status: u16,
    method: Seq<char>,
    uri: Seq<char>,
    elapsed_nanos: u128,
    cause: Option<Seq<char>>,
) -> ObservationView {
    ObservationView {
        events: events_for(detail, status, method, elapsed_nanos),
        log: log_for(detail, status, method, uri, elapsed_nanos, cause),
    }
}

impl Labels {
    /// The labels as pairs of key and value, in the order in which they are
    /// attached to a metric: `status`, then `method`.
    pub fn pairs(&self) -> (pairs: Vec<(&'static str, String)>)
        ensures
            pairs@.len() == 2,
            pairs@[0].0@ == "status"@,
            pairs@[0].1@ == self.status@,
            pairs@[1].0@ == "method"@,
            pairs@[1].1@ == self.method@,
    {
        let mut pairs: Vec<(&'static str, String)> = Vec::new();
        pairs.push(("status", self.status.clone()));
        pairs.push(("method", self.method.clone()));
        pairs
    }
}

impl Metric {
    /// The name under which the metric is exposed.
    pub fn name(&self) -> (name: &'static str)
        ensures
            name@ == metric_name(*self),
    {
        match self {
            Metric::Responses => "responses_total",
            Metric::ErrorResponses => "error_responses_total",
            Metric::RedirectResponses => "redirect_responses_total",
            Metric::ProcessingTime => "response_processing_time_seconds",
        }
    }
}

impl Level {
    /// The text of a log line at this level.
    pub fn message(&self) -> (text: &'static str)
        ensures
            text@ == message_for(*self),
    {
        match self {
            Level::Info => "Serving response",
            Level::Warn => "Serving redirect",
            Level::Error => "Serving error",
        }
    }
}

/// Classifies a response by its status: `Error` from 400 on, `Warn` for a
/// redirect where redirects are told apart, `Info` for the rest.
pub fn classify(detail: Detail, status: u16) -> (level: Level)
    ensures
        level == level_for(detail, status),
        level is Error <==> status >= 400,
{
    if status >= 400 {
        Level::Error
    } else if status >= 300 && detail == Detail::Rich {
        Level::Warn
    } else {
        Level::Info
    }
}

/// The labels of the events of one response.
fn make_labels(status: u16, method: &str) -> (labels: Labels)
    ensures
        labels@ == labels_for(status, method@),
{
    Labels { status: decimal_string(status), method: method.to_owned() }
}

/// Records one response.
///
/// `status` is the status that the client receives, `method` and `uri` are
/// those of the inbound request, `elapsed_nanos` is the time between the
/// request's arrival and its response, and `cause` is the reason the proxy
/// gave for answering in the upstream's place, if it did. The result holds
/// one increment of one counter, the one that the status calls for, one
/// latency observation and one log line.
pub fn observe(
    detail: Detail,
    status: u16,
    method: &str,
    uri: &str,
    elapsed_nanos: u128,
    cause: Option<String>,
) -> (observed: Observation)
    ensures
        observed@ == observation(
            detail,
            status,
            method@,
            uri@,
            elapsed_nanos,
            match cause {
                Some(cause) => Some(cause@),
                None => None,
            },
        ),
{
    let level = classify(detail, status);
    let rich = detail == Detail::Rich;
    let counter = match level {
        Level::Error => Metric::ErrorResponses,
        Level::Warn => Metric::RedirectResponses,
        Level::Info => Metric::Responses,
    };
    let mut events: Vec<MetricEvent> = Vec::new();
    events.push(
        MetricEvent {
            metric: counter,
            labels: Some(make_labels(status, method)),
            sample: Sample::Count(1),
        },
    );
    events.push(
        MetricEvent {
            metric: Metric::ProcessingTime,
            labels: if rich {
                Some(make_labels(status, method))
            } else {
                None
            },
            sample: Sample::Nanos(elapsed_nanos),
        },
    );
    let log = LogLine {
        level,
        message: level.message().to_owned(),
        uri: uri.to_owned(),
        method: method.to_owned(),
        status,
        elapsed_nanos,
        cause,
    };
    let observed = Observation { events, log };
    assert(observed@.events =~= events_for(detail, status, method@, elapsed_nanos));
    observed
}

} // verus!
