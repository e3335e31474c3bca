//! What holds of every request, stated over the handler's and the
//! middleware's decisions together.

use vstd::prelude::*;
use crate::forward::{
    authority_for, cause_of, response_of, visible_status, Body, Outcome, OutboundResponseView,
};
use crate::observe::{
    counter_for, observation, Detail, Level, Metric, MetricEventView, ObservationView, Sample,
};
use crate::state::AuthorityPolicy;
use crate::text::{decimal, lemma_first_index_unique};

verus! {

/// One request as the proxy served it: how forwarding ended, and what the
/// middleware saw of the request.
pub struct Served {
    pub outcome: Outcome,
    pub method: Seq<char>,
    pub uri: Seq<char>,
    pub elapsed_nanos: u128,
}

/// What is recorded about a served request. The middleware sees the response
/// that the client receives, so a failed upstream call is recorded as the 500
/// that stands in for it.
pub open spec fn record_of(detail: Detail, served: Served) -> ObservationView {
    observation(
        detail,
        visible_status(served.outcome),
        served.method,
        served.uri,
        served.elapsed_nanos,
        cause_of(served.outcome),
    )
}

/// The metric events of a run of requests, oldest first.
pub open spec fn events_of(detail: Detail, trace: Seq<Served>) -> Seq<MetricEventView>
    decreases trace.len(),
{
    if trace.len() == 0 {
        Seq::empty()
    } else {
        events_of(detail, trace.drop_last()) + record_of(detail, trace.last()).events
    }
}

/// By how much an event moves a counter; a histogram observation moves none.
pub open spec fn increments(event: MetricEventView) -> nat {
    match event.sample {
        Sample::Count(by) => by as nat,
        Sample::Nanos(_) => 0,
    }
}

/// The sum of the counter increments among `events` that `picked` selects.
pub open spec fn total(events: Seq<MetricEventView>, picked: spec_fn(MetricEventView) -> bool) -> nat
    decreases events.len(),
{
    if events.len() == 0 {
        0
    } else {
        total(events.drop_last(), picked) + if picked(events.last()) {
            increments(events.last())
        } else {
            0
        }
    }
}

/// Selects every event.
pub open spec fn any_counter() -> spec_fn(MetricEventView) -> bool {
    |event: MetricEventView| true
}

/// Selects the events of one metric.
pub open spec fn counter(metric: Metric) -> spec_fn(MetricEventView) -> bool {
    |event: MetricEventView| event.metric == metric
}

/// Selects the events that carry the method label `method`.
pub open spec fn with_method(method: Seq<char>) -> spec_fn(MetricEventView) -> bool {
    |event: MetricEventView| event.labels matches Some(labels) && labels.method == method
}

/// Selects the events that carry the status label `status`.
pub open spec fn with_status(status: Seq<char>) -> spec_fn(MetricEventView) -> bool {
    |event: MetricEventView| event.labels matches Some(labels) && labels.status == status
}

/// The total over two runs of events is the sum of their totals.
pub proof fn lemma_total_concat(
    first: Seq<MetricEventView>,
    second: Seq<MetricEventView>,
    picked: spec_fn(MetricEventView) -> bool,
)
    ensures
        total(first + second, picked) == total(first, picked) + total(second, picked),
    decreases second.len(),
{
    if second.len() == 0 {
        assert(first + second =~= first);
    } else {
        lemma_total_concat(first, second.drop_last(), picked);
        assert((first + second).drop_last() =~= first + second.drop_last());
        assert((first + second).last() == second.last());
    }
}

/// The total over the two events of one response: the latency moves no
/// counter, so the total is what the one increment adds where it is picked.
proof fn lemma_total_of_record(
    detail: Detail,
    served: Served,
    picked: spec_fn(MetricEventView) -> bool,
)
    ensures
        ({
            let events = record_of(detail, served).events;
            &&& events.len() == 2
            &&& increments(events[0]) == 1
            &&& increments(events[1]) == 0
            &&& total(events, picked) == if picked(events[0]) {
                1nat
            } else {
                0nat
            }
        }),
{
    let events = record_of(detail, served).events;
    let first = events.drop_last();
    assert(events.last() == events[1]);
    assert(first.last() == events[0]);
    assert(first.drop_last().len() == 0);
    assert(total(first.drop_last(), picked) == 0);
    assert(total(first, picked) == total(first.drop_last(), picked) + if picked(events[0]) {
        1nat
    } else {
        0nat
    });
    assert(total(events, picked) == total(first, picked));
}

/// A `Host` header that names a host and no port is kept whole under either
/// policy: port substitution appends `:` and the upstream's port to it, and
/// passthrough returns it as it is.
pub proof fn law_bare_host_name_is_kept(host: Seq<char>, port: u16)
    requires
        !host.contains(':'),
        host.len() > 0 ==> host[0] != '[',
    ensures
        authority_for(AuthorityPolicy::PortSubstitution, host, port) == host + seq![':'] + decimal(
            port as nat,
        ),
        authority_for(AuthorityPolicy::Passthrough, host, port) == host,
{
    lemma_first_index_unique(host, ':', host.len() as int);
    assert(host.subrange(0, host.len() as int) =~= host);
}

/// A status that the upstream returns reaches the client unchanged, and the
/// response moves exactly one counter, by one, under that status as its label.
pub proof fn law_upstream_status_is_relayed_and_counted_once(
    detail: Detail,
    status: u16,
    method: Seq<char>,
    uri: Seq<char>,
    elapsed_nanos: u128,
)
    ensures
        response_of(Outcome::Answered(status)) == (OutboundResponseView {
            status,
            body: Body::Upstream,
            cause: None,
        }),
        ({
            let served = Served { outcome: Outcome::Answered(status), method, uri, elapsed_nanos };
            let events = record_of(detail, served).events;
            &&& total(events, any_counter()) == 1
            &&& total(events, with_status(decimal(status as nat))) == 1
            &&& total(events, with_method(method)) == 1
        }),
{
    let served = Served { outcome: Outcome::Answered(status), method, uri, elapsed_nanos };
    lemma_total_of_record(detail, served, any_counter());
    lemma_total_of_record(detail, served, with_status(decimal(status as nat)));
    lemma_total_of_record(detail, served, with_method(method));
}

/// Every response, relayed or made up, moves exactly one counter, by one: the
/// one that its status calls for, under the status that the client receives
/// as its label. No other counter moves.
pub proof fn law_one_counter_per_request(detail: Detail, served: Served)
    ensures
        ({
            let events = record_of(detail, served).events;
            let status = visible_status(served.outcome);
            &&& total(events, any_counter()) == 1
            &&& total(events, counter(counter_for(detail, status))) == 1
            &&& total(events, with_status(decimal(status as nat))) == 1
            &&& forall|metric: Metric|
                metric != counter_for(detail, status) ==> total(events, #[trigger] counter(metric))
                    == 0
        }),
{
    let events = record_of(detail, served).events;
    let status = visible_status(served.outcome);
    lemma_total_of_record(detail, served, any_counter());
    lemma_total_of_record(detail, served, counter(counter_for(detail, status)));
    lemma_total_of_record(detail, served, with_status(decimal(status as nat)));
    assert forall|metric: Metric| metric != counter_for(detail, status) implies total(
        events,
        #[trigger] counter(metric),
    ) == 0 by {
        lemma_total_of_record(detail, served, counter(metric));
    }
}

/// Where the upstream cannot be reached, or the request could not be forwarded
/// at all, the client receives status 500 with an empty body, and what is
/// recorded is one increment, of the error counter, and a log line at level
/// `Error` that carries the reason.
pub proof fn law_failed_forwarding_is_an_empty_500(detail: Detail, served: Served)
    requires
        !(served.outcome is Answered),
    ensures
        response_of(served.outcome) == (OutboundResponseView {
            status: 500,
            body: Body::Empty,
            cause: cause_of(served.outcome),
        }),
        cause_of(served.outcome) is Some,
        served.outcome matches Outcome::Unreachable(reason) ==> cause_of(served.outcome) == Some(
            reason@,
        ),
        ({
            let record = record_of(detail, served);
            &&& total(record.events, any_counter()) == 1
            &&& total(record.events, counter(Metric::ErrorResponses)) == 1
            &&& record.log.level == Level::Error
            &&& record.log.status == 500
            &&& record.log.uri == served.uri
            &&& record.log.cause == cause_of(served.outcome)
        }),
{
    lemma_total_of_record(detail, served, any_counter());
    lemma_total_of_record(detail, served, counter(Metric::ErrorResponses));
}

/// After any run of requests, whatever their outcomes, the increments of all
/// counters over all their labels add up to the number of requests.
pub proof fn law_counters_sum_to_requests(detail: Detail, trace: Seq<Served>)
    ensures
        total(events_of(detail, trace), any_counter()) == trace.len(),
    decreases trace.len(),
{
    if trace.len() > 0 {
        law_counters_sum_to_requests(detail, trace.drop_last());
        law_one_counter_per_request(detail, trace.last());
        lemma_total_concat(
            events_of(detail, trace.drop_last()),
            record_of(detail, trace.last()).events,
            any_counter(),
        );
    }
}

/// The log line of a request is at level `Error` if and only if the status
/// that the client receives is 400 or above.
pub proof fn law_error_level_iff_status_from_400(detail: Detail, served: Served)
    ensures
        record_of(detail, served).log.level is Error <==> visible_status(served.outcome) >= 400,
{
}

} // verus!
