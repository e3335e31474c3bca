//! The decisions of a single-upstream HTTP reverse proxy: where an inbound
//! request is sent, what the client gets back, and what is recorded about it.
//!
//! Nothing here touches a socket. The program around this library accepts
//! connections, talks to the upstream and writes metrics and logs; it asks this
//! library what to do at each point and carries the answer out.
//!
//! - [`resolver`]: every host name resolves to the one upstream address.
//! - [`forward`]: the outbound target of a request, and the reply to its client.
//! - [`observe`]: the metric events and the log line of a response.
//! - [`laws`]: what holds of every request, proved over the three above.

pub mod address;
pub mod forward;
pub mod laws;
pub mod observe;
pub mod resolver;
pub mod state;
pub mod text;
pub mod uri;

pub use address::{Address, Ip};
pub use forward::{
    outbound_authority, plan_forward, respond, settle_target, Body, ForwardError, OutboundResponse,
    Outcome, Target,
};
pub use observe::{
    classify, observe, Detail, Labels, Level, LogLine, Metric, MetricEvent, Observation, Sample,
};
pub use resolver::Resolver;
pub use state::{Args, AuthorityPolicy, ProxyState};
