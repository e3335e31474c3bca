use ammonite::forward::{outbound_scheme, INTERNAL_SERVER_ERROR};
use ammonite::text::{decimal_string, find_char, host_name, push_decimal};
use ammonite::{
    outbound_authority, plan_forward, respond, settle_target, Address, Args, AuthorityPolicy,
    Body, ForwardError, Ip, Outcome, ProxyState, Resolver,
};

fn local(port: u16) -> Address {
    Address { ip: Ip::V4(0x7f00_0001), port }
}

fn state(policy: AuthorityPolicy) -> ProxyState {
    ProxyState { remote: local(9000), policy }
}

#[test]
fn resolver_ignores_the_host_name() {
    let resolver = Resolver { remote: local(9000) };
    assert_eq!(resolver.resolve(""), local(9000));
    assert_eq!(resolver.resolve("10.1.2.3"), local(9000));
    assert_eq!(resolver.resolve("[::1]"), local(9000));
    assert_eq!(resolver.resolve("tenant.example.com"), local(9000));
    assert_eq!(resolver.resolve("not a host name at all \u{1f980}"), local(9000));
}

#[test]
fn resolver_answers_with_an_ipv6_remote() {
    let remote = Address { ip: Ip::V6 { bits: 1, flowinfo: 0, scope_id: 3 }, port: 443 };
    let resolver = Resolver { remote };
    assert_eq!(resolver.resolve("example.org"), remote);
}

#[test]
fn state_is_built_from_the_arguments() {
    let args = Args { bind: local(8080), remote: local(9000), metrics: local(9100) };
    let state = ProxyState::new(&args, AuthorityPolicy::Passthrough);
    assert_eq!(state.remote, local(9000));
    assert_eq!(state.policy, AuthorityPolicy::Passthrough);
    assert_eq!(state.resolver(), Resolver { remote: local(9000) });
    assert_eq!(state.resolver().resolve("anything"), args.remote);
}

#[test]
fn decimal_of_small_and_large_numbers() {
    assert_eq!(decimal_string(0), "0");
    assert_eq!(decimal_string(7), "7");
    assert_eq!(decimal_string(9), "9");
    assert_eq!(decimal_string(10), "10");
    assert_eq!(decimal_string(99), "99");
    assert_eq!(decimal_string(100), "100");
    assert_eq!(decimal_string(404), "404");
    assert_eq!(decimal_string(9000), "9000");
    assert_eq!(decimal_string(12345), "12345");
    assert_eq!(decimal_string(65535), "65535");
}

#[test]
fn decimal_agrees_with_the_standard_formatter() {
    for n in [0u16, 1, 9, 10, 11, 80, 101, 443, 999, 1000, 8080, 10000, 60009, u16::MAX] {
        assert_eq!(decimal_string(n), format!("{}", n));
    }
}

#[test]
fn decimal_is_appended_to_what_is_there() {
    let mut text = String::from("port ");
    push_decimal(&mut text, 8080);
    assert_eq!(text, "port 8080");
    push_decimal(&mut text, 0);
    assert_eq!(text, "port 80800");
}

#[test]
fn find_char_counts_characters() {
    assert_eq!(find_char("", ':'), 0);
    assert_eq!(find_char("abc", ':'), 3);
    assert_eq!(find_char(":abc", ':'), 0);
    assert_eq!(find_char("ab:c:d", ':'), 2);
    assert_eq!(find_char("h\u{e9}t\u{e9}:1", ':'), 4);
}

#[test]
fn host_name_drops_the_port() {
    assert_eq!(host_name("tenant.example.com"), "tenant.example.com");
    assert_eq!(host_name("tenant.example.com:8080"), "tenant.example.com");
    assert_eq!(host_name("localhost:"), "localhost");
    assert_eq!(host_name("127.0.0.1:80"), "127.0.0.1");
    assert_eq!(host_name(""), "");
    assert_eq!(host_name(":80"), "");
}

#[test]
fn host_name_keeps_an_ipv6_literal_whole() {
    assert_eq!(host_name("[::1]"), "[::1]");
    assert_eq!(host_name("[::1]:8080"), "[::1]");
    assert_eq!(host_name("[2001:db8::7]:443"), "[2001:db8::7]");
}

#[test]
fn host_name_of_an_unclosed_bracket_stops_at_the_colon() {
    assert_eq!(host_name("[abc"), "[abc");
    assert_eq!(host_name("[ab:c"), "[ab");
}

#[test]
fn host_name_counts_characters_not_bytes() {
    assert_eq!(host_name("b\u{fc}cher.example:8080"), "b\u{fc}cher.example");
}

#[test]
fn port_substitution_pairs_the_host_name_with_the_remote_port() {
    let authority =
        outbound_authority(AuthorityPolicy::PortSubstitution, "tenant.example.com", 9000);
    assert_eq!(authority, "tenant.example.com:9000");
}

#[test]
fn port_substitution_replaces_a_port_in_the_host_header() {
    let policy = AuthorityPolicy::PortSubstitution;
    assert_eq!(outbound_authority(policy, "tenant.example.com:8080", 9000), "tenant.example.com:9000");
    assert_eq!(outbound_authority(policy, "[::1]:8080", 80), "[::1]:80");
    assert_eq!(outbound_authority(policy, "[::1]", 65535), "[::1]:65535");
    assert_eq!(outbound_authority(policy, "", 0), ":0");
}

#[test]
fn passthrough_leaves_the_host_header_alone() {
    let policy = AuthorityPolicy::Passthrough;
    assert_eq!(outbound_authority(policy, "tenant.example.com", 9000), "tenant.example.com");
    assert_eq!(outbound_authority(policy, "tenant.example.com:8080", 9000), "tenant.example.com:8080");
    assert_eq!(outbound_authority(policy, "", 9000), "");
}

#[test]
fn outbound_scheme_is_plain_http() {
    assert_eq!(outbound_scheme(), "http");
}

#[test]
fn scenario_port_substitution() {
    let plan = plan_forward(
        &state(AuthorityPolicy::PortSubstitution),
        "tenant.example.com",
        Some("/health"),
    );
    let target = plan.expect("a valid target");
    assert_eq!(target.authority, "tenant.example.com:9000");
    assert_eq!(target.path_and_query, "/health");
    assert_eq!(target.uri.to_string(), "http://tenant.example.com:9000/health");
    assert_eq!(target.uri.scheme_str(), Some("http"));
    assert_eq!(target.uri.port_u16(), Some(9000));
}

#[test]
fn scenario_passthrough() {
    let state = state(AuthorityPolicy::Passthrough);
    let plan = plan_forward(&state, "tenant.example.com", Some("/health"));
    let target = plan.expect("a valid target");
    assert_eq!(target.authority, "tenant.example.com");
    assert_eq!(target.uri.to_string(), "http://tenant.example.com/health");
    assert_eq!(target.uri.host(), Some("tenant.example.com"));
    assert_eq!(target.uri.port_u16(), None);
    assert_eq!(state.resolver().resolve("tenant.example.com"), local(9000));
}

#[test]
fn path_and_query_are_copied_unchanged() {
    let plan = plan_forward(
        &state(AuthorityPolicy::PortSubstitution),
        "a.example",
        Some("/search/items?q=caf%C3%A9&page=2"),
    );
    let target = plan.expect("a valid target");
    assert_eq!(target.path_and_query, "/search/items?q=caf%C3%A9&page=2");
    assert_eq!(target.uri.path(), "/search/items");
    assert_eq!(target.uri.query(), Some("q=caf%C3%A9&page=2"));
    assert_eq!(
        target.uri.to_string(),
        "http://a.example:9000/search/items?q=caf%C3%A9&page=2"
    );
}

#[test]
fn the_uri_is_built_from_the_planned_parts() {
    for policy in [AuthorityPolicy::PortSubstitution, AuthorityPolicy::Passthrough] {
        for host in ["tenant.example.com", "tenant.example.com:8080", "[::1]:81", "10.0.0.7"] {
            let target = plan_forward(&state(policy), host, Some("/x?y=1")).expect("a target");
            let expected = hyper::Uri::builder()
                .scheme("http")
                .authority(outbound_authority(policy, host, 9000))
                .path_and_query("/x?y=1")
                .build()
                .expect("a URI");
            assert_eq!(target.uri, expected);
            assert_eq!(
                target.uri.authority().map(|a| a.as_str()),
                Some(target.authority.as_str())
            );
            assert_eq!(
                target.uri.path_and_query().map(|p| p.as_str()),
                Some(target.path_and_query.as_str())
            );
        }
    }
}

#[test]
fn a_fragment_is_cut_off_the_uri() {
    let plan = plan_forward(&state(AuthorityPolicy::PortSubstitution), "a.example", Some("/a#top"));
    let target = plan.expect("a valid target");
    assert_eq!(target.path_and_query, "/a#top");
    assert_eq!(target.uri.to_string(), "http://a.example:9000/a");
}

#[test]
fn missing_path_and_query_is_an_error() {
    for policy in [AuthorityPolicy::PortSubstitution, AuthorityPolicy::Passthrough] {
        let plan = plan_forward(&state(policy), "tenant.example.com", None);
        assert_eq!(plan, Err(ForwardError::MissingPathAndQuery));
    }
}

#[test]
fn missing_path_and_query_wins_over_a_bad_host() {
    let plan = plan_forward(&state(AuthorityPolicy::Passthrough), "bad host", None);
    assert_eq!(plan, Err(ForwardError::MissingPathAndQuery));
}

#[test]
fn invalid_authority_is_an_error() {
    let passthrough = state(AuthorityPolicy::Passthrough);
    assert_eq!(plan_forward(&passthrough, "bad host", Some("/")), Err(ForwardError::InvalidTarget));
    assert_eq!(plan_forward(&passthrough, "", Some("/")), Err(ForwardError::InvalidTarget));
    assert_eq!(
        plan_forward(&passthrough, "a.example:80:90", Some("/")),
        Err(ForwardError::InvalidTarget)
    );
    let substitution = state(AuthorityPolicy::PortSubstitution);
    assert_eq!(plan_forward(&substitution, "bad host", Some("/")), Err(ForwardError::InvalidTarget));
    assert_eq!(plan_forward(&substitution, "[::1", Some("/")), Err(ForwardError::InvalidTarget));
}

#[test]
fn invalid_path_is_an_error() {
    let plan = plan_forward(&state(AuthorityPolicy::PortSubstitution), "a.example", Some("/a b"));
    assert_eq!(plan, Err(ForwardError::InvalidTarget));
}

#[test]
fn a_port_in_the_host_header_does_not_stop_forwarding() {
    let plan = plan_forward(&state(AuthorityPolicy::PortSubstitution), "a.example:8080", Some("/"));
    assert_eq!(plan.expect("a valid target").uri.to_string(), "http://a.example:9000/");
}

#[test]
fn settle_target_follows_the_builder() {
    let built = hyper::Uri::builder()
        .scheme("http")
        .authority("a.example:9000")
        .path_and_query("/x")
        .build();
    let target = settle_target(String::from("a.example:9000"), "/x", built).expect("a target");
    assert_eq!(target.authority, "a.example:9000");
    assert_eq!(target.path_and_query, "/x");
    assert_eq!(target.uri.to_string(), "http://a.example:9000/x");

    let refused = hyper::Uri::builder().scheme("http").authority("a b").path_and_query("/x").build();
    assert!(refused.is_err());
    assert_eq!(
        settle_target(String::from("a b"), "/x", refused),
        Err(ForwardError::InvalidTarget)
    );
}

#[test]
fn error_messages() {
    assert_eq!(ForwardError::MissingPathAndQuery.message(), "request target has no path and query");
    assert_eq!(ForwardError::InvalidTarget.message(), "outbound target is not a valid URI");
}

#[test]
fn upstream_status_is_relayed() {
    for status in [100u16, 200, 204, 301, 404, 418, 500, 503, 599, 600, 999] {
        let reply = respond(Outcome::Answered(status));
        assert_eq!(reply.status, status);
        assert_eq!(reply.body, Body::Upstream);
        assert_eq!(reply.cause, None);
    }
}

#[test]
fn unreachable_upstream_gives_an_empty_500() {
    let reply = respond(Outcome::Unreachable(String::from("connection refused")));
    assert_eq!(reply.status, 500);
    assert_eq!(reply.status, INTERNAL_SERVER_ERROR);
    assert_eq!(reply.body, Body::Empty);
    assert_eq!(reply.cause.as_deref(), Some("connection refused"));
}

#[test]
fn rejected_request_gives_an_empty_500() {
    let reply = respond(Outcome::Rejected(ForwardError::MissingPathAndQuery));
    assert_eq!(reply.status, 500);
    assert_eq!(reply.body, Body::Empty);
    assert_eq!(reply.cause.as_deref(), Some("request target has no path and query"));

    let reply = respond(Outcome::Rejected(ForwardError::InvalidTarget));
    assert_eq!(reply.status, 500);
    assert_eq!(reply.body, Body::Empty);
    assert_eq!(reply.cause.as_deref(), Some("outbound target is not a valid URI"));
}
