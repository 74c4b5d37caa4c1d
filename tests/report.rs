use can_i_connect::can_i_connect::{is_reachable, CanIConnect, ConnectionReport, ConnectionType};
use can_i_connect::error::Error;
use can_i_connect::helpers::{http_outcome, tcp_outcome, HttpReply};
use can_i_connect::web::{report_response, validate_hosts, CanIConnectPayload};

fn engine(http: &[&str], tcp: &[&str]) -> CanIConnect {
    CanIConnect {
        http: http.iter().map(|h| h.to_string()).collect(),
        tcp: tcp.iter().map(|h| h.to_string()).collect(),
        timeout: 5,
        server_mode: false,
        listen_addr: String::new(),
        http_client: None,
    }
}

#[test]
fn probe_order_http_then_tcp() {
    let e = engine(&["http://a/", "http://b/"], &["c:1"]);
    assert_eq!(e.probe_at(0), Some((ConnectionType::HTTP, "http://a/".to_string())));
    assert_eq!(e.probe_at(1), Some((ConnectionType::HTTP, "http://b/".to_string())));
    assert_eq!(e.probe_at(2), Some((ConnectionType::TCP, "c:1".to_string())));
    assert_eq!(e.probe_at(3), None);
    assert_eq!(e.hosts_total(), 3);
}

#[test]
fn reachability_rules() {
    assert!(is_reachable(ConnectionType::HTTP, &Ok(true)));
    assert!(is_reachable(ConnectionType::HTTP, &Ok(false)));
    assert!(!is_reachable(ConnectionType::HTTP, &Err(Error::RequestTimedOut(5))));
    assert!(is_reachable(ConnectionType::TCP, &Ok(true)));
    assert!(!is_reachable(ConnectionType::TCP, &Ok(false)));
    assert!(!is_reachable(ConnectionType::TCP, &Err(Error::NoHostsSupplied)));
}

#[test]
fn report_counts_every_target() {
    let e = engine(&["http://ok/", "http://slow/"], &["up:80", "down:81", "nowhere:82"]);
    let outcomes = vec![
        http_outcome(HttpReply::Status(404), 5),
        http_outcome(HttpReply::TimedOut, 5),
        tcp_outcome(Some(true)),
        tcp_outcome(Some(false)),
        tcp_outcome(None),
    ];
    let r = e.connection_report(&outcomes);
    assert_eq!(r.successful_hosts, vec!["http://ok/", "up:80"]);
    assert_eq!(r.failed_hosts, vec!["http://slow/", "down:81", "nowhere:82"]);
    assert_eq!(r.successful_hosts.len() + r.failed_hosts.len(), e.hosts_total());
}

#[test]
fn report_keeps_duplicates() {
    let e = engine(&[], &["h:1", "h:1"]);
    let r = e.connection_report(&vec![Ok(true), Ok(false)]);
    assert_eq!(r.successful_hosts, vec!["h:1"]);
    assert_eq!(r.failed_hosts, vec!["h:1"]);
}

#[test]
fn report_repeated_is_identical() {
    let e = engine(&["http://x/"], &["y:2", "z:3"]);
    let first = e.connection_report(&vec![Ok(true), Ok(false), Ok(true)]);
    let second = e.connection_report(&vec![Ok(true), Ok(false), Ok(true)]);
    assert_eq!(first.successful_hosts, second.successful_hosts);
    assert_eq!(first.failed_hosts, second.failed_hosts);
    assert_eq!(first.successful_hosts, vec!["http://x/", "z:3"]);
}

#[test]
fn record_appends() {
    let mut r = ConnectionReport::new();
    r.record("a".to_string(), true);
    r.record("b".to_string(), false);
    r.record("c".to_string(), true);
    assert_eq!(r.successful_hosts, vec!["a", "c"]);
    assert_eq!(r.failed_hosts, vec!["b"]);
}

#[test]
fn post_with_live_targets_reports_success() {
    let http_host = "http://127.0.0.1:5000/hello".to_string();
    let tcp_host = "127.0.0.1:5000".to_string();
    let payload = CanIConnectPayload {
        http_hosts: vec![http_host.clone()],
        tcp_hosts: vec![tcp_host.clone()],
        timeout: 5,
    };
    let hosts = validate_hosts(&payload).unwrap();
    let e = CanIConnect {
        http: hosts.http_hosts,
        tcp: hosts.tcp_hosts,
        timeout: payload.timeout,
        server_mode: false,
        listen_addr: String::new(),
        http_client: None,
    };
    let outcomes = vec![http_outcome(HttpReply::Status(200), 5), tcp_outcome(Some(true))];
    let resp = report_response(e.connection_report(&outcomes));
    assert!(resp.success);
    assert_eq!(resp.hosts_unreachable, 0);
    assert!(resp.failed_hosts_list.is_empty());
    assert_eq!(resp.hosts_reachable, 2);
    assert_eq!(resp.successful_hosts_list, vec![http_host, tcp_host]);
}

#[test]
fn post_with_failure_is_not_success() {
    let e = engine(&["http://a/"], &["b:1"]);
    let resp = report_response(e.connection_report(&vec![Ok(true), Ok(false)]));
    assert!(!resp.success);
    assert_eq!(resp.hosts_unreachable, 1);
    assert_eq!(resp.failed_hosts_list, vec!["b:1"]);
    assert_eq!(resp.hosts_reachable, 1);
}

#[test]
fn post_without_hosts_is_bad_request() {
    let payload = CanIConnectPayload { http_hosts: vec![], tcp_hosts: vec![], timeout: 5 };
    let rejection = validate_hosts(&payload).unwrap_err();
    assert_eq!(rejection.status, 400);
    assert_eq!(rejection.message, "Both 'http_hosts' and 'tcp_hosts' cannot be empty");
}

#[test]
fn post_with_only_tcp_hosts_is_accepted() {
    let payload = CanIConnectPayload { http_hosts: vec![], tcp_hosts: vec!["a:1".to_string()], timeout: 5 };
    let hosts = validate_hosts(&payload).unwrap();
    assert!(hosts.http_hosts.is_empty());
    assert_eq!(hosts.tcp_hosts, vec!["a:1"]);
}

struct NoAddresses;

impl can_i_connect::dns::DnsResolver for NoAddresses {
    fn resolve(
        &self,
        _host: &str,
    ) -> Result<Vec<can_i_connect::dns::ResolvedAddress>, Error> {
        Ok(vec![])
    }
}

#[test]
fn tcp_target_without_address_lands_in_failed() {
    let e = engine(&[], &["ghost.invalid:80"]);
    let target = can_i_connect::helpers::tcp_target(&NoAddresses, "ghost.invalid:80");
    assert_eq!(target, None);
    let outcome = tcp_outcome(target.map(|_| true));
    assert!(matches!(outcome, Ok(false)));
    let r = e.connection_report(&vec![outcome]);
    assert!(r.successful_hosts.is_empty());
    assert_eq!(r.failed_hosts, vec!["ghost.invalid:80"]);
}

#[test]
fn report_files_probe_without_outcome_as_failed() {
    let e = engine(&["http://a/"], &["b:1", "c:2"]);
    let r = e.connection_report(&vec![Ok(true)]);
    assert_eq!(r.successful_hosts, vec!["http://a/"]);
    assert_eq!(r.failed_hosts, vec!["b:1", "c:2"]);
    assert_eq!(r.successful_hosts.len() + r.failed_hosts.len(), e.hosts_total());
}
