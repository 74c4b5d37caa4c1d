use can_i_connect::dns::{get_address, select_address, DnsResolver, ResolvedAddress};
use can_i_connect::error::{Error, Result};
use can_i_connect::helpers::{
    handler_log, http_outcome, tcp_outcome, tcp_target, was_successful, HttpReply,
};
use can_i_connect::options::parse_log_level;
use ansi_term::Colour;
use can_i_connect::levels::{level_colour, level_label};
use log::{Level, LevelFilter};

struct MockResolver {
    addrs: Vec<ResolvedAddress>,
}

impl DnsResolver for MockResolver {
    fn resolve(&self, _host: &str) -> std::result::Result<Vec<ResolvedAddress>, Error> {
        Ok(self.addrs.clone())
    }
}

struct FailingResolver;

impl DnsResolver for FailingResolver {
    fn resolve(&self, host: &str) -> std::result::Result<Vec<ResolvedAddress>, Error> {
        Err(Error::DNSResolutionFailed(host.to_string()))
    }
}

const LOCALHOST_V4: u32 = 0x7f00_0001;
const LOCALHOST_V6: u128 = 1;

fn v4(ip: u32, port: u16) -> ResolvedAddress {
    ResolvedAddress::V4 { ip, port }
}

fn v6(ip: u128, port: u16) -> ResolvedAddress {
    ResolvedAddress::V6 { ip, port, flowinfo: 0, scope_id: 0 }
}

#[test]
fn hello_test() -> Result<()> {
    Ok(())
}

#[test]
fn get_address_ipv4_test() {
    let resolver = MockResolver { addrs: vec![v4(LOCALHOST_V4, 8000)] };
    let result = get_address(&resolver, "localhost").unwrap();
    assert_eq!(result, Some(v4(LOCALHOST_V4, 8000)));
}

#[test]
fn get_address_ipv6_test() {
    let resolver = MockResolver { addrs: vec![v6(LOCALHOST_V6, 8000)] };
    let result = get_address(&resolver, "localhost").unwrap();
    assert_eq!(result, Some(v6(LOCALHOST_V6, 8000)))
}

#[test]
fn get_address_no_addresses() {
    let resolver = MockResolver { addrs: vec![] };
    let result = get_address(&resolver, "localhost").unwrap();
    assert_eq!(result, None);
}

#[test]
fn get_address_prefers_ipv4_after_ipv6() {
    let resolver = MockResolver {
        addrs: vec![v6(LOCALHOST_V6, 80), v6(2, 81), v4(LOCALHOST_V4, 82), v4(0x0a00_0001, 83)],
    };
    assert_eq!(get_address(&resolver, "localhost").unwrap(), Some(v4(LOCALHOST_V4, 82)));
}

#[test]
fn get_address_first_ipv6_when_no_ipv4() {
    assert_eq!(select_address(&vec![v6(7, 1), v6(8, 2)]), Some(v6(7, 1)));
}

#[test]
fn get_address_passes_resolver_error() {
    let result = get_address(&FailingResolver, "nowhere:80");
    assert!(matches!(result, Err(Error::DNSResolutionFailed(h)) if h == "nowhere:80"));
}

#[test]
fn tcp_target_soft_fails() {
    assert_eq!(tcp_target(&FailingResolver, "nowhere:80"), None);
    assert_eq!(tcp_target(&MockResolver { addrs: vec![] }, "nowhere:80"), None);
    let both = MockResolver { addrs: vec![v6(LOCALHOST_V6, 9), v4(LOCALHOST_V4, 9)] };
    assert_eq!(tcp_target(&both, "localhost:9"), Some(v4(LOCALHOST_V4, 9)));
}

#[test]
fn tcp_outcome_never_fails() {
    assert!(matches!(tcp_outcome(None), Ok(false)));
    assert!(matches!(tcp_outcome(Some(false)), Ok(false)));
    assert!(matches!(tcp_outcome(Some(true)), Ok(true)));
}

#[test]
fn http_outcome_any_status_is_reached() {
    assert!(matches!(http_outcome(HttpReply::Status(200), 5), Ok(true)));
    assert!(matches!(http_outcome(HttpReply::Status(404), 5), Ok(true)));
    assert!(matches!(http_outcome(HttpReply::Status(500), 5), Ok(true)));
}

#[test]
fn http_outcome_timeout_and_failure() {
    assert!(matches!(http_outcome(HttpReply::TimedOut, 3), Err(Error::RequestTimedOut(3))));
    let failed = http_outcome(HttpReply::Failed("connection refused".to_string()), 3);
    assert!(matches!(failed, Err(Error::ReqwestError(m)) if m == "connection refused"));
}

#[test]
fn parse_log_level_test() {
    let valid_debug_log_levels = vec![
        String::from("debug"),
        String::from("DEBUG"),
        String::from("dEbUg"),
    ];
    for level in valid_debug_log_levels {
        let result = parse_log_level(&level);
        match result {
            Ok(log_level) => assert_eq!(log_level, LevelFilter::Debug),
            Err(e) => panic!("did not expect to get error but got: [{}]", e.message()),
        }
    }
    let valid_error_log_levels = vec![
        String::from("error"),
        String::from("ERROR"),
        String::from("eRroR"),
    ];
    for level in valid_error_log_levels {
        let result = parse_log_level(&level);
        match result {
            Ok(log_level) => assert_eq!(log_level, LevelFilter::Error),
            Err(e) => panic!("did not expect to get error but got: [{}]", e.message()),
        }
    }
    let invalid_log_levels = vec![String::from("critical")];
    for level in invalid_log_levels {
        let result = parse_log_level(&level);
        assert!(result.is_err(), "expected error but got Ok");
    }
}

#[test]
fn parse_log_level_other_names() {
    assert_eq!(parse_log_level(&"off".to_string()).unwrap(), LevelFilter::Off);
    assert_eq!(parse_log_level(&"Warn".to_string()).unwrap(), LevelFilter::Warn);
    assert_eq!(parse_log_level(&"INFO".to_string()).unwrap(), LevelFilter::Info);
    assert_eq!(parse_log_level(&"trace".to_string()).unwrap(), LevelFilter::Trace);
    let err = parse_log_level(&"verbose".to_string());
    assert!(matches!(err, Err(Error::InvalidLogLevel(ref s)) if s == "verbose"));
    assert_eq!(
        err.unwrap_err().message(),
        "--log-level must be a one of [info|error|debug] but got verbose"
    );
}

#[test]
fn handler_log_test() {
    let path = "/health";
    let result = handler_log(path);
    assert_eq!(
        result, "->> HANDLER - handler_health - /health",
        "unexpected result from handler_log function"
    );
}

#[test]
fn was_successful_only_without_failures() {
    assert!(was_successful(vec![]));
    assert!(!was_successful(vec!["a:1".to_string()]));
}

#[test]
fn error_messages() {
    assert_eq!(Error::RequestTimedOut(5).message(), "request took longer than 5 seconds");
    assert_eq!(Error::RequestTimedOut(120).message(), "request took longer than 120 seconds");
    assert_eq!(Error::InvalidTimeout("x".to_string()).message(), "--timeout must be a number but got x");
    assert_eq!(
        Error::InvalidSocketAddr("bad".to_string()).message(),
        "bad is not a valid bind address, use format <interface>:<port> e.g. 127.0.0.1:8000"
    );
    assert_eq!(Error::DNSResolutionFailed("h:1".to_string()).message(), "h:1");
    assert!(Error::NoHostsSupplied.message().starts_with("No hosts supplied."));
}

#[test]
fn level_colours_and_labels() {
    assert_eq!(level_colour(Level::Error), Colour::Red);
    assert_eq!(level_colour(Level::Warn), Colour::Yellow);
    assert_eq!(level_colour(Level::Info), Colour::Green);
    assert_eq!(level_colour(Level::Debug), Colour::Blue);
    assert_eq!(level_colour(Level::Trace), Colour::Purple);
    assert_eq!(level_label(Level::Error), "ERROR");
    assert_eq!(level_label(Level::Warn), "WARN");
    assert_eq!(level_label(Level::Trace), "TRACE");
}
