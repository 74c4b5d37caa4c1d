use crate::can_i_connect::ConnectionReport;
use crate::helpers::was_successful;
use crate::options::{usize_of, DEFAULT_TIMEOUT};
use vstd::prelude::*;
use vstd::string::StringExecFns;

verus! {

/// The body of a `POST /can-i-connect` request.
#[derive(Debug)]
pub struct CanIConnectPayload {
    pub http_hosts: Vec<String>,
    pub tcp_hosts: Vec<String>,
    pub timeout: usize,
}

/// The hosts of a request that passed validation.
#[derive(Debug)]
pub struct ValidatedHosts {
    pub http_hosts: Vec<String>,
    pub tcp_hosts: Vec<String>,
}

/// A request turned away: the HTTP status to answer with and why.
#[derive(Debug)]
pub struct Rejection {
    pub status: u16,
    pub message: String,
}

/// The answer to a `POST /can-i-connect` request that was served.
#[derive(Debug)]
pub struct CanIConnectResponse {
    pub success: bool,
    pub hosts_unreachable: usize,
    pub failed_hosts_list: Vec<String>,
    pub hosts_reachable: usize,
    pub successful_hosts_list: Vec<String>,
}

/// The `timeout` field of a request body, as the JSON held it.
#[derive(Debug)]
pub enum TimeoutValue {
    /// A number that is a non-negative integer within 64 bits.
    Unsigned(u64),
    /// Any other number: negative, fractional or too large.
    OtherNumber,
    Text(String),
    Null,
    /// An array, an object or a boolean.
    Other,
}

/// The timeout of a request that leaves the field out.
pub fn default_timeout() -> (r: usize)
    ensures
        r == DEFAULT_TIMEOUT,
{
    DEFAULT_TIMEOUT
}

/// The hosts of a request that leaves a host list out: none.
pub fn default_hosts() -> (r: Vec<String>)
    ensures
        r@.len() == 0,
{
    Vec::new()
}

/// The message for a `timeout` that is a number or string but no valid count of seconds.
pub open spec fn invalid_number_message() -> Seq<char> {
    "timeout must be a valid number"@
}

/// The message for a `timeout` that is neither number nor string.
pub open spec fn wrong_kind_message() -> Seq<char> {
    "timeout must be a number or string"@
}

/// The seconds that a `timeout` field gives, or the reason it gives none. A
/// number or numeric string gives its value, `null` and zero the default.
pub fn deserialize_timeout(value: TimeoutValue) -> (r: core::result::Result<usize, String>)
    ensures
        value matches TimeoutValue::Unsigned(n) ==> if n <= usize::MAX {
            r == Ok::<usize, String>(if n == 0 { DEFAULT_TIMEOUT } else { n as usize })
        } else {
            r matches Err(m) && m@ == invalid_number_message()
        },
        value is OtherNumber ==> (r matches Err(m) && m@ == invalid_number_message()),
        value matches TimeoutValue::Text(s) ==> match usize_of(s@) {
            Some(n) => r == Ok::<usize, String>(if n == 0 { DEFAULT_TIMEOUT } else { n }),
            None => r matches Err(m) && m@ == invalid_number_message(),
        },
        value is Null ==> r == Ok::<usize, String>(DEFAULT_TIMEOUT),
        value is Other ==> (r matches Err(m) && m@ == wrong_kind_message()),
{
    match value {
        TimeoutValue::Unsigned(n) => {
            if n <= usize::MAX as u64 {
                if n == 0 {
                    Ok(DEFAULT_TIMEOUT)
                } else {
                    Ok(n as usize)
                }
            } else {
                Err(String::from_str("timeout must be a valid number"))
            }
        },
        TimeoutValue::OtherNumber => Err(String::from_str("timeout must be a valid number")),
        TimeoutValue::Text(s) => match crate::options::parse_timeout(s.as_str()) {
            Ok(t) => Ok(t),
            Err(_) => Err(String::from_str("timeout must be a valid number")),
        },
        TimeoutValue::Null => Ok(default_timeout()),
        TimeoutValue::Other => Err(String::from_str("timeout must be a number or string")),
    }
}

/// A copy of a list of hosts.
pub fn clone_hosts(hosts: &Vec<String>) -> (r: Vec<String>)
    ensures
        r@ == hosts@,
{
    let mut r: Vec<String> = Vec::new();
    let mut i: usize = 0;
    while i < hosts.len()
        invariant
            i <= hosts@.len(),
            r@ == hosts@.take(i as int),
        decreases hosts@.len() - i,
    {
        r.push(hosts[i].clone());
        assert(hosts@.take(i + 1) =~= hosts@.take(i as int).push(hosts@[i as int]));
        i = i + 1;
    }
    assert(hosts@.take(hosts@.len() as int) =~= hosts@);
    r
}

/// The HTTP status of a request that names no host.
pub const BAD_REQUEST: u16 = 400;

/// The message of a request that names no host.
pub open spec fn no_hosts_message() -> Seq<char> {
    "Both 'http_hosts' and 'tcp_hosts' cannot be empty"@
}

/// Accepts a request that names at least one host, HTTP or TCP; turns one
/// that names none away with status 400.
pub fn validate_hosts(payload: &CanIConnectPayload) -> (r: core::result::Result<
    ValidatedHosts,
    Rejection,
>)
    ensures
        payload.http_hosts@.len() == 0 && payload.tcp_hosts@.len() == 0 ==> (r matches Err(e)
            && e.status == 400 && e.message@ == no_hosts_message()),
        payload.http_hosts@.len() > 0 || payload.tcp_hosts@.len() > 0 ==> (r matches Ok(h)
            && h.http_hosts@ == payload.http_hosts@ && h.tcp_hosts@ == payload.tcp_hosts@),
{
    if payload.http_hosts.len() == 0 && payload.tcp_hosts.len() == 0 {
        return Err(
            Rejection {
                status: BAD_REQUEST,
                message: String::from_str("Both 'http_hosts' and 'tcp_hosts' cannot be empty"),
            },
        );
    }
    Ok(
        ValidatedHosts {
            http_hosts: clone_hosts(&payload.http_hosts),
            tcp_hosts: clone_hosts(&payload.tcp_hosts),
        },
    )
}

/// The answer to a served request: the report's two lists with their sizes,
/// and success exactly when no host failed.
pub fn report_response(report: ConnectionReport) -> (r: CanIConnectResponse)
    ensures
        r.success == (report.failed_hosts@.len() == 0),
        r.hosts_unreachable == report.failed_hosts@.len(),
        r.failed_hosts_list@ == report.failed_hosts@,
        r.hosts_reachable == report.successful_hosts@.len(),
        r.successful_hosts_list@ == report.successful_hosts@,
{
    let success = was_successful(clone_hosts(&report.failed_hosts));
    CanIConnectResponse {
        success,
        hosts_unreachable: report.failed_hosts.len(),
        hosts_reachable: report.successful_hosts.len(),
        failed_hosts_list: report.failed_hosts,
        successful_hosts_list: report.successful_hosts,
    }
}

} // verus!
