use crate::can_i_connect::{lemma_probe_filed, tally, CanIConnect, ConnectionType};
use crate::dns::{get_address, preferred_address, DnsResolver, ResolvedAddress};
use crate::error::Error;
use vstd::prelude::*;
use vstd::string::StringExecFns;

verus! {

/// What came back from an HTTP GET.
#[derive(Debug, Clone)]
pub enum HttpReply {
    /// The server answered with this status code.
    Status(u16),
    /// No answer came within the client's timeout.
    TimedOut,
    /// Another transport failure, as the client described it.
    Failed(String),
}

/// The outcome of an HTTP probe, given what the request brought back.
pub open spec fn http_result(reply: HttpReply, timeout: usize) -> core::result::Result<bool, Error> {
    match reply {
        HttpReply::Status(_) => Ok(true),
        HttpReply::TimedOut => Err(Error::RequestTimedOut(timeout)),
        HttpReply::Failed(m) => Err(Error::ReqwestError(m)),
    }
}

/// Classifies what an HTTP GET brought back. Any status code means the host
/// was reached; a timeout and any other transport failure are errors, the
/// timeout named with the configured number of seconds.
pub fn http_outcome(reply: HttpReply, timeout: usize) -> (r: core::result::Result<bool, Error>)
    ensures
        r == http_result(reply, timeout),
{
    match reply {
        HttpReply::Status(_) => Ok(true),
        HttpReply::TimedOut => Err(Error::RequestTimedOut(timeout)),
        HttpReply::Failed(m) => Err(Error::ReqwestError(m)),
    }
}

/// The address that a TCP probe of `host` dials, if any. Resolution failing
/// and resolution giving no address both leave nothing to dial; neither is an
/// error of the probe.
pub fn tcp_target<R: DnsResolver>(resolver: &R, host: &str) -> (r: Option<ResolvedAddress>)
    ensures
        exists|outcome: core::result::Result<Seq<ResolvedAddress>, Error>|
            #[trigger] resolver.may_resolve(host@, outcome) && r == match outcome {
                Ok(addrs) => preferred_address(addrs),
                Err(_) => None,
            },
{
    match get_address(resolver, host) {
        Ok(addr) => addr,
        Err(_) => None,
    }
}

/// The outcome of a TCP probe: `Ok(true)` when a connection was made.
pub open spec fn tcp_result(dialled: Option<bool>) -> core::result::Result<bool, Error> {
    Ok(dialled == Some(true))
}

/// Classifies a TCP probe: `dialled` is whether the connection was made, or
/// `None` where there was no address to dial. It never fails: an unreachable
/// host is `Ok(false)`.
pub fn tcp_outcome(dialled: Option<bool>) -> (r: core::result::Result<bool, Error>)
    ensures
        r == tcp_result(dialled),
{
    match dialled {
        Some(connected) => Ok(connected),
        None => Ok(false),
    }
}

/// The log line for a request to `path`.
pub fn handler_log(path: &str) -> (r: String)
    ensures
        r@ == "->> HANDLER - handler_health - "@ + path@,
{
    String::from_str("->> HANDLER - handler_health - ").concat(path)
}

/// Whether a run had no failed host.
pub fn was_successful(failed_hosts: Vec<String>) -> (r: bool)
    ensures
        r == (failed_hosts@.len() == 0),
{
    failed_hosts.len() == 0
}

/// An HTTP target whose GET got any status code is filed as successful; one
/// whose GET ran out of time is filed as failed, and the pass goes on.
pub proof fn lemma_http_reply_filed(
    engine: CanIConnect,
    outcomes: Seq<core::result::Result<bool, Error>>,
    i: int,
    reply: HttpReply,
)
    requires
        0 <= i < engine.http@.len(),
        i < outcomes.len(),
        outcomes[i] == http_result(reply, engine.timeout),
    ensures
        reply is Status ==> tally(engine.probes(), outcomes).successful.contains(
            engine.http@[i]@,
        ),
        reply is TimedOut ==> http_result(reply, engine.timeout) == Err::<bool, Error>(
            Error::RequestTimedOut(engine.timeout),
        ) && tally(engine.probes(), outcomes).failed.contains(engine.http@[i]@),
{
    assert(engine.probes()[i] == (ConnectionType::HTTP, engine.http@[i]@));
    lemma_probe_filed(engine.probes(), outcomes, i);
}

/// A TCP target whose name resolves to no address of either family is not
/// dialled, yields no error, and is filed as failed.
pub proof fn lemma_tcp_target_without_address_fails(
    engine: CanIConnect,
    outcomes: Seq<core::result::Result<bool, Error>>,
    j: int,
    addrs: Seq<ResolvedAddress>,
    connected: bool,
)
    requires
        0 <= j < engine.tcp@.len(),
        addrs.len() == 0,
        engine.http@.len() + j < outcomes.len() ==> outcomes[engine.http@.len() + j]
            == tcp_result(
            match preferred_address(addrs) {
                Some(_) => Some(connected),
                None => None,
            },
        ),
    ensures
        preferred_address(addrs) is None,
        tcp_result(None) is Ok,
        tally(engine.probes(), outcomes).failed.contains(engine.tcp@[j]@),
{
    let k = engine.http@.len() + j;
    assert(engine.probes()[k] == (ConnectionType::TCP, engine.tcp@[j]@));
    lemma_probe_filed(engine.probes(), outcomes, k);
}

} // verus!
