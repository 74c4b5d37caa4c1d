use vstd::prelude::*;
use vstd::string::StringExecFns;

verus! {

/// Everything that can go wrong while configuring or running probes.
#[derive(Debug, Clone, PartialEq, Eq)]
pub enum Error {
    InvalidLogLevel(String),
    InvalidTimeout(String),
    RequestTimedOut(usize),
    NoHostsSupplied,
    DNSResolutionFailed(String),
    InvalidSocketAddr(String),
    /// A transport failure of the HTTP client, with the client's description of it.
    ReqwestError(String),
}

pub type Result<T> = core::result::Result<T, Error>;

/// The decimal digit for `d`, which is below ten.
pub open spec fn digit_char(d: nat) -> char {
    ((d + '0' as u32) as u32) as char
}

/// `n` written in decimal, without leading zeros.
pub open spec fn decimal_text(n: nat) -> Seq<char>
    decreases n,
{
    if n < 10 {
        seq![digit_char(n)]
    } else {
        decimal_text(n / 10).push(digit_char(n % 10))
    }
}

/// Relies on `usize`'s `Display`, through `ToString::to_string`: the number
/// in decimal, without sign or leading zeros.
#[verifier::external_body]
fn usize_text(n: usize) -> (r: String)
    ensures
        r@ == decimal_text(n as nat),
{
    n.to_string()
}

/// The text of an error message: the views of the error's parts, joined.
pub open spec fn message_of(e: Error) -> Seq<char> {
    match e {
        Error::InvalidLogLevel(s) => "--log-level must be a one of [info|error|debug] but got "@
            + s@,
        Error::InvalidTimeout(s) => "--timeout must be a number but got "@ + s@,
        Error::RequestTimedOut(t) => "request took longer than "@ + decimal_text(t as nat)
            + " seconds"@,
        Error::NoHostsSupplied =>
            "No hosts supplied. Must supply hosts through --http-hosts or --tcp-hosts args. Both cannot be empty!"@,
        Error::DNSResolutionFailed(host) => host@,
        Error::InvalidSocketAddr(s) => s@
            + " is not a valid bind address, use format <interface>:<port> e.g. 127.0.0.1:8000"@,
        Error::ReqwestError(m) => m@,
    }
}

impl Error {
    /// The message that describes this error to a person.
    pub fn message(&self) -> (r: String)
        ensures
            r@ == message_of(*self),
    {
        match self {
            Error::InvalidLogLevel(s) => String::from_str(
                "--log-level must be a one of [info|error|debug] but got ",
            ).concat(s.as_str()),
            Error::InvalidTimeout(s) => String::from_str(
                "--timeout must be a number but got ",
            ).concat(s.as_str()),
            Error::RequestTimedOut(t) => {
                let n = usize_text(*t);
                String::from_str("request took longer than ").concat(n.as_str()).concat(
                    " seconds",
                )
            },
            Error::NoHostsSupplied => String::from_str(
                "No hosts supplied. Must supply hosts through --http-hosts or --tcp-hosts args. Both cannot be empty!",
            ),
            Error::DNSResolutionFailed(host) => host.clone(),
            Error::InvalidSocketAddr(s) => s.clone().concat(
                " is not a valid bind address, use format <interface>:<port> e.g. 127.0.0.1:8000",
            ),
            Error::ReqwestError(m) => m.clone(),
        }
    }
}

} // verus!
