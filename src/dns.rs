use crate::error::Error;
use vstd::prelude::*;

verus! {

/// An IP address and port that a host name resolved to.
///
/// IPv4 addresses are held as their 32-bit big-endian value, IPv6 addresses
/// as their 128-bit value.
#[derive(Debug, Clone, Copy, PartialEq, Eq, Structural)]
pub enum ResolvedAddress {
    V4 { ip: u32, port: u16 },
    V6 { ip: u128, port: u16, flowinfo: u32, scope_id: u32 },
}

/// What a resolution result looks like to a contract: the addresses, or the error.
pub open spec fn resolution_view(r: core::result::Result<Vec<ResolvedAddress>, Error>) -> core::result::Result<
    Seq<ResolvedAddress>,
    Error,
> {
    match r {
        Ok(v) => Ok(v@),
        Err(e) => Err(e),
    }
}

/// Name resolution: turns a `host:port` string into the addresses it stands for.
pub trait DnsResolver {
    /// Whether `outcome` is a result that resolving `host` may give. A resolver
    /// may narrow it to what it answers; by default any result may come.
    open spec fn may_resolve(&self, host: Seq<char>, outcome: core::result::Result<Seq<ResolvedAddress>, Error>) -> bool {
        true
    }

    fn resolve(&self, host: &str) -> (r: core::result::Result<Vec<ResolvedAddress>, Error>)
        ensures
            self.may_resolve(host@, resolution_view(r)),
    ;
}

/// The first address in `addrs` whose family is IPv4 (`want_v4`) or IPv6 (`!want_v4`).
pub open spec fn first_of_family(addrs: Seq<ResolvedAddress>, want_v4: bool) -> Option<ResolvedAddress>
    decreases addrs.len(),
{
    if addrs.len() == 0 {
        None
    } else if (addrs[0] is V4) == want_v4 {
        Some(addrs[0])
    } else {
        first_of_family(addrs.drop_first(), want_v4)
    }
}

/// The address a TCP probe dials: the first IPv4 address, else the first IPv6
/// address, else none.
pub open spec fn preferred_address(addrs: Seq<ResolvedAddress>) -> Option<ResolvedAddress> {
    match first_of_family(addrs, true) {
        Some(a) => Some(a),
        None => first_of_family(addrs, false),
    }
}

/// Picks the address to dial among `addrs` in one pass: the first IPv4 address
/// wins; the first IPv6 address is kept as the fallback.
pub fn select_address(addrs: &Vec<ResolvedAddress>) -> (r: Option<ResolvedAddress>)
    ensures
        r == preferred_address(addrs@),
{
    let mut ipv6_fallback: Option<ResolvedAddress> = None;
    let mut i: usize = 0;
    assert(addrs@.skip(0) =~= addrs@);
    while i < addrs.len()
        invariant
            i <= addrs@.len(),
            first_of_family(addrs@, true) == first_of_family(addrs@.skip(i as int), true),
            first_of_family(addrs@, false) == match ipv6_fallback {
                Some(a) => Some(a),
                None => first_of_family(addrs@.skip(i as int), false),
            },
        decreases addrs@.len() - i,
    {
        let addr = addrs[i];
        assert(addrs@.skip(i as int).drop_first() =~= addrs@.skip(i as int + 1));
        match addr {
            ResolvedAddress::V4 { .. } => {
                return Some(addr);
            },
            ResolvedAddress::V6 { .. } => {
                if ipv6_fallback.is_none() {
                    ipv6_fallback = Some(addr);
                }
            },
        }
        i = i + 1;
    }
    ipv6_fallback
}

/// Resolves `host` with `resolver` and picks the address to dial. A resolver
/// error is handed back as it came.
pub fn get_address<R: DnsResolver>(resolver: &R, host: &str) -> (r: core::result::Result<
    Option<ResolvedAddress>,
    Error,
>)
    ensures
        exists|outcome: core::result::Result<Seq<ResolvedAddress>, Error>|
            #[trigger] resolver.may_resolve(host@, outcome) && r == match outcome {
                Ok(addrs) => Ok(preferred_address(addrs)),
                Err(e) => Err(e),
            },
{
    let resolved = resolver.resolve(host);
    match resolved {
        Ok(addrs) => Ok(select_address(&addrs)),
        Err(e) => Err(e),
    }
}


/// Where any IPv4 address is among the results, the first IPv4 address is
/// chosen, whatever IPv6 addresses come before or after it.
pub proof fn lemma_ipv4_preferred(addrs: Seq<ResolvedAddress>, i: int)
    requires
        0 <= i < addrs.len(),
        addrs[i] is V4,
    ensures
        preferred_address(addrs) is Some,
        preferred_address(addrs)->0 is V4,
        preferred_address(addrs) == first_of_family(addrs, true),
    decreases addrs.len(),
{
    if !(addrs[0] is V4) {
        assert(addrs.drop_first()[i - 1] == addrs[i]);
        lemma_ipv4_preferred(addrs.drop_first(), i - 1);
    }
}

/// With no IPv4 address among the results, the first IPv6 address is chosen;
/// with no address at all, none is.
pub proof fn lemma_ipv6_fallback(addrs: Seq<ResolvedAddress>)
    requires
        forall|i: int| 0 <= i < addrs.len() ==> !(#[trigger] addrs[i] is V4),
    ensures
        first_of_family(addrs, true) is None,
        preferred_address(addrs) == first_of_family(addrs, false),
        addrs.len() > 0 ==> preferred_address(addrs) == Some(addrs[0]),
        addrs.len() == 0 ==> preferred_address(addrs) is None,
    decreases addrs.len(),
{
    if addrs.len() > 0 {
        assert forall|i: int| 0 <= i < addrs.drop_first().len() implies !(
        #[trigger] addrs.drop_first()[i] is V4) by {
            assert(addrs.drop_first()[i] == addrs[i + 1]);
        }
        lemma_ipv6_fallback(addrs.drop_first());
        assert(!(addrs[0] is V4));
    }
}

} // verus!
