use crate::error::Error;
use crate::options::views;
use vstd::prelude::*;

verus! {

/// The HTTP client that the caller may hand in for HTTP probes.
#[verifier::external_type_specification]
#[verifier::external_body]
pub struct ExClient(reqwest::Client);

/// How a target is probed.
#[derive(Debug, Clone, Copy, PartialEq, Eq, Structural)]
pub enum ConnectionType {
    HTTP,
    TCP,
}

/// The probing engine: the targets of a run and how long to wait for each.
#[derive(Debug, Clone)]
pub struct CanIConnect {
    pub http: Vec<String>,
    pub tcp: Vec<String>,
    pub timeout: usize,
    pub server_mode: bool,
    pub listen_addr: String,
    pub http_client: Option<reqwest::Client>,
}

/// The hosts that answered and those that did not, in the order probed.
#[derive(Debug, Clone)]
pub struct ConnectionReport {
    pub successful_hosts: Vec<String>,
    pub failed_hosts: Vec<String>,
}

/// What a report holds.
pub struct ReportView {
    pub successful: Seq<Seq<char>>,
    pub failed: Seq<Seq<char>>,
}

impl ReportView {
    /// The report with `host` added to the successful or the failed list.
    pub open spec fn add(self, host: Seq<char>, reachable: bool) -> ReportView {
        if reachable {
            ReportView { successful: self.successful.push(host), failed: self.failed }
        } else {
            ReportView { successful: self.successful, failed: self.failed.push(host) }
        }
    }
}

impl View for ConnectionReport {
    type V = ReportView;

    open spec fn view(&self) -> ReportView {
        ReportView { successful: views(self.successful_hosts@), failed: views(self.failed_hosts@) }
    }
}

/// The probes of one pass, in order: every HTTP target, then every TCP target.
pub open spec fn probe_list(http: Seq<Seq<char>>, tcp: Seq<Seq<char>>) -> Seq<
    (ConnectionType, Seq<char>),
> {
    http.map_values(|h: Seq<char>| (ConnectionType::HTTP, h)) + tcp.map_values(
        |h: Seq<char>| (ConnectionType::TCP, h),
    )
}

/// Whether a probe outcome counts the host as reachable: for HTTP any answer
/// does, for TCP only a connection made.
pub open spec fn probe_succeeded(kind: ConnectionType, outcome: core::result::Result<bool, Error>) -> bool {
    match kind {
        ConnectionType::HTTP => outcome is Ok,
        ConnectionType::TCP => outcome == Ok::<bool, Error>(true),
    }
}

/// Whether the probe at position `k` reached its host: its outcome is there
/// and counts as reachable. A probe without an outcome did not reach it.
pub open spec fn reached(
    kind: ConnectionType,
    outcomes: Seq<core::result::Result<bool, Error>>,
    k: int,
) -> bool {
    0 <= k < outcomes.len() && probe_succeeded(kind, outcomes[k])
}

/// The report that a pass over `probes` produces, where `outcomes[k]` is the
/// outcome of the probe at position `k`.
pub open spec fn tally(
    probes: Seq<(ConnectionType, Seq<char>)>,
    outcomes: Seq<core::result::Result<bool, Error>>,
) -> ReportView
    decreases probes.len(),
{
    if probes.len() == 0 {
        ReportView { successful: Seq::empty(), failed: Seq::empty() }
    } else {
        tally(probes.drop_last(), outcomes).add(
            probes.last().1,
            reached(probes.last().0, outcomes, probes.len() - 1),
        )
    }
}

impl CanIConnect {
    /// The probes that a report pass over this engine makes.
    pub open spec fn probes(&self) -> Seq<(ConnectionType, Seq<char>)> {
        probe_list(views(self.http@), views(self.tcp@))
    }

    /// The number of targets, HTTP and TCP together.
    pub fn hosts_total(&self) -> (r: usize)
        requires
            self.http@.len() + self.tcp@.len() <= usize::MAX,
        ensures
            r == self.http@.len() + self.tcp@.len(),
    {
        self.http.len() + self.tcp.len()
    }

    /// The probe at position `step` of a report pass, if the pass has that many.
    pub fn probe_at(&self, step: usize) -> (r: Option<(ConnectionType, String)>)
        ensures
            step < self.probes().len() ==> (r matches Some(p) && p.0 == self.probes()[step as int].0
                && p.1@ == self.probes()[step as int].1),
            step >= self.probes().len() ==> r is None,
    {
        if step < self.http.len() {
            Some((ConnectionType::HTTP, self.http[step].clone()))
        } else if step - self.http.len() < self.tcp.len() {
            Some((ConnectionType::TCP, self.tcp[step - self.http.len()].clone()))
        } else {
            None
        }
    }
}

/// Whether a probe outcome counts the host as reachable: for HTTP any answer
/// does, whatever its status; for TCP only a connection made.
pub fn is_reachable(kind: ConnectionType, outcome: &core::result::Result<bool, Error>) -> (r: bool)
    ensures
        r == probe_succeeded(kind, *outcome),
{
    match kind {
        ConnectionType::HTTP => outcome.is_ok(),
        ConnectionType::TCP => match outcome {
            Ok(connected) => *connected,
            Err(_) => false,
        },
    }
}

impl ConnectionReport {
    /// A report with no host in it.
    pub fn new() -> (r: ConnectionReport)
        ensures
            r@ == (ReportView { successful: Seq::empty(), failed: Seq::empty() }),
    {
        let r = ConnectionReport { successful_hosts: Vec::new(), failed_hosts: Vec::new() };
        assert(r@.successful =~= Seq::empty());
        assert(r@.failed =~= Seq::empty());
        r
    }

    /// Adds `host` to the successful list if `reachable`, else to the failed list.
    pub fn record(&mut self, host: String, reachable: bool)
        ensures
            final(self)@ == old(self)@.add(host@, reachable),
    {
        let ghost before = self@;
        if reachable {
            self.successful_hosts.push(host);
        } else {
            self.failed_hosts.push(host);
        }
        assert(self@.successful =~= before.add(host@, reachable).successful);
        assert(self@.failed =~= before.add(host@, reachable).failed);
    }
}

impl CanIConnect {
    /// The outcome at position `k`, classified for a probe of `kind`; a
    /// position with no outcome counts as not reached.
    fn reached_at(kind: ConnectionType, outcomes: &Vec<core::result::Result<bool, Error>>, k: Option<usize>) -> (r: bool)
        ensures
            r == match k {
                Some(k) => reached(kind, outcomes@, k as int),
                None => false,
            },
    {
        match k {
            Some(k) => k < outcomes.len() && is_reachable(kind, &outcomes[k]),
            None => false,
        }
    }

    /// The report of a pass, given the outcome of each probe at the position
    /// that `probe_at` gives it. Every target lands in exactly one list; HTTP
    /// targets come first, each list keeps the order of probing, and a target
    /// named twice is reported twice. A probe with no outcome counts as failed.
    pub fn connection_report(&self, outcomes: &Vec<core::result::Result<bool, Error>>) -> (r:
        ConnectionReport)
        ensures
            r@ == tally(self.probes(), outcomes@),
    {
        let mut report = ConnectionReport::new();
        let ghost probes = self.probes();
        let n_http = self.http.len();
        let mut i: usize = 0;
        assert(probes.take(0) =~= Seq::<(ConnectionType, Seq<char>)>::empty());
        while i < n_http
            invariant
                probes == self.probes(),
                n_http == self.http@.len(),
                i <= n_http,
                report@ == tally(probes.take(i as int), outcomes@),
            decreases n_http - i,
        {
            let reachable = Self::reached_at(ConnectionType::HTTP, outcomes, Some(i));
            proof {
                assert(probes.take(i + 1).drop_last() =~= probes.take(i as int));
                assert(probes[i as int] == (ConnectionType::HTTP, self.http@[i as int]@));
            }
            report.record(self.http[i].clone(), reachable);
            i = i + 1;
        }
        let n_tcp = self.tcp.len();
        let n_out = outcomes.len();
        let mut j: usize = 0;
        while j < n_tcp
            invariant
                probes == self.probes(),
                n_http == self.http@.len(),
                n_tcp == self.tcp@.len(),
                n_out == outcomes@.len(),
                j <= n_tcp,
                report@ == tally(probes.take(n_http + j), outcomes@),
            decreases n_tcp - j,
        {
            let reachable = Self::reached_at(ConnectionType::TCP, outcomes, n_http.checked_add(j));
            proof {
                let p = n_http + j;
                assert(probes.take(p + 1).drop_last() =~= probes.take(p));
                assert(probes[p] == (ConnectionType::TCP, self.tcp@[j as int]@));
                assert(p > usize::MAX ==> !reached(ConnectionType::TCP, outcomes@, p));
            }
            report.record(self.tcp[j].clone(), reachable);
            j = j + 1;
        }
        assert(probes.take(n_http + n_tcp) =~= probes);
        report
    }
}

/// Every probe of a pass is counted once: the two lists of the report hold as
/// many hosts together as there were probes.
pub proof fn lemma_tally_counts_every_probe(
    probes: Seq<(ConnectionType, Seq<char>)>,
    outcomes: Seq<core::result::Result<bool, Error>>,
)
    ensures
        tally(probes, outcomes).successful.len() + tally(probes, outcomes).failed.len()
            == probes.len(),
    decreases probes.len(),
{
    if probes.len() > 0 {
        lemma_tally_counts_every_probe(probes.drop_last(), outcomes);
    }
}

/// For any engine and any outcomes, the report of a pass holds as many hosts,
/// successful and failed together, as the engine has HTTP and TCP targets.
pub proof fn lemma_report_accounts_for_all_targets(
    engine: CanIConnect,
    outcomes: Seq<core::result::Result<bool, Error>>,
)
    ensures
        engine.probes().len() == engine.http@.len() + engine.tcp@.len(),
        tally(engine.probes(), outcomes).successful.len() + tally(
            engine.probes(),
            outcomes,
        ).failed.len() == engine.http@.len() + engine.tcp@.len(),
{
    lemma_tally_counts_every_probe(engine.probes(), outcomes);
}

/// The probe at position `k` files its host in the successful list when it
/// reached the host, and in the failed list when it did not.
pub proof fn lemma_probe_filed(
    probes: Seq<(ConnectionType, Seq<char>)>,
    outcomes: Seq<core::result::Result<bool, Error>>,
    k: int,
)
    requires
        0 <= k < probes.len(),
    ensures
        reached(probes[k].0, outcomes, k) ==> tally(probes, outcomes).successful.contains(
            probes[k].1,
        ),
        !reached(probes[k].0, outcomes, k) ==> tally(probes, outcomes).failed.contains(
            probes[k].1,
        ),
    decreases probes.len(),
{
    let prev = tally(probes.drop_last(), outcomes);
    let last = probes.len() - 1;
    if k == last {
        assert(prev.successful.push(probes[k].1)[prev.successful.len() as int] == probes[k].1);
        assert(prev.failed.push(probes[k].1)[prev.failed.len() as int] == probes[k].1);
    } else {
        assert(probes.drop_last()[k] == probes[k]);
        lemma_probe_filed(probes.drop_last(), outcomes, k);
        if reached(probes[k].0, outcomes, k) {
            let w = choose|w: int| 0 <= w < prev.successful.len() && prev.successful[w] == probes[k].1;
            assert(prev.successful.push(probes[last].1)[w] == probes[k].1);
        } else {
            let w = choose|w: int| 0 <= w < prev.failed.len() && prev.failed[w] == probes[k].1;
            assert(prev.failed.push(probes[last].1)[w] == probes[k].1);
        }
    }
}

/// Two passes over the same targets whose probes reach the same hosts give the
/// same report, in content and order; what an error said does not matter.
pub proof fn lemma_report_repeatable(
    probes: Seq<(ConnectionType, Seq<char>)>,
    first: Seq<core::result::Result<bool, Error>>,
    second: Seq<core::result::Result<bool, Error>>,
)
    requires
        forall|k: int|
            0 <= k < probes.len() ==> #[trigger] reached(probes[k].0, first, k) == reached(
                probes[k].0,
                second,
                k,
            ),
    ensures
        tally(probes, first) == tally(probes, second),
    decreases probes.len(),
{
    if probes.len() > 0 {
        let p = probes.drop_last();
        assert forall|k: int| 0 <= k < p.len() implies #[trigger] reached(p[k].0, first, k)
            == reached(p[k].0, second, k) by {
            assert(p[k] == probes[k]);
            assert(reached(probes[k].0, first, k) == reached(probes[k].0, second, k));
        }
        lemma_report_repeatable(p, first, second);
        assert(reached(probes.last().0, first, probes.len() - 1) == reached(
            probes.last().0,
            second,
            probes.len() - 1,
        ));
    }
}

} // verus!
