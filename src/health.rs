//! Bounded-time health probes of single servers, the sweep over all enabled
//! servers, and the answer to an on-demand connection test.

use vstd::prelude::*;
use crate::string_map::{
    entries_view, from_entries, index_of_name, lemma_from_distinct_entries, lemma_index_of_name,
    StringMap,
};
use crate::text::{concat2, concat3};
use crate::transport::ConnectionError;

verus! {

/// How a probe of one server ended.
#[derive(Debug)]
pub enum ProbeOutcome {
    /// The connection was established; the server advertised this many tools.
    Success(usize),
    /// The attempt failed before the deadline.
    Failure(ConnectionError),
    /// The deadline passed before the attempt completed.
    Timeout,
}

/// What the caller observed of one connection attempt.
#[derive(Debug)]
pub enum AttemptReport {
    /// The attempt completed after `elapsed_ms` milliseconds.
    Finished { elapsed_ms: u64, result: Result<usize, ConnectionError> },
    /// The caller stopped waiting at the deadline.
    Abandoned,
}

/// The outcome of a probe with deadline `deadline_ms`: an attempt that did
/// not complete within the deadline is a timeout, whatever it would have
/// given.
pub open spec fn probe_outcome(deadline_ms: u64, report: AttemptReport) -> ProbeOutcome {
    match report {
        AttemptReport::Abandoned => ProbeOutcome::Timeout,
        AttemptReport::Finished { elapsed_ms, result } => if elapsed_ms > deadline_ms {
            ProbeOutcome::Timeout
        } else {
            match result {
                Ok(n) => ProbeOutcome::Success(n),
                Err(e) => ProbeOutcome::Failure(e),
            }
        },
    }
}

/// Resolves a probe with deadline `deadline_ms` from what was observed.
pub fn resolve_probe(deadline_ms: u64, report: AttemptReport) -> (r: ProbeOutcome)
    ensures
        r == probe_outcome(deadline_ms, report),
{
    match report {
        AttemptReport::Abandoned => ProbeOutcome::Timeout,
        AttemptReport::Finished { elapsed_ms, result } => {
            if elapsed_ms > deadline_ms {
                ProbeOutcome::Timeout
            } else {
                match result {
                    Ok(n) => ProbeOutcome::Success(n),
                    Err(e) => ProbeOutcome::Failure(e),
                }
            }
        },
    }
}

/// A probe whose deadline is shorter than the handshake takes times out: it
/// is neither a success nor a failure, whatever the attempt would have given.
pub proof fn law_slow_handshake_times_out(
    deadline_ms: u64,
    latency_ms: u64,
    result: Result<usize, ConnectionError>,
)
    requires
        deadline_ms < latency_ms,
    ensures
        probe_outcome(deadline_ms, AttemptReport::Finished { elapsed_ms: latency_ms, result })
            is Timeout,
        probe_outcome(deadline_ms, AttemptReport::Abandoned) is Timeout,
{
}

/// The text of a decimal digit.
pub open spec fn digit_text(d: nat) -> Seq<char> {
    if d == 0 { "0"@ }
    else if d == 1 { "1"@ }
    else if d == 2 { "2"@ }
    else if d == 3 { "3"@ }
    else if d == 4 { "4"@ }
    else if d == 5 { "5"@ }
    else if d == 6 { "6"@ }
    else if d == 7 { "7"@ }
    else if d == 8 { "8"@ }
    else { "9"@ }
}

/// The decimal text of a number, without leading zeros.
pub open spec fn decimal(n: nat) -> Seq<char>
    decreases n,
{
    if n < 10 {
        digit_text(n)
    } else {
        decimal(n / 10) + digit_text(n % 10)
    }
}

fn digit(d: usize) -> (r: &'static str)
    requires
        d < 10,
    ensures
        r@ == digit_text(d as nat),
{
    if d == 0 { "0" }
    else if d == 1 { "1" }
    else if d == 2 { "2" }
    else if d == 3 { "3" }
    else if d == 4 { "4" }
    else if d == 5 { "5" }
    else if d == 6 { "6" }
    else if d == 7 { "7" }
    else if d == 8 { "8" }
    else { "9" }
}

/// The decimal text of `n`.
pub fn decimal_text(n: usize) -> (r: String)
    ensures
        r@ == decimal(n as nat),
    decreases n,
{
    if n < 10 {
        digit(n).to_owned()
    } else {
        let mut s = decimal_text(n / 10);
        s.append(digit(n % 10));
        s
    }
}

/// The line a health report gives for one probed server.
pub open spec fn service_line(o: ProbeOutcome) -> Seq<char> {
    match o {
        ProbeOutcome::Success(n) => "healthy ("@ + decimal(n as nat) + " tools)"@,
        ProbeOutcome::Failure(e) => "error: "@ + e.spec_message(),
        ProbeOutcome::Timeout => "timeout"@,
    }
}

/// The line for one probed server.
pub fn service_status(o: &ProbeOutcome) -> (r: String)
    ensures
        r@ == service_line(*o),
{
    match o {
        ProbeOutcome::Success(n) => {
            let d = decimal_text(*n);
            concat3("healthy (", d.as_str(), " tools)")
        },
        ProbeOutcome::Failure(e) => concat2("error: ", e.message().as_str()),
        ProbeOutcome::Timeout => "timeout".to_string(),
    }
}

/// One probed server of a sweep: its name and how its probe ended.
#[derive(Debug)]
pub struct ServerProbe {
    pub server: String,
    pub outcome: ProbeOutcome,
}

/// The overall health and one line per service.
#[derive(Debug)]
pub struct HealthStatus {
    pub status: String,
    pub services: StringMap,
}

/// The service entries a sweep reports, before the language-model client's.
pub open spec fn probe_entries(probes: Seq<ServerProbe>) -> Seq<(Seq<char>, Seq<char>)> {
    probes.map_values(|p: ServerProbe| ("mcp_"@ + p.server@, service_line(p.outcome)))
}

/// The service entries of a sweep: one per probed server, or a note when
/// there is none or when the registry could not be read; then the
/// language-model client, which is always reported healthy.
pub open spec fn sweep_entries(probes: Result<Seq<ServerProbe>, Seq<char>>) -> Seq<(Seq<char>, Seq<char>)> {
    let body = match probes {
        Err(e) => seq![("mcp_servers"@, "database error: "@ + e)],
        Ok(p) => if p.len() == 0 {
            seq![("mcp_servers"@, "no servers configured"@)]
        } else {
            probe_entries(p)
        },
    };
    body.push(("llm_client"@, "healthy"@))
}

/// The overall status of a sweep: unhealthy when the registry could not be
/// read, degraded when any probe did not succeed, healthy otherwise.
pub open spec fn sweep_status(probes: Result<Seq<ServerProbe>, Seq<char>>) -> Seq<char> {
    match probes {
        Err(_) => "unhealthy"@,
        Ok(p) => if exists|i: int| 0 <= i < p.len() && !(#[trigger] p[i].outcome is Success) {
            "degraded"@
        } else {
            "healthy"@
        },
    }
}

/// The probes of a sweep as plain values.
pub open spec fn probes_view(probes: Result<Vec<ServerProbe>, String>) -> Result<Seq<ServerProbe>, Seq<char>> {
    match probes {
        Ok(p) => Ok(p@),
        Err(e) => Err(e@),
    }
}

/// The health report of a sweep over every enabled server. Each server is
/// reported on its own; an unreachable one degrades the status and never
/// stops the report.
pub fn health_report(probes: Result<Vec<ServerProbe>, String>) -> (r: HealthStatus)
    ensures
        r.status@ == sweep_status(probes_view(probes)),
        r.services@ == from_entries(sweep_entries(probes_view(probes))),
{
    let ghost pv = probes_view(probes);
    let mut pairs: Vec<(String, String)> = Vec::new();
    let mut degraded: bool = false;
    let unhealthy: bool;
    match &probes {
        Err(e) => {
            unhealthy = true;
            pairs.push(("mcp_servers".to_string(), concat2("database error: ", e.as_str())));
        },
        Ok(p) => {
            unhealthy = false;
            if p.len() == 0 {
                pairs.push(("mcp_servers".to_string(), "no servers configured".to_string()));
            } else {
                let n = p.len();
                let mut i: usize = 0;
                while i < n
                    invariant
                        0 <= i <= n,
                        n == p@.len(),
                        entries_view(pairs@) == probe_entries(p@).take(i as int),
                        degraded <==> exists|j: int| 0 <= j < i && !(#[trigger] p@[j].outcome is Success),
                    decreases n - i,
                {
                    let ghost before = pairs@;
                    let key = concat2("mcp_", p[i].server.as_str());
                    let line = service_status(&p[i].outcome);
                    if !matches!(p[i].outcome, ProbeOutcome::Success(_)) {
                        degraded = true;
                    }
                    pairs.push((key, line));
                    proof {
                        assert(entries_view(pairs@) =~= entries_view(before).push(
                            ("mcp_"@ + p@[i as int].server@, service_line(p@[i as int].outcome)),
                        ));
                        assert(probe_entries(p@).take(i as int + 1) =~= probe_entries(p@).take(
                            i as int,
                        ).push(("mcp_"@ + p@[i as int].server@, service_line(p@[i as int].outcome))));
                    }
                    i += 1;
                }
                proof {
                    assert(probe_entries(p@).take(n as int) =~= probe_entries(p@));
                }
            }
        },
    }
    let ghost before = pairs@;
    pairs.push(("llm_client".to_string(), "healthy".to_string()));
    proof {
        assert(entries_view(pairs@) =~= entries_view(before).push(("llm_client"@, "healthy"@)));
        assert(entries_view(pairs@) =~= sweep_entries(pv));
    }
    let status = if unhealthy {
        "unhealthy".to_string()
    } else if degraded {
        "degraded".to_string()
    } else {
        "healthy".to_string()
    };
    HealthStatus { status, services: StringMap::from_pairs(pairs) }
}

/// The answer to an on-demand connection test of one server.
#[derive(Debug, Clone)]
pub struct TestConnectionResponse {
    pub success: bool,
    pub tool_count: Option<usize>,
    pub error: Option<String>,
}

impl TestConnectionResponse {
    /// The answer for a completed attempt.
    pub fn from_result(result: &Result<usize, ConnectionError>) -> (r: TestConnectionResponse)
        ensures
            match result {
                Ok(n) => r.success && r.tool_count == Some(*n) && r.error is None,
                Err(e) => !r.success && r.tool_count is None && r.error is Some
                    && r.error->Some_0@ == e.spec_message(),
            },
    {
        match result {
            Ok(n) => TestConnectionResponse { success: true, tool_count: Some(*n), error: None },
            Err(e) => TestConnectionResponse {
                success: false,
                tool_count: None,
                error: Some(e.message().clone()),
            },
        }
    }

    /// The answer when no server has the requested id.
    pub fn not_found() -> (r: TestConnectionResponse)
        ensures
            !r.success && r.tool_count is None && r.error is Some && r.error->Some_0@
                == "Server not found"@,
    {
        TestConnectionResponse {
            success: false,
            tool_count: None,
            error: Some("Server not found".to_string()),
        }
    }

    /// The answer when the registry could not be read.
    pub fn database_error() -> (r: TestConnectionResponse)
        ensures
            !r.success && r.tool_count is None && r.error is Some && r.error->Some_0@
                == "Database error"@,
    {
        TestConnectionResponse {
            success: false,
            tool_count: None,
            error: Some("Database error".to_string()),
        }
    }
}

/// In a sweep over servers of distinct names, a server whose handshake
/// outlasts the deadline is reported as `timeout`, and the sweep is degraded.
pub proof fn law_slow_server_reported_as_timeout(
    probes: Seq<ServerProbe>,
    i: int,
    deadline_ms: u64,
    latency_ms: u64,
    result: Result<usize, ConnectionError>,
)
    requires
        0 <= i < probes.len(),
        deadline_ms < latency_ms,
        probes[i].outcome == probe_outcome(
            deadline_ms,
            AttemptReport::Finished { elapsed_ms: latency_ms, result },
        ),
        forall|a: int, b: int|
            0 <= a < b < probes.len() ==> (#[trigger] probes[a]).server@ != (#[trigger] probes[b]).server@,
    ensures
        sweep_status(Ok(probes)) == "degraded"@,
        ({
            let m = from_entries(sweep_entries(Ok(probes)));
            &&& index_of_name(m, "mcp_"@ + probes[i].server@) == Some(i)
            &&& m[i].1 == "timeout"@
        }),
{
    let pe = probe_entries(probes);
    let e = sweep_entries(Ok(probes));
    assert(!(probes[i].outcome is Success));
    assert(e == pe.push(("llm_client"@, "healthy"@)));
    reveal_strlit("mcp_");
    reveal_strlit("llm_client");
    assert forall|a: int, b: int| 0 <= a < b < e.len() implies #[trigger] e[a].0 != #[trigger] e[b].0 by {
        if b < pe.len() {
            assert(e[a] == pe[a] && e[b] == pe[b]);
            if e[a].0 == e[b].0 {
                assert(pe[a].0.skip(4) =~= probes[a].server@);
                assert(pe[b].0.skip(4) =~= probes[b].server@);
            }
        } else {
            assert(e[a] == pe[a]);
            assert(e[a].0[0] == 'm');
            assert(e[b].0[0] == 'l');
        }
    }
    lemma_from_distinct_entries(e);
    assert(e[i] == pe[i]);
    lemma_index_of_name(e, i);
}

} // verus!
