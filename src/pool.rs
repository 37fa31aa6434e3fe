//! Live connections, the aggregation of connection attempts across servers,
//! and the catalog of the tools they advertise.

use vstd::prelude::*;
use crate::transport::ConnectionError;

verus! {

/// A live connection: the tools the server advertised, the handle through
/// which they are called, and the resource that keeps the transport open.
/// The handle works only while the connection, and so that resource, is kept.
#[derive(Debug)]
pub struct MCPConnection<T, P, K> {
    pub name: String,
    pub tools: Vec<T>,
    pub peer: P,
    /// Owns the transport; dropping it closes the transport.
    pub keep_alive: K,
}

impl<T, P, K> MCPConnection<T, P, K> {
    /// A connection to server `name` that owns `keep_alive` for as long as it
    /// lives.
    pub fn new(name: String, tools: Vec<T>, peer: P, keep_alive: K) -> (r: MCPConnection<T, P, K>)
        ensures
            r.name == name,
            r.tools == tools,
            r.peer == peer,
            r.keep_alive == keep_alive,
    {
        MCPConnection { name, tools, peer, keep_alive }
    }

    /// The number of tools the server advertised.
    pub fn tool_count(&self) -> (r: usize)
        ensures
            r == self.tools@.len(),
    {
        self.tools.len()
    }
}

/// A server whose connection attempt failed, with the reason.
#[derive(Debug)]
pub struct AttemptFailure {
    pub server: String,
    pub error: ConnectionError,
}

/// The result of attempting every enabled server: the live connections in
/// the order of the attempts, and the failures, each with its server.
#[derive(Debug)]
pub struct Aggregate<C> {
    pub connections: Vec<C>,
    pub failures: Vec<AttemptFailure>,
}

/// The successful outcomes, in order.
pub open spec fn successes<C>(s: Seq<(String, Result<C, ConnectionError>)>) -> Seq<C>
    decreases s.len(),
{
    if s.len() == 0 {
        Seq::empty()
    } else {
        match s.last().1 {
            Ok(c) => successes(s.drop_last()).push(c),
            Err(_) => successes(s.drop_last()),
        }
    }
}

/// The failed outcomes with their servers, in order.
pub open spec fn failures<C>(s: Seq<(String, Result<C, ConnectionError>)>) -> Seq<(String, ConnectionError)>
    decreases s.len(),
{
    if s.len() == 0 {
        Seq::empty()
    } else {
        match s.last().1 {
            Ok(_) => failures(s.drop_last()),
            Err(e) => failures(s.drop_last()).push((s.last().0, e)),
        }
    }
}

/// Collects the outcomes of one attempt per server. A failure never stops
/// the others and never fails the whole: it is recorded with its server.
pub fn aggregate_attempts<C>(attempts: Vec<(String, Result<C, ConnectionError>)>) -> (r: Aggregate<C>)
    ensures
        r.connections@ == successes(attempts@),
        r.failures@.map_values(|f: AttemptFailure| (f.server, f.error)) == failures(attempts@),
{
    let mut connections: Vec<C> = Vec::new();
    let mut fails: Vec<AttemptFailure> = Vec::new();
    let ghost all = attempts@;
    for a in it: attempts.into_iter()
        invariant
            it.seq() == all,
            connections@ == successes(all.take(it.index() as int)),
            fails@.map_values(|f: AttemptFailure| (f.server, f.error)) == failures(
                all.take(it.index() as int),
            ),
    {
        let ghost i = it.index() as int;
        proof {
            assert(all.take(i + 1).drop_last() =~= all.take(i));
            assert(all.take(i + 1).last() == all[i]);
        }
        let (server, outcome) = a;
        match outcome {
            Ok(c) => {
                connections.push(c);
            },
            Err(error) => {
                let ghost before = fails@;
                let ghost entry = (server, error);
                fails.push(AttemptFailure { server, error });
                proof {
                    assert(fails@.map_values(|f: AttemptFailure| (f.server, f.error)) =~= before.map_values(
                        |f: AttemptFailure| (f.server, f.error),
                    ).push(entry));
                }
            },
        }
    }
    proof {
        assert(all.take(all.len() as int) =~= all);
    }
    Aggregate { connections, failures: fails }
}

/// Every attempt ends either among the connections or among the failures:
/// with `k` failures out of `n` attempts there are `n - k` connections, and
/// no attempt at all gives no connection and no failure.
pub proof fn law_aggregate_partitions<C>(attempts: Seq<(String, Result<C, ConnectionError>)>)
    ensures
        successes(attempts).len() + failures(attempts).len() == attempts.len(),
        attempts.len() == 0 ==> successes(attempts).len() == 0 && failures(attempts).len() == 0,
    decreases attempts.len(),
{
    if attempts.len() > 0 {
        law_aggregate_partitions(attempts.drop_last());
    }
}

/// One tool of the catalog: the connection that advertised it, its position
/// in that connection's tool list, and its name.
#[derive(Debug, Clone, Copy, PartialEq, Eq)]
pub struct ToolRoute {
    pub connection: usize,
    pub tool: usize,
}

/// The entries that connection `c` with tools `names` contributes.
pub open spec fn entries_of(c: int, names: Seq<Seq<char>>) -> Seq<(int, int, Seq<char>)> {
    Seq::new(names.len(), |t: int| (c, t, names[t]))
}

/// The catalog of the tools of connections with the given tool names: the
/// tools of each connection in turn, each routed to its own connection.
pub open spec fn catalog_of(names: Seq<Seq<Seq<char>>>) -> Seq<(int, int, Seq<char>)>
    decreases names.len(),
{
    if names.len() == 0 {
        Seq::empty()
    } else {
        catalog_of(names.drop_last()) + entries_of(names.len() - 1, names.last())
    }
}

/// The catalog as plain values.
pub open spec fn catalog_view(v: Seq<(ToolRoute, String)>) -> Seq<(int, int, Seq<char>)> {
    v.map_values(|e: (ToolRoute, String)| (e.0.connection as int, e.0.tool as int, e.1@))
}

/// The tool names of each connection, as plain values.
pub open spec fn names_view(v: Seq<Vec<String>>) -> Seq<Seq<Seq<char>>> {
    v.map_values(|l: Vec<String>| crate::json::strings_view(l@))
}

/// Flattens the tools of all live connections into one catalog, keeping
/// for each tool the connection that owns it.
pub fn build_catalog(tool_names: &Vec<Vec<String>>) -> (r: Vec<(ToolRoute, String)>)
    ensures
        catalog_view(r@) == catalog_of(names_view(tool_names@)),
{
    let ghost all = names_view(tool_names@);
    let mut out: Vec<(ToolRoute, String)> = Vec::new();
    let n = tool_names.len();
    let mut c: usize = 0;
    while c < n
        invariant
            0 <= c <= n,
            n == tool_names@.len(),
            all == names_view(tool_names@),
            catalog_view(out@) == catalog_of(all.take(c as int)),
        decreases n - c,
    {
        let list = &tool_names[c];
        let ghost base = out@;
        let ghost lv = all[c as int];
        assert(lv == crate::json::strings_view(list@));
        let m = list.len();
        let mut t: usize = 0;
        while t < m
            invariant
                0 <= t <= m,
                m == list@.len(),
                c < n,
                lv == crate::json::strings_view(list@),
                catalog_view(out@) == catalog_view(base) + entries_of(c as int, lv).take(t as int),
            decreases m - t,
        {
            let ghost before = out@;
            out.push((ToolRoute { connection: c, tool: t }, list[t].clone()));
            proof {
                assert(catalog_view(out@) =~= catalog_view(before).push((c as int, t as int, lv[t as int])));
                assert(entries_of(c as int, lv).take(t as int + 1) =~= entries_of(c as int, lv).take(
                    t as int,
                ).push((c as int, t as int, lv[t as int])));
            }
            t += 1;
        }
        proof {
            assert(entries_of(c as int, lv).take(m as int) =~= entries_of(c as int, lv));
            assert(all.take(c as int + 1).drop_last() =~= all.take(c as int));
            assert(all.take(c as int + 1).last() == lv);
        }
        c += 1;
    }
    proof {
        assert(all.take(n as int) =~= all);
    }
    out
}

/// Each catalog entry names a tool of the connection it routes to, and no
/// two entries route to the same tool of the same connection: tools of the
/// same name advertised by different connections stay separate entries,
/// each callable only through its own connection.
pub proof fn law_catalog_routes_to_owner(names: Seq<Seq<Seq<char>>>)
    ensures
        forall|k: int|
            0 <= k < catalog_of(names).len() ==> {
                let e = #[trigger] catalog_of(names)[k];
                &&& 0 <= e.0 < names.len()
                &&& 0 <= e.1 < names[e.0].len()
                &&& names[e.0][e.1] == e.2
            },
        forall|a: int, b: int|
            0 <= a < b < catalog_of(names).len() ==> (#[trigger] catalog_of(names)[a]).0 != (
            #[trigger] catalog_of(names)[b]).0 || catalog_of(names)[a].1 != catalog_of(names)[b].1,
    decreases names.len(),
{
    if names.len() > 0 {
        let init = names.drop_last();
        law_catalog_routes_to_owner(init);
        let pre = catalog_of(init);
        let last = entries_of(names.len() - 1, names.last());
        let cat = catalog_of(names);
        assert(cat == pre + last);
        assert forall|k: int| 0 <= k < cat.len() implies {
            let e = #[trigger] cat[k];
            &&& 0 <= e.0 < names.len()
            &&& 0 <= e.1 < names[e.0].len()
            &&& names[e.0][e.1] == e.2
        } by {
            if k < pre.len() {
                assert(cat[k] == pre[k]);
                assert(init[pre[k].0] == names[pre[k].0]);
            } else {
                assert(cat[k] == last[k - pre.len()]);
            }
        }
        assert forall|a: int, b: int| 0 <= a < b < cat.len() implies (#[trigger] cat[a]).0 != (
        #[trigger] cat[b]).0 || cat[a].1 != cat[b].1 by {
            if b < pre.len() {
                assert(cat[a] == pre[a] && cat[b] == pre[b]);
            } else if a < pre.len() {
                assert(cat[a] == pre[a]);
                assert(cat[b] == last[b - pre.len()]);
                assert(pre[a].0 < init.len());
            } else {
                assert(cat[a] == last[a - pre.len()]);
                assert(cat[b] == last[b - pre.len()]);
            }
        }
    }
}

} // verus!
