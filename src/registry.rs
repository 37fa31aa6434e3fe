//! The registry of server configurations: an in-memory store with the same
//! rules as the persistent one (unique names, fresh ids, a transport kind
//! fixed at creation, built-in configurations seeded idempotently).

use vstd::prelude::*;
use crate::clock::get_current_timestamp;
use crate::models::{
    merged, registered, transport_error, CreateMcpServer, CreateView, McpServer, ServerView,
    UpdateMcpServer,
};
use crate::native::{get_native_mcp_servers, native_catalog};
use crate::text::{lemma_text_before_total, lemma_text_before_transitive, same_text, text_before, text_less};

verus! {

/// Why the registry refused a change.
#[derive(Debug, Clone)]
pub enum RegistryError {
    /// The configuration is not valid; the message says why.
    Invalid(String),
    /// Another configuration already has this name.
    NameTaken,
    /// No further id can be given out.
    Full,
}

/// The plain values of each stored configuration.
pub open spec fn views(v: Seq<McpServer>) -> Seq<ServerView> {
    v.map_values(|s: McpServer| s@)
}

/// Ids are positive, below `next`, and distinct; names are distinct; every
/// configuration has the field its transport needs.
pub open spec fn registry_wf(rows: Seq<ServerView>, next: i64) -> bool {
    &&& next >= 1
    &&& forall|i: int| 0 <= i < rows.len() ==> 1 <= #[trigger] rows[i].id < next
    &&& forall|i: int| 0 <= i < rows.len() ==> transport_error(#[trigger] rows[i].transport) is None
    &&& forall|i: int, j: int|
        0 <= i < rows.len() && 0 <= j < rows.len() && i != j ==> #[trigger] rows[i].id
            != #[trigger] rows[j].id && rows[i].name != rows[j].name
}

/// The position of the configuration with id `id`, if any.
pub open spec fn find_id(rows: Seq<ServerView>, id: i64) -> Option<int> {
    if exists|i: int| 0 <= i < rows.len() && #[trigger] rows[i].id == id {
        Some(choose|i: int| 0 <= i < rows.len() && #[trigger] rows[i].id == id)
    } else {
        None
    }
}

/// Whether a configuration other than the one at `skip` has name `name`.
pub open spec fn name_used(rows: Seq<ServerView>, name: Seq<char>, skip: int) -> bool {
    exists|i: int| 0 <= i < rows.len() && i != skip && #[trigger] rows[i].name == name
}

/// Whether a built-in configuration named `name` is stored.
pub open spec fn has_native_named(rows: Seq<ServerView>, name: Seq<char>) -> bool {
    exists|i: int| 0 <= i < rows.len() && #[trigger] rows[i].name == name && rows[i].is_native
}

/// Adding a configuration with a fresh id and an unused name keeps the
/// registry well formed.
pub proof fn lemma_wf_push(rows: Seq<ServerView>, next: i64, v: ServerView)
    requires
        registry_wf(rows, next),
        v.id == next,
        next < i64::MAX,
        !name_used(rows, v.name, -1),
        transport_error(v.transport) is None,
    ensures
        registry_wf(rows.push(v), (next + 1) as i64),
{
    let r = rows.push(v);
    assert forall|i: int, j: int|
        0 <= i < r.len() && 0 <= j < r.len() && i != j implies #[trigger] r[i].id != #[trigger] r[j].id
        && r[i].name != r[j].name by {
        if i < rows.len() && j < rows.len() {
            assert(rows[i] == r[i] && rows[j] == r[j]);
        } else if i < rows.len() {
            assert(rows[i] == r[i]);
            assert(!(rows[i].name == v.name));
        } else {
            assert(rows[j] == r[j]);
            assert(!(rows[j].name == v.name));
        }
    }
    assert forall|i: int| 0 <= i < r.len() implies 1 <= #[trigger] r[i].id < next + 1 by {
        if i < rows.len() {
            assert(rows[i] == r[i]);
        }
    }
    assert forall|i: int| 0 <= i < r.len() implies transport_error(#[trigger] r[i].transport) is None by {
        if i < rows.len() {
            assert(rows[i] == r[i]);
        }
    }
}

/// Replacing the configuration at `i` by one with the same id and a name no
/// other configuration holds keeps the registry well formed.
pub proof fn lemma_wf_update(rows: Seq<ServerView>, next: i64, i: int, v: ServerView)
    requires
        registry_wf(rows, next),
        0 <= i < rows.len(),
        v.id == rows[i].id,
        !name_used(rows, v.name, i),
        transport_error(v.transport) is None,
    ensures
        registry_wf(rows.update(i, v), next),
{
    let r = rows.update(i, v);
    assert forall|a: int, b: int|
        0 <= a < r.len() && 0 <= b < r.len() && a != b implies #[trigger] r[a].id != #[trigger] r[b].id
        && r[a].name != r[b].name by {
        if a != i && b != i {
            assert(rows[a] == r[a] && rows[b] == r[b]);
        } else if a == i {
            assert(rows[b] == r[b]);
            assert(rows[i].id != rows[b].id);
            assert(!(rows[b].name == v.name));
        } else {
            assert(rows[a] == r[a]);
            assert(rows[i].id != rows[a].id);
            assert(!(rows[a].name == v.name));
        }
    }
    assert forall|a: int| 0 <= a < r.len() implies 1 <= #[trigger] r[a].id < next by {
        if a != i {
            assert(rows[a] == r[a]);
        } else {
            assert(1 <= rows[i].id < next);
        }
    }
    assert forall|a: int| 0 <= a < r.len() implies transport_error(#[trigger] r[a].transport) is None by {
        if a != i {
            assert(rows[a] == r[a]);
        } else {
            assert(1 <= rows[i].id < next);
        }
    }
}

/// Removing a configuration keeps the registry well formed.
pub proof fn lemma_wf_remove(rows: Seq<ServerView>, next: i64, i: int)
    requires
        registry_wf(rows, next),
        0 <= i < rows.len(),
    ensures
        registry_wf(rows.remove(i), next),
{
    let r = rows.remove(i);
    assert forall|a: int, b: int|
        0 <= a < r.len() && 0 <= b < r.len() && a != b implies #[trigger] r[a].id != #[trigger] r[b].id
        && r[a].name != r[b].name by {
        let a0 = if a < i { a } else { a + 1 };
        let b0 = if b < i { b } else { b + 1 };
        assert(r[a] == rows[a0] && r[b] == rows[b0]);
    }
    assert forall|a: int| 0 <= a < r.len() implies 1 <= #[trigger] r[a].id < next by {
        let a0 = if a < i { a } else { a + 1 };
        assert(r[a] == rows[a0]);
    }
    assert forall|a: int| 0 <= a < r.len() implies transport_error(#[trigger] r[a].transport) is None by {
        let a0 = if a < i { a } else { a + 1 };
        assert(r[a] == rows[a0]);
    }
}

/// How seeding the built-in configurations ended.
pub enum SeedStatus {
    Done,
    NameTaken,
    Full,
}

/// The rows, next id and status after seeding the configurations of `cat` in
/// order at time `now`: one already stored as built-in is skipped; one whose
/// name a user configuration holds stops the seeding.
pub open spec fn seeded(rows: Seq<ServerView>, next: i64, cat: Seq<CreateView>, now: Seq<char>) -> (
    Seq<ServerView>,
    i64,
    SeedStatus,
)
    decreases cat.len(),
{
    if cat.len() == 0 {
        (rows, next, SeedStatus::Done)
    } else {
        match seed_action_of(rows, cat[0]) {
            SeedAction::Skip => seeded(rows, next, cat.drop_first(), now),
            SeedAction::Stop => (rows, next, SeedStatus::NameTaken),
            SeedAction::Insert => if next == i64::MAX {
                (rows, next, SeedStatus::Full)
            } else {
                seeded(
                    rows.push(registered(cat[0], next, true, now)),
                    (next + 1) as i64,
                    cat.drop_first(),
                    now,
                )
            },
        }
    }
}

/// The configurations that are not built in, in order.
pub open spec fn without_natives(rows: Seq<ServerView>) -> Seq<ServerView> {
    rows.filter(|v: ServerView| !v.is_native)
}

/// Which configurations a listing returns.
pub enum Selection {
    All,
    Enabled,
    Native,
    Custom,
}

pub open spec fn selects(sel: Selection, v: ServerView) -> bool {
    match sel {
        Selection::All => true,
        Selection::Enabled => v.enabled,
        Selection::Native => v.is_native,
        Selection::Custom => !v.is_native,
    }
}

/// Whether the configurations are in ascending order of name.
pub open spec fn sorted_by_name(s: Seq<ServerView>) -> bool {
    forall|i: int, j: int| 0 <= i < j < s.len() ==> text_before(#[trigger] s[i].name, #[trigger] s[j].name)
}

/// `s` holds exactly the configurations of `t`, in ascending order of name.
pub open spec fn listed_by_name(s: Seq<ServerView>, t: Seq<ServerView>) -> bool {
    &&& s.len() == t.len()
    &&& forall|x: ServerView| s.contains(x) <==> t.contains(x)
    &&& sorted_by_name(s)
}

/// No two configurations share a name.
pub open spec fn names_unique(s: Seq<ServerView>) -> bool {
    forall|i: int, j: int| 0 <= i < j < s.len() ==> (#[trigger] s[i]).name != (#[trigger] s[j]).name
}

/// A well-formed registry has no two configurations of the same name.
proof fn lemma_wf_names_unique(rows: Seq<ServerView>, next: i64)
    requires
        registry_wf(rows, next),
    ensures
        names_unique(rows),
{
    assert forall|i: int, j: int| 0 <= i < j < rows.len() implies (#[trigger] rows[i]).name != (
    #[trigger] rows[j]).name by {
        assert(rows[i].id != rows[j].id && rows[i].name != rows[j].name);
    }
}

/// Inserting `x` where everything before comes earlier and everything after
/// comes later keeps the order.
proof fn lemma_insert_sorted(s: Seq<ServerView>, p: int, x: ServerView)
    requires
        sorted_by_name(s),
        0 <= p <= s.len(),
        forall|i: int| 0 <= i < p ==> text_before(#[trigger] s[i].name, x.name),
        forall|i: int| p <= i < s.len() ==> text_before(x.name, #[trigger] s[i].name),
    ensures
        sorted_by_name(s.insert(p, x)),
        forall|y: ServerView| s.insert(p, x).contains(y) <==> (s.contains(y) || y == x),
{
    let t = s.insert(p, x);
    assert forall|i: int, j: int| 0 <= i < j < t.len() implies text_before(#[trigger] t[i].name, #[trigger] t[j].name) by {
        if j < p {
            assert(t[i] == s[i] && t[j] == s[j]);
        } else if j == p {
            assert(t[i] == s[i]);
        } else if i < p {
            assert(t[i] == s[i] && t[j] == s[j - 1]);
            lemma_text_before_transitive(s[i].name, x.name, s[j - 1].name);
        } else if i == p {
            assert(t[j] == s[j - 1]);
        } else {
            assert(t[i] == s[i - 1] && t[j] == s[j - 1]);
        }
    }
    assert forall|y: ServerView| t.contains(y) <==> (s.contains(y) || y == x) by {
        if t.contains(y) {
            let k = choose|k: int| 0 <= k < t.len() && #[trigger] t[k] == y;
            if k < p {
                assert(s[k] == y);
            } else if k > p {
                assert(s[k - 1] == y);
            }
        }
        if s.contains(y) {
            let k = choose|k: int| 0 <= k < s.len() && #[trigger] s[k] == y;
            if k < p {
                assert(t[k] == y);
            } else {
                assert(t[k + 1] == y);
            }
        }
        if y == x {
            assert(t[p] == y);
        }
    }
}

/// The configurations of `v` in ascending order of name.
fn sort_by_name(v: Vec<McpServer>) -> (r: Vec<McpServer>)
    requires
        names_unique(views(v@)),
    ensures
        listed_by_name(views(r@), views(v@)),
{
    let ghost vv = views(v@);
    let mut out: Vec<McpServer> = Vec::new();
    for x in it: v.into_iter()
        invariant
            it.seq() == v@,
            vv == views(v@),
            names_unique(vv),
            views(out@).len() == it.index(),
            forall|y: ServerView| views(out@).contains(y) <==> vv.take(it.index() as int).contains(y),
            sorted_by_name(views(out@)),
    {
        let ghost k = it.index() as int;
        let ghost before = views(out@);
        assert(0 <= k < vv.len());
        assert(x@ == vv[k]);
        let n = out.len();
        let mut pos: usize = 0;
        let mut done: bool = false;
        while pos < n && !done
            invariant
                pos <= n,
                n == out@.len(),
                before == views(out@),
                0 <= k < vv.len(),
                x@ == vv[k],
                names_unique(vv),
                forall|y: ServerView| before.contains(y) <==> vv.take(k).contains(y),
                forall|i: int| 0 <= i < pos ==> text_before(#[trigger] before[i].name, x@.name),
                done ==> pos < n && text_before(x@.name, before[pos as int].name),
            decreases n - pos + (if done { 0int } else { 1int }),
        {
            assert(before[pos as int] == out@[pos as int]@);
            if text_less(x.name(), out[pos].name()) {
                done = true;
            } else {
                proof {
                    assert(before.contains(before[pos as int]));
                    assert(vv.take(k).contains(before[pos as int]));
                    let j = choose|j: int| 0 <= j < k && #[trigger] vv.take(k)[j] == before[pos as int];
                    assert(vv[j] == before[pos as int]);
                    assert(vv[j].name != vv[k].name);
                    lemma_text_before_total(before[pos as int].name, x@.name);
                }
                pos += 1;
            }
        }
        proof {
            assert forall|i: int| pos <= i < before.len() implies text_before(x@.name, #[trigger] before[i].name) by {
                if i > pos {
                    lemma_text_before_transitive(x@.name, before[pos as int].name, before[i].name);
                }
            }
            lemma_insert_sorted(before, pos as int, x@);
        }
        out.insert(pos, x);
        proof {
            assert(views(out@) =~= before.insert(pos as int, vv[k]));
            assert(vv.take(k + 1) =~= vv.take(k).push(vv[k]));
            assert forall|y: ServerView| vv.take(k + 1).contains(y) <==> (vv.take(k).contains(y) || y == vv[k]) by {
                if vv.take(k + 1).contains(y) {
                    let j = choose|j: int| 0 <= j < k + 1 && #[trigger] vv.take(k + 1)[j] == y;
                    if j < k {
                        assert(vv.take(k)[j] == y);
                    }
                }
                if vv.take(k).contains(y) {
                    let j = choose|j: int| 0 <= j < k && #[trigger] vv.take(k)[j] == y;
                    assert(vv.take(k + 1)[j] == y);
                }
                if y == vv[k] {
                    assert(vv.take(k + 1)[k] == y);
                }
            }
            assert forall|y: ServerView| views(out@).contains(y) <==> vv.take(k + 1).contains(y) by {
                assert(before.insert(pos as int, x@).contains(y) <==> (before.contains(y) || y == x@));
                assert(before.contains(y) <==> vv.take(k).contains(y));
                assert(vv.take(k + 1).contains(y) <==> (vv.take(k).contains(y) || y == vv[k]));
                assert(views(out@) == before.insert(pos as int, x@));
            }
        }
    }
    proof {
        assert(vv.take(vv.len() as int) =~= vv);
    }
    out
}

/// Whether a configuration other than the one at `skip` has name `name`.
fn name_in_use(servers: &Vec<McpServer>, name: &str, skip: Option<usize>) -> (r: bool)
    ensures
        r == name_used(
            views(servers@),
            name@,
            match skip {
                Some(k) => k as int,
                None => -1,
            },
        ),
{
    let ghost sk: int = match skip {
        Some(k) => k as int,
        None => -1,
    };
    let n = servers.len();
    let mut i: usize = 0;
    while i < n
        invariant
            0 <= i <= n,
            n == servers@.len(),
            sk == match skip {
                Some(k) => k as int,
                None => -1,
            },
            forall|j: int| 0 <= j < i && j != sk ==> #[trigger] views(servers@)[j].name != name@,
        decreases n - i,
    {
        assert(views(servers@)[i as int] == servers@[i as int]@);
        let skipped = match skip {
            Some(k) => k == i,
            None => false,
        };
        if !skipped && same_text(servers[i].name(), name) {
            assert(views(servers@)[i as int].name == name@);
            return true;
        }
        i += 1;
    }
    false
}

/// Whether a built-in configuration named `name` is stored.
fn native_present(servers: &Vec<McpServer>, name: &str) -> (r: bool)
    ensures
        r == has_native_named(views(servers@), name@),
{
    let n = servers.len();
    let mut i: usize = 0;
    while i < n
        invariant
            0 <= i <= n,
            n == servers@.len(),
            forall|j: int|
                0 <= j < i ==> !(#[trigger] views(servers@)[j].name == name@ && views(servers@)[j].is_native),
        decreases n - i,
    {
        assert(views(servers@)[i as int] == servers@[i as int]@);
        if servers[i].meta().is_native && same_text(servers[i].name(), name) {
            assert(views(servers@)[i as int].name == name@ && views(servers@)[i as int].is_native);
            return true;
        }
        i += 1;
    }
    false
}

/// What seeding does with one built-in configuration.
#[derive(Debug, Clone, Copy, PartialEq, Eq, Structural)]
pub enum SeedAction {
    /// It is already stored as built-in.
    Skip,
    /// It is stored next.
    Insert,
    /// A user configuration holds its name: seeding stops.
    Stop,
}

/// What seeding does with configuration `c` when `rows` are stored.
pub open spec fn seed_action_of(rows: Seq<ServerView>, c: CreateView) -> SeedAction {
    if has_native_named(rows, c.name) {
        SeedAction::Skip
    } else if name_used(rows, c.name, -1) {
        SeedAction::Stop
    } else {
        SeedAction::Insert
    }
}

/// The seeding step for built-in configuration `c` when `stored` holds the
/// stored configurations.
pub fn seed_action(stored: &Vec<McpServer>, c: &CreateMcpServer) -> (r: SeedAction)
    ensures
        r == seed_action_of(views(stored@), c@),
{
    if native_present(stored, c.name()) {
        SeedAction::Skip
    } else if name_in_use(stored, c.name(), None) {
        SeedAction::Stop
    } else {
        SeedAction::Insert
    }
}

/// The store of server configurations. They are kept in order of
/// registration; listings give them in order of name.
#[derive(Debug)]
pub struct Registry {
    servers: Vec<McpServer>,
    next_id: i64,
}

impl Registry {
    /// The stored configurations, in order of registration.
    pub closed spec fn rows(&self) -> Seq<ServerView> {
        views(self.servers@)
    }

    /// The id the next registration receives.
    pub closed spec fn next_id(&self) -> i64 {
        self.next_id
    }

    pub open spec fn wf(&self) -> bool {
        registry_wf(self.rows(), self.next_id())
    }

    /// An empty registry.
    pub fn new() -> (r: Registry)
        ensures
            r.wf(),
            r.rows() == Seq::<ServerView>::empty(),
            r.next_id() == 1,
    {
        let r = Registry { servers: Vec::new(), next_id: 1 };
        assert(r.rows() =~= Seq::<ServerView>::empty());
        r
    }

    fn position_of_id(&self, id: i64) -> (r: Option<usize>)
        requires
            self.wf(),
        ensures
            match r {
                Some(k) => k < self.rows().len() && find_id(self.rows(), id) == Some(k as int),
                None => find_id(self.rows(), id) is None,
            },
    {
        let n = self.servers.len();
        let mut i: usize = 0;
        while i < n
            invariant
                0 <= i <= n,
                n == self.servers@.len(),
                self.wf(),
                forall|j: int| 0 <= j < i ==> #[trigger] self.rows()[j].id != id,
            decreases n - i,
        {
            assert(self.rows()[i as int] == self.servers@[i as int]@);
            if self.servers[i].meta().id == id {
                proof {
                    let rows = self.rows();
                    assert(exists|j: int| 0 <= j < rows.len() && #[trigger] rows[j].id == id) by {
                        assert(rows[i as int].id == id);
                    }
                    let k = choose|j: int| 0 <= j < rows.len() && #[trigger] rows[j].id == id;
                    if k != i {
                        assert(rows[k].id != rows[i as int].id);
                    }
                }
                return Some(i);
            }
            i += 1;
        }
        None
    }

    fn select(&self, sel: Selection) -> (r: Vec<McpServer>)
        ensures
            views(r@) == self.rows().filter(|v: ServerView| selects(sel, v)),
    {
        let ghost pred = |v: ServerView| selects(sel, v);
        let mut out: Vec<McpServer> = Vec::new();
        let n = self.servers.len();
        let mut i: usize = 0;
        while i < n
            invariant
                0 <= i <= n,
                n == self.servers@.len(),
                pred == (|v: ServerView| selects(sel, v)),
                views(out@) == self.rows().take(i as int).filter(pred),
            decreases n - i,
        {
            let ghost before = out@;
            let s = &self.servers[i];
            let m = s.meta();
            let keep = match sel {
                Selection::All => true,
                Selection::Enabled => m.enabled,
                Selection::Native => m.is_native,
                Selection::Custom => !m.is_native,
            };
            proof {
                assert(self.rows().take(i as int + 1) =~= self.rows().take(i as int).push(s@));
                self.rows().take(i as int).lemma_filter_push(s@, pred);
            }
            if keep {
                out.push(s.duplicate());
                assert(views(out@) =~= views(before).push(s@));
            }
            i += 1;
        }
        assert(self.rows().take(n as int) =~= self.rows());
        out
    }
}

/// The stored configurations, all of them or only the built-in (`"native"`)
/// or the user-created (`"custom"`) ones, in ascending order of name.
pub fn get_all_mcp_servers(registry: &Registry, kind: Option<&str>) -> (r: Vec<McpServer>)
    requires
        registry.wf(),
    ensures
        listed_by_name(views(r@), registry.rows().filter(|v: ServerView| match kind {
            Some(k) => if k@ == "native"@ {
                v.is_native
            } else if k@ == "custom"@ {
                !v.is_native
            } else {
                true
            },
            None => true,
        })),
{
    let sel = match kind {
        Some(k) => if same_text(k, "native") {
            Selection::Native
        } else if same_text(k, "custom") {
            Selection::Custom
        } else {
            Selection::All
        },
        None => Selection::All,
    };
    let r = registry.select(sel);
    proof {
        let p1 = |v: ServerView| selects(sel, v);
        let p2 = |v: ServerView| match kind {
            Some(k) => if k@ == "native"@ {
                v.is_native
            } else if k@ == "custom"@ {
                !v.is_native
            } else {
                true
            },
            None => true,
        };
        assert(p1 == p2);
        lemma_filter_wf(registry.rows(), registry.next_id(), p1);
        lemma_wf_names_unique(registry.rows().filter(p1), registry.next_id());
    }
    sort_by_name(r)
}

/// The enabled configurations, in ascending order of name.
pub fn get_enabled_mcp_servers(registry: &Registry) -> (r: Vec<McpServer>)
    requires
        registry.wf(),
    ensures
        listed_by_name(views(r@), registry.rows().filter(|v: ServerView| v.enabled)),
{
    let r = registry.select(Selection::Enabled);
    proof {
        let p1 = |v: ServerView| selects(Selection::Enabled, v);
        let p2 = |v: ServerView| v.enabled;
        assert(p1 == p2);
        lemma_filter_wf(registry.rows(), registry.next_id(), p1);
        lemma_wf_names_unique(registry.rows().filter(p1), registry.next_id());
    }
    sort_by_name(r)
}

/// The configuration with id `id`, if one is stored.
pub fn get_mcp_server_by_id(registry: &Registry, id: i64) -> (r: Option<McpServer>)
    requires
        registry.wf(),
    ensures
        match find_id(registry.rows(), id) {
            Some(i) => r is Some && r->Some_0@ == registry.rows()[i],
            None => r is None,
        },
{
    match registry.position_of_id(id) {
        Some(i) => {
            assert(registry.rows()[i as int] == registry.servers@[i as int]@);
            Some(registry.servers[i].duplicate())
        },
        None => None,
    }
}

/// Registers a new user configuration. It is refused when it is not valid,
/// when its name is taken, or when no id is left; otherwise it is stored
/// under the next id with the current time, and returned.
pub fn create_mcp_server(registry: &mut Registry, server: &CreateMcpServer) -> (r: Result<
    McpServer,
    RegistryError,
>)
    requires
        old(registry).wf(),
    ensures
        final(registry).wf(),
        match server.validation_error() {
            Some(m) => r is Err && r->Err_0 is Invalid && r->Err_0->Invalid_0@ == m,
            None => if name_used(old(registry).rows(), server@.name, -1) {
                r is Err && r->Err_0 is NameTaken
            } else if old(registry).next_id() == i64::MAX {
                r is Err && r->Err_0 is Full
            } else {
                &&& r is Ok
                &&& r->Ok_0@ == registered(
                    server@,
                    old(registry).next_id(),
                    false,
                    r->Ok_0@.created_at,
                )
                &&& final(registry).rows() == old(registry).rows().push(r->Ok_0@)
                &&& final(registry).next_id() == old(registry).next_id() + 1
            },
        },
        r is Err ==> final(registry).rows() == old(registry).rows() && final(registry).next_id()
            == old(registry).next_id(),
{
    if let Err(m) = server.validate() {
        return Err(RegistryError::Invalid(m));
    }
    if name_in_use(&registry.servers, server.name(), None) {
        return Err(RegistryError::NameTaken);
    }
    if registry.next_id == i64::MAX {
        return Err(RegistryError::Full);
    }
    let now = get_current_timestamp();
    let id = registry.next_id;
    let created = server.to_server(id, false, now.as_str());
    let stored = created.duplicate();
    let ghost before = registry.rows();
    registry.servers.push(stored);
    registry.next_id = id + 1;
    proof {
        assert(registry.rows() =~= before.push(created@));
        assert(transport_error(server@.transport) is None);
        lemma_wf_push(before, id, created@);
    }
    Ok(created)
}

/// Applies `update` to the configuration with id `id`. `Ok(None)` when none
/// is stored; refused when the changed configuration would lack the field
/// its transport needs or take another configuration's name. The transport
/// kind never changes.
pub fn update_mcp_server(registry: &mut Registry, id: i64, update: &UpdateMcpServer) -> (r: Result<
    Option<McpServer>,
    RegistryError,
>)
    requires
        old(registry).wf(),
    ensures
        final(registry).wf(),
        final(registry).next_id() == old(registry).next_id(),
        match find_id(old(registry).rows(), id) {
            None => r is Ok && r->Ok_0 is None && final(registry).rows() == old(registry).rows(),
            Some(i) => {
                let v = old(registry).rows()[i];
                match transport_error(merged(v, update@, v.updated_at).transport) {
                    Some(m) => r is Err && r->Err_0 is Invalid && r->Err_0->Invalid_0@ == m,
                    None => if name_used(old(registry).rows(), merged(v, update@, v.updated_at).name, i) {
                        r is Err && r->Err_0 is NameTaken
                    } else {
                        &&& r is Ok && r->Ok_0 is Some
                        &&& r->Ok_0->Some_0@ == merged(v, update@, r->Ok_0->Some_0@.updated_at)
                        &&& final(registry).rows() == old(registry).rows().update(i, r->Ok_0->Some_0@)
                    },
                }
            },
        },
        r is Err ==> final(registry).rows() == old(registry).rows(),
{
    let i = match registry.position_of_id(id) {
        Some(i) => i,
        None => return Ok(None),
    };
    let now = get_current_timestamp();
    let ghost before = registry.rows();
    assert(before[i as int] == registry.servers@[i as int]@);
    let changed = match registry.servers[i].apply_update(update, now.as_str()) {
        Ok(c) => c,
        Err(m) => return Err(RegistryError::Invalid(m)),
    };
    if name_in_use(&registry.servers, changed.name(), Some(i)) {
        return Err(RegistryError::NameTaken);
    }
    let stored = changed.duplicate();
    registry.servers.set(i, stored);
    proof {
        assert(registry.rows() =~= before.update(i as int, changed@));
        lemma_wf_update(before, registry.next_id(), i as int, changed@);
    }
    Ok(Some(changed))
}

/// Removes the configuration with id `id`; whether one was stored.
pub fn delete_mcp_server(registry: &mut Registry, id: i64) -> (r: bool)
    requires
        old(registry).wf(),
    ensures
        final(registry).wf(),
        final(registry).next_id() == old(registry).next_id(),
        match find_id(old(registry).rows(), id) {
            None => !r && final(registry).rows() == old(registry).rows(),
            Some(i) => r && final(registry).rows() == old(registry).rows().remove(i),
        },
{
    match registry.position_of_id(id) {
        None => false,
        Some(i) => {
            let ghost before = registry.rows();
            registry.servers.remove(i);
            proof {
                assert(registry.rows() =~= before.remove(i as int));
                lemma_wf_remove(before, registry.next_id(), i as int);
            }
            true
        },
    }
}

/// How a call of `enable_native_mcp_servers` ended, as a seeding status.
pub open spec fn seed_status_of(r: Result<(), RegistryError>) -> SeedStatus {
    match r {
        Ok(_) => SeedStatus::Done,
        Err(RegistryError::NameTaken) => SeedStatus::NameTaken,
        Err(_) => SeedStatus::Full,
    }
}

/// Whether seeding the built-in configurations into `rows` at time `now`
/// gives `after`, `after_next` and `status`.
pub open spec fn seeds_to(
    rows: Seq<ServerView>,
    next: i64,
    now: Seq<char>,
    after: Seq<ServerView>,
    after_next: i64,
    status: SeedStatus,
) -> bool {
    seeded(rows, next, native_catalog(), now) == (after, after_next, status)
}

/// Seeding only adds rows after the existing ones.
pub proof fn lemma_seed_extends(rows: Seq<ServerView>, next: i64, cat: Seq<CreateView>, now: Seq<char>)
    ensures
        rows.len() <= seeded(rows, next, cat, now).0.len(),
        seeded(rows, next, cat, now).0.take(rows.len() as int) == rows,
    decreases cat.len(),
{
    if cat.len() == 0 {
        assert(rows.take(rows.len() as int) =~= rows);
    } else if has_native_named(rows, cat[0].name) {
        lemma_seed_extends(rows, next, cat.drop_first(), now);
    } else if name_used(rows, cat[0].name, -1) {
        assert(rows.take(rows.len() as int) =~= rows);
    } else if next == i64::MAX {
        assert(rows.take(rows.len() as int) =~= rows);
    } else {
        let r2 = rows.push(registered(cat[0], next, true, now));
        lemma_seed_extends(r2, (next + 1) as i64, cat.drop_first(), now);
        let out = seeded(r2, (next + 1) as i64, cat.drop_first(), now).0;
        assert(out.take(rows.len() as int) =~= out.take(r2.len() as int).take(rows.len() as int));
        assert(r2.take(rows.len() as int) =~= rows);
    }
}

/// A built-in configuration stays stored when rows are added after it.
pub proof fn lemma_native_kept(rows: Seq<ServerView>, longer: Seq<ServerView>, name: Seq<char>)
    requires
        has_native_named(rows, name),
        rows.len() <= longer.len(),
        longer.take(rows.len() as int) == rows,
    ensures
        has_native_named(longer, name),
{
    let i = choose|i: int| 0 <= i < rows.len() && #[trigger] rows[i].name == name && rows[i].is_native;
    assert(longer.take(rows.len() as int)[i] == longer[i]);
    assert(longer[i].name == name && longer[i].is_native);
}

/// Seeding a second time, at any time, changes nothing.
pub proof fn lemma_seed_twice(
    rows: Seq<ServerView>,
    next: i64,
    cat: Seq<CreateView>,
    t1: Seq<char>,
    t2: Seq<char>,
)
    ensures
        ({
            let (r1, n1, s1) = seeded(rows, next, cat, t1);
            seeded(r1, n1, cat, t2) == (r1, n1, s1)
        }),
    decreases cat.len(),
{
    if cat.len() == 0 {
    } else if has_native_named(rows, cat[0].name) {
        lemma_seed_twice(rows, next, cat.drop_first(), t1, t2);
        lemma_seed_extends(rows, next, cat.drop_first(), t1);
        let r1 = seeded(rows, next, cat, t1).0;
        lemma_native_kept(rows, r1, cat[0].name);
    } else if name_used(rows, cat[0].name, -1) {
    } else if next == i64::MAX {
    } else {
        let v = registered(cat[0], next, true, t1);
        let r2 = rows.push(v);
        lemma_seed_twice(r2, (next + 1) as i64, cat.drop_first(), t1, t2);
        lemma_seed_extends(r2, (next + 1) as i64, cat.drop_first(), t1);
        let r1 = seeded(rows, next, cat, t1).0;
        assert(r2[rows.len() as int] == v);
        assert(r2[rows.len() as int].name == cat[0].name && r2[rows.len() as int].is_native);
        assert(has_native_named(r2, cat[0].name));
        lemma_native_kept(r2, r1, cat[0].name);
    }
}

/// Seeding adds built-in rows only: the other rows stay as they were.
pub proof fn lemma_seed_custom_rows(
    rows: Seq<ServerView>,
    next: i64,
    cat: Seq<CreateView>,
    now: Seq<char>,
)
    ensures
        without_natives(seeded(rows, next, cat, now).0) == without_natives(rows),
    decreases cat.len(),
{
    if cat.len() == 0 {
    } else if has_native_named(rows, cat[0].name) {
        lemma_seed_custom_rows(rows, next, cat.drop_first(), now);
    } else if name_used(rows, cat[0].name, -1) {
    } else if next == i64::MAX {
    } else {
        let v = registered(cat[0], next, true, now);
        let r2 = rows.push(v);
        lemma_seed_custom_rows(r2, (next + 1) as i64, cat.drop_first(), now);
        rows.lemma_filter_push(v, |w: ServerView| !w.is_native);
    }
}

/// Keeping only some rows keeps the registry well formed.
pub proof fn lemma_filter_wf(rows: Seq<ServerView>, next: i64, p: spec_fn(ServerView) -> bool)
    requires
        registry_wf(rows, next),
    ensures
        registry_wf(rows.filter(p), next),
    decreases rows.len(),
{
    reveal(Seq::filter);
    if rows.len() > 0 {
        let init = rows.drop_last();
        assert(registry_wf(init, next)) by {
            assert forall|i: int| 0 <= i < init.len() implies 1 <= #[trigger] init[i].id < next by {
                assert(init[i] == rows[i]);
            }
            assert forall|i: int| 0 <= i < init.len() implies transport_error(#[trigger] init[i].transport) is None by {
                assert(init[i] == rows[i]);
            }
            assert forall|i: int, j: int|
                0 <= i < init.len() && 0 <= j < init.len() && i != j implies #[trigger] init[i].id
                != #[trigger] init[j].id && init[i].name != init[j].name by {
                assert(init[i] == rows[i] && init[j] == rows[j]);
            }
        }
        lemma_filter_wf(init, next, p);
        let f = init.filter(p);
        init.filter_lemma(p);
        let last = rows.last();
        if p(last) {
            let r = f.push(last);
            assert(rows.filter(p) == r);
            assert forall|i: int, j: int|
                0 <= i < r.len() && 0 <= j < r.len() && i != j implies #[trigger] r[i].id
                != #[trigger] r[j].id && r[i].name != r[j].name by {
                if i < f.len() && j < f.len() {
                    assert(r[i] == f[i] && r[j] == f[j]);
                } else {
                    let k = if i < f.len() { i } else { j };
                    assert(r[k] == f[k]);
                    assert(f.contains(f[k]));
                    init.lemma_filter_contains_rev(p, f[k]);
                    let m = choose|m: int| 0 <= m < init.len() && init[m] == f[k];
                    assert(rows[m] == init[m]);
                    assert(rows[m].id != rows[rows.len() - 1].id);
                    assert(rows[m].name != rows[rows.len() - 1].name);
                }
            }
            assert forall|i: int| 0 <= i < r.len() implies 1 <= #[trigger] r[i].id < next by {
                if i < f.len() {
                    assert(r[i] == f[i]);
                } else {
                    assert(rows[rows.len() - 1] == last);
                }
            }
            assert forall|i: int| 0 <= i < r.len() implies transport_error(#[trigger] r[i].transport) is None by {
                if i < f.len() {
                    assert(r[i] == f[i]);
                } else {
                    assert(rows[rows.len() - 1] == last);
                }
            }
        } else {
            assert(rows.filter(p) == f);
        }
    }
}

/// Dropping the built-in rows keeps the registry well formed.
pub proof fn lemma_without_natives_wf(rows: Seq<ServerView>, next: i64)
    requires
        registry_wf(rows, next),
    ensures
        registry_wf(without_natives(rows), next),
{
    lemma_filter_wf(rows, next, |w: ServerView| !w.is_native);
}

/// Seeds the built-in configurations (`enabled`), or removes every built-in
/// configuration (`!enabled`). Seeding skips each one already stored as
/// built-in, and stops with `NameTaken` at one whose name a user
/// configuration holds, or with `Full` when no id is left.
pub fn enable_native_mcp_servers(registry: &mut Registry, enabled: bool) -> (r: Result<(), RegistryError>)
    requires
        old(registry).wf(),
    ensures
        final(registry).wf(),
        !enabled ==> r is Ok && final(registry).rows() == without_natives(old(registry).rows())
            && final(registry).next_id() == old(registry).next_id(),
        enabled ==> r is Ok || r->Err_0 is NameTaken || r->Err_0 is Full,
        enabled ==> exists|now: Seq<char>|
            seeds_to(
                old(registry).rows(),
                old(registry).next_id(),
                now,
                final(registry).rows(),
                final(registry).next_id(),
                #[trigger] seed_status_of(r),
            ),
{
    if !enabled {
        let ghost before = registry.rows();
        let kept = registry.select(Selection::Custom);
        registry.servers = kept;
        proof {
            let p1 = |v: ServerView| selects(Selection::Custom, v);
            let p2 = |v: ServerView| !v.is_native;
            assert(p1 == p2);
            lemma_without_natives_wf(before, registry.next_id());
        }
        return Ok(());
    }
    let natives = get_native_mcp_servers();
    let now = get_current_timestamp();
    let ghost cat = native_catalog();
    let ghost rows0 = registry.rows();
    let ghost next0 = registry.next_id();
    let n = natives.len();
    let mut k: usize = 0;
    assert(cat.skip(0) =~= cat);
    while k < n
        invariant
            0 <= k <= n,
            enabled,
            rows0 == old(registry).rows(),
            next0 == old(registry).next_id(),
            n == natives@.len(),
            cat == native_catalog(),
            natives@.map_values(|c: CreateMcpServer| c@) == cat,
            registry.wf(),
            seeded(registry.rows(), registry.next_id(), cat.skip(k as int), now@) == seeded(
                rows0,
                next0,
                cat,
                now@,
            ),
        decreases n - k,
    {
        let c = &natives[k];
        proof {
            assert(cat.skip(k as int)[0] == c@);
            assert(cat.skip(k as int).drop_first() =~= cat.skip(k as int + 1));
        }
        let action = seed_action(&registry.servers, c);
        if matches!(action, SeedAction::Skip) {
            k += 1;
        } else if matches!(action, SeedAction::Stop) {
            proof {
                assert(seed_status_of(Err(RegistryError::NameTaken)) == SeedStatus::NameTaken);
                assert(seeds_to(
                    rows0,
                    next0,
                    now@,
                    registry.rows(),
                    registry.next_id(),
                    seed_status_of(Err(RegistryError::NameTaken)),
                ));
            }
            return Err(RegistryError::NameTaken);
        } else if registry.next_id == i64::MAX {
            proof {
                assert(seed_status_of(Err(RegistryError::Full)) == SeedStatus::Full);
                assert(seeds_to(
                    rows0,
                    next0,
                    now@,
                    registry.rows(),
                    registry.next_id(),
                    seed_status_of(Err(RegistryError::Full)),
                ));
            }
            return Err(RegistryError::Full);
        } else {
            let id = registry.next_id;
            let v = c.to_server(id, true, now.as_str());
            let ghost before = registry.rows();
            registry.servers.push(v);
            registry.next_id = id + 1;
            proof {
                assert(registry.rows() =~= before.push(registered(c@, id, true, now@)));
                crate::native::lemma_native_catalog_complete();
                assert(transport_error(cat[k as int].transport) is None);
                lemma_wf_push(before, id, registered(c@, id, true, now@));
            }
            k += 1;
        }
    }
    proof {
        assert(cat.skip(n as int) =~= Seq::<CreateView>::empty());
        assert(seed_status_of(Ok(())) == SeedStatus::Done);
        assert(seeds_to(
            rows0,
            next0,
            now@,
            registry.rows(),
            registry.next_id(),
            seed_status_of(Ok(())),
        ));
    }
    Ok(())
}

/// Enabling the built-in configurations a second time, whenever it happens,
/// leaves the registry exactly as the first time left it, and ends the same
/// way.
pub proof fn law_enable_native_idempotent(
    rows: Seq<ServerView>,
    next: i64,
    t1: Seq<char>,
    once: Seq<ServerView>,
    next1: i64,
    s1: SeedStatus,
    t2: Seq<char>,
    twice: Seq<ServerView>,
    next2: i64,
    s2: SeedStatus,
)
    requires
        seeds_to(rows, next, t1, once, next1, s1),
        seeds_to(once, next1, t2, twice, next2, s2),
    ensures
        twice == once,
        next2 == next1,
        s2 == s1,
{
    lemma_seed_twice(rows, next, native_catalog(), t1, t2);
}

/// Disabling the built-in configurations leaves exactly the user-created
/// rows, in order, however many times they were enabled before.
pub proof fn law_disable_native_keeps_user_rows(rows: Seq<ServerView>, next: i64, times: Seq<Seq<char>>)
    ensures
        without_natives(seeded_times(rows, next, times).0) == without_natives(rows),
        forall|i: int| 0 <= i < without_natives(rows).len() ==> !(#[trigger] without_natives(rows)[i]).is_native,
    decreases times.len(),
{
    let p = |w: ServerView| !w.is_native;
    rows.filter_lemma(p);
    if times.len() > 0 {
        let (r1, n1, _s) = seeded(rows, next, native_catalog(), times[0]);
        law_disable_native_keeps_user_rows(r1, n1, times.drop_first());
        lemma_seed_custom_rows(rows, next, native_catalog(), times[0]);
    }
}

/// The rows and next id after enabling the built-in configurations once at
/// each of the given times.
pub open spec fn seeded_times(rows: Seq<ServerView>, next: i64, times: Seq<Seq<char>>) -> (Seq<ServerView>, i64)
    decreases times.len(),
{
    if times.len() == 0 {
        (rows, next)
    } else {
        let (r1, n1, _s) = seeded(rows, next, native_catalog(), times[0]);
        seeded_times(r1, n1, times.drop_first())
    }
}

/// A configuration just registered is found again by its id, with the
/// transport kind and fields of its request.
pub proof fn law_created_reads_back(rows: Seq<ServerView>, next: i64, c: CreateView, now: Seq<char>)
    requires
        registry_wf(rows, next),
    ensures
        ({
            let after = rows.push(registered(c, next, false, now));
            &&& find_id(after, next) == Some(rows.len() as int)
            &&& after[rows.len() as int].transport == c.transport
        }),
{
    let v = registered(c, next, false, now);
    let after = rows.push(v);
    assert(after[rows.len() as int].id == next);
    let k = choose|i: int| 0 <= i < after.len() && #[trigger] after[i].id == next;
    if k < rows.len() {
        assert(after[k] == rows[k]);
    }
}

/// An update keeps the transport kind, and of its transport fields only
/// those of that kind are taken.
pub proof fn law_update_keeps_transport_kind(v: ServerView, u: crate::models::UpdateView, now: Seq<char>)
    ensures
        crate::models::same_kind(merged(v, u, now).transport, v.transport),
        merged(v, u, now).id == v.id,
        merged(v, u, now).is_native == v.is_native,
        match v.transport {
            crate::models::TransportView::Http { url } => merged(v, u, now).transport
                == (crate::models::TransportView::Http { url: crate::models::or_else(u.url, url) }),
            crate::models::TransportView::Stdio { command, args, env } => merged(v, u, now).transport
                == (crate::models::TransportView::Stdio {
                command: crate::models::or_else(u.command, command),
                args: crate::models::or_else(u.args, args),
                env: crate::models::or_else(u.env, env),
            }),
        },
{
}

/// An update that would empty the field its transport needs is refused and
/// leaves the registry as it was; reading that configuration by id then
/// still gives it, with its field non-empty.
pub proof fn law_refused_update_keeps_row(
    rows: Seq<ServerView>,
    next: i64,
    i: int,
    u: crate::models::UpdateView,
    now: Seq<char>,
)
    requires
        registry_wf(rows, next),
        0 <= i < rows.len(),
        transport_error(merged(rows[i], u, now).transport) is Some,
    ensures
        find_id(rows, rows[i].id) == Some(i),
        transport_error(rows[i].transport) is None,
        crate::models::same_kind(merged(rows[i], u, now).transport, rows[i].transport),
{
    let id = rows[i].id;
    assert(rows[i].id == id);
    let k = choose|k: int| 0 <= k < rows.len() && #[trigger] rows[k].id == id;
    if k != i {
        assert(rows[k].id != rows[i].id);
    }
}

} // verus!
