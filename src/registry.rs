use crate::error::BridgeError;
use crate::names::{
    first_sep_at, has_sep, lemma_split_namespaced, namespace_tool, namespaced, parse_namespaced_tool,
};
use crate::protocol::{Tool, ToolCallParams, ToolView};
use std::collections::HashMap;
use vstd::prelude::*;
use vstd::string::*;

verus! {

/// The description a tool of `backend` carries in the combined catalog.
pub open spec fn tagged(backend: Seq<char>, d: Seq<char>) -> Seq<char> {
    seq!['['] + backend + seq![']', ' '] + d
}

/// A tool of `backend` as it appears in the combined catalog.
pub open spec fn namespaced_view(backend: Seq<char>, t: ToolView) -> ToolView {
    ToolView {
        name: namespaced(backend, t.name),
        description: match t.description {
            Some(d) => Some(tagged(backend, d)),
            None => None,
        },
        input_schema: t.input_schema,
    }
}

/// The catalog entries of one backend, in its own order.
pub open spec fn backend_catalog(backend: Seq<char>, tools: Seq<ToolView>) -> Seq<ToolView> {
    tools.map_values(|t: ToolView| namespaced_view(backend, t))
}

/// The combined catalog of backends given as (name, tools), in their order.
pub open spec fn catalog(backends: Seq<(Seq<char>, Seq<ToolView>)>) -> Seq<ToolView>
    decreases backends.len(),
{
    if backends.len() == 0 {
        seq![]
    } else {
        catalog(backends.drop_last()) + backend_catalog(backends.last().0, backends.last().1)
    }
}

/// The views of a list of tools.
pub open spec fn tools_view(tools: Seq<Tool>) -> Seq<ToolView> {
    tools.map_values(|t: Tool| t@)
}

fn clone_opt_string(s: &Option<String>) -> (r: Option<String>)
    ensures
        match s {
            Some(x) => r matches Some(y) && y@ == x@,
            None => r is None,
        },
{
    match s {
        Some(x) => Some(x.clone()),
        None => None,
    }
}

/// A copy of `t` renamed into the namespace of `backend`, its description
/// (if any) prefixed with `[backend] `.
pub fn namespace_tool_entry(backend: &str, t: &Tool) -> (r: Tool)
    ensures
        r@ == namespaced_view(backend@, t@),
{
    let name = namespace_tool(backend, t.name.as_str());
    let description = match &t.description {
        Some(d) => {
            let mut s = "[".to_owned();
            s.append(backend);
            s.append("] ");
            s.append(d.as_str());
            proof {
                reveal_strlit("[");
                reveal_strlit("] ");
            }
            assert(s@ =~= tagged(backend@, d@));
            Some(s)
        },
        None => None,
    };
    Tool { name, description, input_schema: t.input_schema.clone() }
}

/// Some entry of `e` is named `name`.
pub open spec fn named_in<C>(e: Seq<Backend<C>>, name: Seq<char>) -> bool {
    exists|i: int| 0 <= i < e.len() && e[i].name@ == name
}

/// The position of the entry of `e` named `name`.
pub open spec fn position_of<C>(e: Seq<Backend<C>>, name: Seq<char>) -> int {
    choose|i: int| 0 <= i < e.len() && e[i].name@ == name
}

/// The entries once `b` is registered: it takes the place of the entry of
/// the same name, or else comes last.
pub open spec fn registered<C>(e: Seq<Backend<C>>, b: Backend<C>) -> Seq<Backend<C>> {
    if named_in(e, b.name@) {
        e.update(position_of(e, b.name@), b)
    } else {
        e.push(b)
    }
}

/// The entries once a round of connection outcomes is admitted in order:
/// each success is registered, each failure changes nothing.
pub open spec fn admitted<C>(
    e: Seq<Backend<C>>,
    outcomes: Seq<(String, Result<(Vec<Tool>, C), BridgeError>)>,
) -> Seq<Backend<C>>
    decreases outcomes.len(),
{
    if outcomes.len() == 0 {
        e
    } else {
        let prev = admitted(e, outcomes.drop_last());
        let o = outcomes.last();
        match o.1 {
            Ok(p) => registered(prev, Backend { name: o.0, tools: p.0, conn: p.1 }),
            Err(_) => prev,
        }
    }
}

/// One connected backend: its name, its cached tool list, its connection.
#[derive(Debug)]
pub struct Backend<C> {
    pub name: String,
    pub tools: Vec<Tool>,
    pub conn: C,
}

/// The connected backends by name, in the order in which they were connected.
#[derive(Debug)]
pub struct Registry<C> {
    entries: Vec<Backend<C>>,
}

impl<C> Registry<C> {
    /// The entries, in connection order.
    pub closed spec fn entries(&self) -> Seq<Backend<C>> {
        self.entries@
    }

    /// The names of the entries, in connection order.
    pub open spec fn names(&self) -> Seq<Seq<char>> {
        self.entries().map_values(|b: Backend<C>| b.name@)
    }

    /// Each entry as (name, tools).
    pub open spec fn listing(&self) -> Seq<(Seq<char>, Seq<ToolView>)> {
        self.entries().map_values(|b: Backend<C>| (b.name@, tools_view(b.tools@)))
    }

    /// No two entries share a name.
    pub open spec fn wf(&self) -> bool {
        forall|i: int, j: int|
            0 <= i < self.entries().len() && 0 <= j < self.entries().len() && i != j
                ==> self.entries()[i].name@ != self.entries()[j].name@
    }

    /// Some entry is named `name`.
    pub open spec fn has(&self, name: Seq<char>) -> bool {
        exists|i: int| 0 <= i < self.entries().len() && self.entries()[i].name@ == name
    }

    /// An empty registry.
    pub fn new() -> (r: Self)
        ensures
            r.wf(),
            r.entries().len() == 0,
    {
        Registry { entries: Vec::new() }
    }

    /// The number of connected backends.
    pub fn len(&self) -> (r: usize)
        ensures
            r == self.entries().len(),
    {
        self.entries.len()
    }

    /// The position of the entry named `name`, if there is one.
    pub fn position(&self, name: &str) -> (r: Option<usize>)
        ensures
            match r {
                Some(i) => i < self.entries().len() && self.entries()[i as int].name@ == name@,
                None => !self.has(name@),
            },
    {
        let key = name.to_owned();
        let mut i: usize = 0;
        while i < self.entries.len()
            invariant
                i <= self.entries@.len(),
                key@ == name@,
                forall|j: int| 0 <= j < i ==> self.entries@[j].name@ != name@,
            decreases self.entries@.len() - i,
        {
            if self.entries[i].name == key {
                return Some(i);
            }
            i = i + 1;
        }
        None
    }

    /// Registers `conn` under `name` with its tool list. An entry of the same
    /// name is replaced in place and its connection handed back; otherwise
    /// the new entry comes last.
    pub fn insert(&mut self, name: String, tools: Vec<Tool>, conn: C) -> (r: Option<C>)
        requires
            old(self).wf(),
        ensures
            final(self).wf(),
            final(self).entries() == registered(old(self).entries(), Backend { name, tools, conn }),
            forall|n: Seq<char>| final(self).has(n) <==> (old(self).has(n) || n == name@),
            match r {
                Some(c) => exists|i: int|
                    0 <= i < old(self).entries().len() && old(self).entries()[i].name@ == name@
                        && c == old(self).entries()[i].conn && final(self).entries()
                        == old(self).entries().update(i, Backend { name, tools, conn }),
                None => !old(self).has(name@) && final(self).entries() == old(self).entries().push(
                    Backend { name, tools, conn },
                ),
            },
    {
        let ghost entry = Backend { name, tools, conn };
        match self.position(name.as_str()) {
            Some(i) => {
                let old_entry = self.entries.remove(i);
                self.entries.insert(i, Backend { name, tools, conn });
                assert(self.entries@ =~= old(self).entries@.update(i as int, entry));
                assert(self.entries@[i as int].name@ == old(self).entries@[i as int].name@);
                proof {
                    assert(named_in(old(self).entries(), entry.name@));
                    let k = position_of(old(self).entries(), entry.name@);
                    if k != i as int {
                        assert(old(self).entries()[k].name@ != old(self).entries()[i as int].name@);
                    }
                }
                assert forall|a: int, b: int|
                    0 <= a < self.entries@.len() && 0 <= b < self.entries@.len() && a != b
                        implies self.entries@[a].name@ != self.entries@[b].name@ by {
                    if a != i && b != i {
                        assert(old(self).entries()[a].name@ != old(self).entries()[b].name@);
                        assert(self.entries@[a] == old(self).entries@[a]);
                        assert(self.entries@[b] == old(self).entries@[b]);
                    } else if a == i {
                        assert(old(self).entries()[a].name@ != old(self).entries()[b].name@);
                        assert(self.entries@[b] == old(self).entries@[b]);
                    } else {
                        assert(old(self).entries()[a].name@ != old(self).entries()[b].name@);
                        assert(self.entries@[a] == old(self).entries@[a]);
                    }
                }
                assert forall|n: Seq<char>| self.has(n) <==> (old(self).has(n) || n == entry.name@) by {
                    if self.has(n) {
                        let a = choose|a: int| 0 <= a < self.entries().len() && self.entries()[a].name@ == n;
                        assert(old(self).entries()[a].name@ == n);
                    }
                    if old(self).has(n) {
                        let a = choose|a: int| 0 <= a < old(self).entries().len() && old(self).entries()[a].name@ == n;
                        assert(self.entries()[a].name@ == n);
                    }
                    if n == entry.name@ {
                        assert(self.entries()[i as int].name@ == n);
                    }
                }
                Some(old_entry.conn)
            },
            None => {
                self.entries.push(Backend { name, tools, conn });
                assert(!named_in(old(self).entries(), entry.name@));
                assert forall|a: int, b: int|
                    0 <= a < self.entries@.len() && 0 <= b < self.entries@.len() && a != b
                        implies self.entries@[a].name@ != self.entries@[b].name@ by {
                    if a < old(self).entries@.len() && b < old(self).entries@.len() {
                        assert(old(self).entries()[a].name@ != old(self).entries()[b].name@);
                        assert(self.entries@[a] == old(self).entries@[a]);
                        assert(self.entries@[b] == old(self).entries@[b]);
                    } else if a < old(self).entries@.len() {
                        assert(old(self).entries()[a].name@ != entry.name@);
                        assert(self.entries@[a] == old(self).entries@[a]);
                    } else {
                        assert(old(self).entries()[b].name@ != entry.name@);
                        assert(self.entries@[b] == old(self).entries@[b]);
                    }
                }
                assert forall|n: Seq<char>| self.has(n) <==> (old(self).has(n) || n == entry.name@) by {
                    if self.has(n) {
                        let a = choose|a: int| 0 <= a < self.entries().len() && self.entries()[a].name@ == n;
                        if a < old(self).entries().len() {
                            assert(old(self).entries()[a].name@ == n);
                        }
                    }
                    if old(self).has(n) {
                        let a = choose|a: int| 0 <= a < old(self).entries().len() && old(self).entries()[a].name@ == n;
                        assert(self.entries()[a].name@ == n);
                    }
                    if n == entry.name@ {
                        assert(self.entries()[old(self).entries().len() as int].name@ == n);
                    }
                }
                None
            },
        }
    }

    /// Admits the outcomes of a round of connection attempts, in order: each
    /// backend whose attempt succeeded is registered with its tools and
    /// connection (in place of an entry of the same name, else last), each
    /// one whose attempt failed is left out, and nothing else changes.
    pub fn admit_all(&mut self, outcomes: Vec<(String, Result<(Vec<Tool>, C), BridgeError>)>)
        requires
            old(self).wf(),
        ensures
            final(self).wf(),
            final(self).entries() == admitted(old(self).entries(), outcomes@),
            forall|n: Seq<char>|
                final(self).has(n) <==> (old(self).has(n) || exists|k: int|
                    0 <= k < outcomes@.len() && outcomes@[k].0@ == n && outcomes@[k].1 is Ok),
    {
        let ghost all = outcomes@;
        let mut rest = outcomes;
        let n = rest.len();
        let mut k: usize = 0;
        while rest.len() > 0
            invariant
                self.wf(),
                all.len() == n,
                k + rest@.len() == n,
                rest@ == all.skip(k as int),
                self.entries() == admitted(old(self).entries(), all.take(k as int)),
                forall|m: Seq<char>|
                    self.has(m) <==> (old(self).has(m) || exists|j: int|
                        0 <= j < k && all[j].0@ == m && all[j].1 is Ok),
            decreases rest@.len(),
        {
            let (name, outcome) = rest.remove(0);
            assert(all[k as int] == (name, outcome));
            assert(all.take(k + 1).drop_last() =~= all.take(k as int));
            assert(all.take(k + 1).last() == all[k as int]);
            let ghost before = *self;
            match outcome {
                Ok((tools, conn)) => {
                    let ghost nm = name@;
                    let _replaced = self.insert(name, tools, conn);
                    assert forall|m: Seq<char>|
                        self.has(m) <==> (old(self).has(m) || exists|j: int|
                            0 <= j < k + 1 && all[j].0@ == m && all[j].1 is Ok) by {
                        if m == nm {
                            assert(all[k as int].0@ == m);
                        }
                        if exists|j: int| 0 <= j < k + 1 && all[j].0@ == m && all[j].1 is Ok {
                            let j = choose|j: int| 0 <= j < k + 1 && all[j].0@ == m && all[j].1 is Ok;
                            if j < k {
                                assert(before.has(m));
                            }
                        }
                    }
                },
                Err(_) => {
                    assert forall|m: Seq<char>|
                        self.has(m) <==> (old(self).has(m) || exists|j: int|
                            0 <= j < k + 1 && all[j].0@ == m && all[j].1 is Ok) by {
                        if exists|j: int| 0 <= j < k + 1 && all[j].0@ == m && all[j].1 is Ok {
                            let j = choose|j: int| 0 <= j < k + 1 && all[j].0@ == m && all[j].1 is Ok;
                            assert(j != k);
                            assert(before.has(m));
                        }
                    }
                },
            }
            k = k + 1;
            assert(rest@ =~= all.skip(k as int));
        }
        assert(all.take(k as int) =~= all);
    }

    /// Takes the entry named `name` out and hands back its connection;
    /// nothing changes when there is none.
    pub fn remove(&mut self, name: &str) -> (r: Option<C>)
        requires
            old(self).wf(),
        ensures
            final(self).wf(),
            match r {
                Some(c) => exists|i: int|
                    0 <= i < old(self).entries().len() && old(self).entries()[i].name@ == name@
                        && c == old(self).entries()[i].conn && final(self).entries()
                        == old(self).entries().remove(i),
                None => !old(self).has(name@) && final(self).entries() == old(self).entries(),
            },
            !final(self).has(name@),
    {
        match self.position(name) {
            Some(i) => {
                let e = self.entries.remove(i);
                assert forall|j: int| 0 <= j < self.entries@.len() implies self.entries@[j].name@
                    != name@ by {
                    if j < i {
                        assert(self.entries@[j] == old(self).entries@[j]);
                    } else {
                        assert(self.entries@[j] == old(self).entries@[j + 1]);
                    }
                }
                Some(e.conn)
            },
            None => None,
        }
    }

    /// The connection of the entry named `name`.
    pub fn get(&self, name: &str) -> (r: Option<&C>)
        ensures
            match r {
                Some(c) => exists|i: int|
                    0 <= i < self.entries().len() && self.entries()[i].name@ == name@ && *c
                        == self.entries()[i].conn,
                None => !self.has(name@),
            },
    {
        match self.position(name) {
            Some(i) => Some(&self.entries[i].conn),
            None => None,
        }
    }

    /// The names of the connected backends, in connection order.
    pub fn connected_names(&self) -> (r: Vec<String>)
        ensures
            r@.map_values(|s: String| s@) == self.names(),
    {
        let mut r: Vec<String> = Vec::new();
        let mut i: usize = 0;
        while i < self.entries.len()
            invariant
                i <= self.entries@.len(),
                r@.map_values(|s: String| s@) =~= self.names().take(i as int),
            decreases self.entries@.len() - i,
        {
            let ghost prev = r@;
            r.push(self.entries[i].name.clone());
            assert(r@.map_values(|s: String| s@) =~= prev.map_values(|s: String| s@).push(
                self.entries@[i as int].name@,
            ));
            assert(self.names().take(i + 1) =~= self.names().take(i as int).push(self.entries@[i as int].name@));
            i = i + 1;
        }
        assert(self.names().take(i as int) =~= self.names());
        r
    }

    /// Empties the registry and hands back every entry, in connection order.
    pub fn drain(&mut self) -> (r: Vec<Backend<C>>)
        ensures
            r@ == old(self).entries(),
            final(self).entries().len() == 0,
            final(self).wf(),
    {
        let mut taken: Vec<Backend<C>> = Vec::new();
        std::mem::swap(&mut taken, &mut self.entries);
        taken
    }

    /// Every connected backend's tools under their composite names, with
    /// descriptions tagged by backend, backend after backend in connection
    /// order.
    pub fn list_all_tools(&self) -> (r: Vec<Tool>)
        ensures
            tools_view(r@) == catalog(self.listing()),
    {
        let mut r: Vec<Tool> = Vec::new();
        let mut i: usize = 0;
        while i < self.entries.len()
            invariant
                i <= self.entries@.len(),
                tools_view(r@) =~= catalog(self.listing().take(i as int)),
            decreases self.entries@.len() - i,
        {
            let b = &self.entries[i];
            let ghost before = tools_view(r@);
            let mut j: usize = 0;
            while j < b.tools.len()
                invariant
                    j <= b.tools@.len(),
                    i < self.entries@.len(),
                    b == self.entries@[i as int],
                    tools_view(r@) =~= before + backend_catalog(b.name@, tools_view(b.tools@.take(j as int))),
                decreases b.tools@.len() - j,
            {
                let t = namespace_tool_entry(b.name.as_str(), &b.tools[j]);
                let ghost prev = r@;
                r.push(t);
                assert(tools_view(r@) =~= tools_view(prev).push(t@));
                assert(tools_view(b.tools@.take(j + 1)) =~= tools_view(b.tools@.take(j as int)).push(b.tools@[j as int]@));
                j = j + 1;
            }
            assert(b.tools@.take(j as int) =~= b.tools@);
            assert(self.listing().take(i + 1).drop_last() =~= self.listing().take(i as int));
            i = i + 1;
        }
        assert(self.listing().take(i as int) =~= self.listing());
        r
    }

    /// Request `name` selects the entry holding connection `c`, under local
    /// tool name `local`: the split of `name` at its first separator names
    /// that entry and gives `local`.
    pub open spec fn selects(&self, name: Seq<char>, c: C, local: Seq<char>) -> bool {
        exists|i: int, k: int|
            0 <= i < self.entries().len() && first_sep_at(name, k) && self.entries()[i].name@
                == name.take(k) && local == name.skip(k + 2) && c == self.entries()[i].conn
    }

    /// `e` is the error owed for request `name`: `InvalidToolName` when it
    /// holds no separator, `BackendNotFound` when the part before its first
    /// separator names no entry.
    pub open spec fn refuses(&self, name: Seq<char>, e: BridgeError) -> bool {
        match e {
            BridgeError::InvalidToolName(n) => !has_sep(name) && n@ == name,
            BridgeError::BackendNotFound(n) => exists|k: int|
                first_sep_at(name, k) && n@ == name.take(k) && !self.has(n@),
            _ => false,
        }
    }

    /// A success for a composite name built as `b + "__" + t` (with `b`
    /// free of the separator and not ending in `_`, `t` free of the
    /// separator) is the entry named `b`, asked for `t`.
    pub open spec fn routes_built_to(&self, name: Seq<char>, c: C, local: Seq<char>) -> bool {
        forall|b: Seq<char>, t: Seq<char>|
            #![trigger namespaced(b, t)]
            name == namespaced(b, t) && !has_sep(b) && (b.len() == 0 || b.last() != '_')
                && !has_sep(t) ==> local == t && exists|i: int|
                0 <= i < self.entries().len() && self.entries()[i].name@ == b && c
                    == self.entries()[i].conn
    }

    /// A failure for a composite name built as `b + "__" + t` (same
    /// conditions) means that no entry is named `b`.
    pub open spec fn routes_built_nowhere(&self, name: Seq<char>, e: BridgeError) -> bool {
        forall|b: Seq<char>, t: Seq<char>|
            #![trigger namespaced(b, t)]
            name == namespaced(b, t) && !has_sep(b) && (b.len() == 0 || b.last() != '_')
                && !has_sep(t) ==> (e is BackendNotFound && e->BackendNotFound_0@ == b
                && !self.has(b))
    }

    proof fn lemma_routes_built_to(&self, name: Seq<char>, c: C, local: Seq<char>)
        requires
            self.selects(name, c, local),
        ensures
            self.routes_built_to(name, c, local),
    {
        assert forall|b: Seq<char>, t: Seq<char>|
            name == namespaced(b, t) && !has_sep(b) && (b.len() == 0 || b.last() != '_')
                && !has_sep(t) implies local == t && exists|i: int|
                0 <= i < self.entries().len() && self.entries()[i].name@ == b && c
                    == self.entries()[i].conn by {
            lemma_split_namespaced(b, t);
            let (i, k) = choose|i: int, k: int|
                0 <= i < self.entries().len() && first_sep_at(name, k) && self.entries()[i].name@
                    == name.take(k) && local == name.skip(k + 2) && c == self.entries()[i].conn;
            assert(k == b.len());
        }
    }

    proof fn lemma_routes_built_nowhere(&self, name: Seq<char>, e: BridgeError)
        requires
            self.refuses(name, e),
        ensures
            self.routes_built_nowhere(name, e),
    {
        assert forall|b: Seq<char>, t: Seq<char>|
            name == namespaced(b, t) && !has_sep(b) && (b.len() == 0 || b.last() != '_')
                && !has_sep(t) implies (e is BackendNotFound && e->BackendNotFound_0@ == b
                && !self.has(b)) by {
            lemma_split_namespaced(b, t);
            assert(first_sep_at(name, b.len() as int));
            assert(has_sep(name));
            if let BridgeError::BackendNotFound(n) = e {
                let k = choose|k: int| first_sep_at(name, k) && n@ == name.take(k) && !self.has(n@);
                assert(k == b.len());
            }
        }
    }

    /// Finds the backend and local tool name that a composite name stands
    /// for: the name is split at its first separator, and the part before it
    /// names the backend.
    pub fn resolve(&self, namespaced_name: &str) -> (r: Result<(&C, String), BridgeError>)
        ensures
            match r {
                Ok((c, local)) => self.selects(namespaced_name@, *c, local@),
                Err(e) => self.refuses(namespaced_name@, e),
            },
            match r {
                Ok((c, local)) => self.routes_built_to(namespaced_name@, *c, local@),
                Err(e) => self.routes_built_nowhere(namespaced_name@, e),
            },
    {
        let r = match parse_namespaced_tool(namespaced_name) {
            None => Err(BridgeError::InvalidToolName(namespaced_name.to_owned())),
            Some((backend, local)) => match self.get(backend) {
                Some(c) => Ok((c, local.to_owned())),
                None => Err(BridgeError::BackendNotFound(backend.to_owned())),
            },
        };
        proof {
            if r is Ok {
                self.lemma_routes_built_to(namespaced_name@, *r->Ok_0.0, r->Ok_0.1@);
            } else {
                self.lemma_routes_built_nowhere(namespaced_name@, r->Err_0);
            }
        }
        r
    }

    /// Routes a tool invocation by composite name: the connection of the
    /// backend the name selects, and the invocation to send it, which asks
    /// for the local tool name with `arguments` unchanged.
    pub fn route_call(&self, namespaced_name: &str, arguments: HashMap<String, serde_json::Value>) -> (r: Result<
        (&C, ToolCallParams),
        BridgeError,
    >)
        ensures
            match r {
                Ok((c, p)) => p.arguments == arguments && self.selects(namespaced_name@, *c, p.name@)
                    && self.routes_built_to(namespaced_name@, *c, p.name@),
                Err(e) => self.refuses(namespaced_name@, e) && self.routes_built_nowhere(
                    namespaced_name@,
                    e,
                ),
            },
    {
        match self.resolve(namespaced_name) {
            Ok((c, local)) => Ok((c, ToolCallParams { name: local, arguments })),
            Err(e) => Err(e),
        }
    }
}

/// A call to `backend + "__" + tool` reaches exactly one entry, the one named
/// `backend`, and asks it for `tool`: whatever entry a split of the composite
/// name at its first separator selects is that one, and no other entry
/// carries its name. This holds for every backend name without the separator
/// and not ending in `_`, and every tool name without the separator.
pub proof fn lemma_call_reaches_one_backend<C>(reg: Registry<C>, backend: Seq<char>, tool: Seq<char>, i: int, k: int)
    requires
        reg.wf(),
        !has_sep(backend),
        backend.len() == 0 || backend.last() != '_',
        !has_sep(tool),
        0 <= i < reg.entries().len(),
        first_sep_at(namespaced(backend, tool), k),
        reg.entries()[i].name@ == namespaced(backend, tool).take(k),
    ensures
        reg.entries()[i].name@ == backend,
        namespaced(backend, tool).skip(k + 2) == tool,
        forall|j: int| 0 <= j < reg.entries().len() && j != i ==> reg.entries()[j].name@ != backend,
{
    lemma_split_namespaced(backend, tool);
    assert(k == backend.len());
}

} // verus!
