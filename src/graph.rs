//! The stack graph: an append-only arena of nodes, edges, interned strings and
//! per-node attachments, addressed by integer handles.
use vstd::prelude::*;

use crate::span::Span;

verus! {

/// The handle of the singleton root node.
pub const ROOT_NODE: u32 = 1;

/// The handle of the singleton jump-to-scope node.
pub const JUMP_TO_NODE: u32 = 2;

/// The largest size that any handle-indexed table may reach.
pub const MAX_TABLE: u32 = 0xffff_fff0;

/// What a node does, with its symbol (an index into the symbol table) where it has one.
#[derive(Clone, Copy, Debug, PartialEq, Eq, Structural)]
pub enum NodeKind {
    Root,
    JumpTo,
    PushSymbol { symbol: u32, is_reference: bool },
    /// `scope` is the handle of an exported scope node.
    PushScopedSymbol { symbol: u32, scope: u32, is_reference: bool },
    PopSymbol { symbol: u32, is_definition: bool },
    PopScopedSymbol { symbol: u32, is_definition: bool },
    DropScopes,
    Scope { is_exported: bool },
}

/// A node: its kind, the file it belongs to (none for the singletons), and its
/// identifier local to that file.
#[derive(Clone, Copy, Debug, PartialEq, Eq, Structural)]
pub struct Node {
    pub kind: NodeKind,
    pub file: Option<u32>,
    pub local_id: u32,
}

/// A directed edge between two node handles.
#[derive(Clone, Copy, Debug, PartialEq, Eq, Structural)]
pub struct Edge {
    pub source: u32,
    pub sink: u32,
    pub precedence: i32,
}

/// Optional attachments of a node; `syntax_type` indexes the string table.
#[derive(Clone, Copy, Debug, PartialEq, Eq, Structural)]
pub struct SourceInfo {
    pub span: Option<Span>,
    pub definiens_span: Option<Span>,
    pub syntax_type: Option<u32>,
}

/// One debug key/value pair of a node; key and value index the string table.
#[derive(Clone, Copy, Debug, PartialEq, Eq, Structural)]
pub struct DebugEntry {
    pub node: u32,
    pub key: u32,
    pub value: u32,
}

/// The mathematical content of a graph. Node handle `h` denotes `nodes[h - 1]`.
pub ghost struct GraphModel {
    pub symbols: Seq<Seq<char>>,
    pub strings: Seq<Seq<char>>,
    pub files: Seq<Seq<char>>,
    pub next_local: Seq<u32>,
    pub nodes: Seq<Node>,
    pub info: Seq<SourceInfo>,
    pub edges: Seq<Edge>,
    pub debug: Seq<DebugEntry>,
}

pub open spec fn no_info() -> SourceInfo {
    SourceInfo { span: None, definiens_span: None, syntax_type: None }
}

/// Where `s` stands in `table` once it has been interned there.
pub open spec fn intern_index(table: Seq<Seq<char>>, s: Seq<char>) -> int {
    if table.contains(s) { table.index_of(s) } else { table.len() as int }
}

/// `table` once `s` has been interned there.
pub open spec fn interned(table: Seq<Seq<char>>, s: Seq<char>) -> Seq<Seq<char>> {
    if table.contains(s) { table } else { table.push(s) }
}

pub open spec fn kind_symbol(k: NodeKind) -> Option<u32> {
    match k {
        NodeKind::PushSymbol { symbol, .. } => Some(symbol),
        NodeKind::PushScopedSymbol { symbol, .. } => Some(symbol),
        NodeKind::PopSymbol { symbol, .. } => Some(symbol),
        NodeKind::PopScopedSymbol { symbol, .. } => Some(symbol),
        _ => None,
    }
}

impl GraphModel {
    pub open spec fn valid_node(self, h: int) -> bool {
        1 <= h <= self.nodes.len()
    }

    pub open spec fn node(self, h: int) -> Node {
        self.nodes[h - 1]
    }

    pub open spec fn is_exported_scope(self, h: int) -> bool {
        self.valid_node(h) && self.node(h).kind == (NodeKind::Scope { is_exported: true })
    }

    pub open spec fn in_file(self, h: int, f: u32) -> bool {
        self.node(h).file == Some(f)
    }

    /// A node kind that may be added to this graph.
    pub open spec fn valid_kind(self, k: NodeKind) -> bool {
        &&& !(k is Root) && !(k is JumpTo)
        &&& (kind_symbol(k) matches Some(s) ==> s < self.symbols.len())
        &&& (k matches NodeKind::PushScopedSymbol { scope, .. } ==> self.is_exported_scope(
            scope as int,
        ))
    }

    pub open spec fn valid_info(self, i: SourceInfo) -> bool {
        i.syntax_type matches Some(t) ==> t < self.strings.len()
    }

    pub open spec fn wf(self) -> bool {
        &&& 2 <= self.nodes.len() <= MAX_TABLE
        &&& self.nodes[0] == Node { kind: NodeKind::Root, file: None, local_id: 1 }
        &&& self.nodes[1] == Node { kind: NodeKind::JumpTo, file: None, local_id: 2 }
        &&& self.info.len() == self.nodes.len()
        &&& self.next_local.len() == self.files.len()
        &&& self.symbols.no_duplicates()
        &&& self.strings.no_duplicates()
        &&& self.files.no_duplicates()
        &&& forall|h: int|
            3 <= h <= self.nodes.len() ==> {
                &&& #[trigger] self.node(h).file matches Some(f)
                &&& f < self.files.len()
                &&& self.node(h).local_id < self.next_local[f as int]
                &&& self.valid_kind(self.node(h).kind)
                &&& self.node(h).kind matches NodeKind::PushScopedSymbol { scope, .. } ==> scope
                    < h
            }
        &&& forall|h1: int, h2: int|
            3 <= h1 < h2 <= self.nodes.len() && #[trigger] self.node(h1).file == #[trigger] self.node(
                h2,
            ).file ==> self.node(h1).local_id < self.node(h2).local_id
        &&& forall|f: int| 0 <= f < self.files.len() ==> #[trigger] self.next_local[f] + 2 <= self.nodes.len()
        &&& forall|h: int| 1 <= h <= self.nodes.len() ==> self.valid_info(#[trigger] self.info[h - 1])
        &&& forall|i: int|
            0 <= i < self.edges.len() ==> self.valid_node(#[trigger] self.edges[i].source as int)
                && self.valid_node(self.edges[i].sink as int)
        &&& forall|i: int|
            0 <= i < self.debug.len() ==> {
                &&& self.valid_node(#[trigger] self.debug[i].node as int)
                &&& self.debug[i].key < self.strings.len()
                &&& self.debug[i].value < self.strings.len()
            }
    }

    /// Room left in every handle-indexed table for one more operation.
    pub open spec fn has_room(self) -> bool {
        &&& self.symbols.len() < MAX_TABLE
        &&& self.strings.len() + 2 < MAX_TABLE
        &&& self.files.len() < MAX_TABLE
        &&& self.nodes.len() < MAX_TABLE
    }

    /// This graph with one more node of kind `k` in file `f`.
    pub open spec fn with_node(self, f: u32, k: NodeKind) -> GraphModel {
        GraphModel {
            nodes: self.nodes.push(Node { kind: k, file: Some(f), local_id: self.next_local[f as int] }),
            info: self.info.push(no_info()),
            next_local: self.next_local.update(f as int, (self.next_local[f as int] + 1) as u32),
            ..self
        }
    }

    /// This graph with `s` interned in its symbol table.
    pub open spec fn with_symbol(self, s: Seq<char>) -> GraphModel {
        GraphModel { symbols: interned(self.symbols, s), ..self }
    }

    /// This graph with `s` interned in its string table.
    pub open spec fn with_string(self, s: Seq<char>) -> GraphModel {
        GraphModel { strings: interned(self.strings, s), ..self }
    }

    /// This graph with the file named `name` present.
    pub open spec fn with_file(self, name: Seq<char>) -> GraphModel {
        if self.files.contains(name) {
            self
        } else {
            GraphModel { files: self.files.push(name), next_local: self.next_local.push(0), ..self }
        }
    }

    /// This graph with one more edge.
    pub open spec fn with_edge(self, e: Edge) -> GraphModel {
        GraphModel { edges: self.edges.push(e), ..self }
    }
}

/// The graph itself. Every element lives in a table and is named by its index.
pub struct StackGraph {
    symbols: Vec<String>,
    strings: Vec<String>,
    files: Vec<String>,
    next_local: Vec<u32>,
    nodes: Vec<Node>,
    info: Vec<SourceInfo>,
    edges: Vec<Edge>,
    debug: Vec<DebugEntry>,
}

pub open spec fn string_views(v: Seq<String>) -> Seq<Seq<char>> {
    v.map_values(|s: String| s@)
}

impl View for StackGraph {
    type V = GraphModel;

    closed spec fn view(&self) -> GraphModel {
        GraphModel {
            symbols: string_views(self.symbols@),
            strings: string_views(self.strings@),
            files: string_views(self.files@),
            next_local: self.next_local@,
            nodes: self.nodes@,
            info: self.info@,
            edges: self.edges@,
            debug: self.debug@,
        }
    }
}

/// Interns `s` in `table`: finds it, or appends it.
fn intern(table: &mut Vec<String>, s: &str) -> (r: u32)
    requires
        string_views(old(table)@).no_duplicates(),
        old(table)@.len() < MAX_TABLE,
    ensures
        string_views(final(table)@) == interned(string_views(old(table)@), s@),
        r == intern_index(string_views(old(table)@), s@),
        string_views(final(table)@).no_duplicates(),
{
    let ghost t = string_views(table@);
    let owned = s.to_owned();
    let mut i: usize = 0;
    while i < table.len()
        invariant
            0 <= i <= table@.len(),
            t == string_views(table@),
            t.no_duplicates(),
            table@.len() < MAX_TABLE,
            owned@ == s@,
            forall|k: int| 0 <= k < i ==> t[k] != s@,
        decreases table@.len() - i,
    {
        if table[i] == owned {
            proof {
                assert(t.contains(s@)) by { assert(t[i as int] == s@); }
                assert(t.index_of(s@) == i) by {
                    let j = t.index_of(s@);
                    assert(t[j] == s@);
                    assert(t[i as int] == t[j]);
                }
            }
            return i as u32;
        }
        i += 1;
    }
    proof {
        assert(!t.contains(s@));
    }
    table.push(owned);
    proof {
        assert(string_views(table@) =~= t.push(s@));
        assert(t.push(s@).no_duplicates()) by {
            let u = t.push(s@);
            assert forall|a: int, b: int| 0 <= a < u.len() && 0 <= b < u.len() && a != b implies u[a] != u[b] by {
                if a < t.len() && b < t.len() {
                } else if a < t.len() {
                    assert(u[a] == t[a]);
                } else {
                    assert(u[b] == t[b]);
                }
            }
        }
    }
    (table.len() - 1) as u32
}



/// Growing the interned tables, the file list, or the edge and debug lists by valid
/// entries keeps a graph well formed.
proof fn lemma_wf_grow(m: GraphModel, n: GraphModel)
    requires
        m.wf(),
        n.nodes == m.nodes,
        n.info == m.info,
        m.files.is_prefix_of(n.files),
        n.files.no_duplicates(),
        n.next_local.len() == n.files.len(),
        forall|f: int| 0 <= f < m.files.len() ==> #[trigger] n.next_local[f] == m.next_local[f],
        forall|f: int| m.files.len() <= f < n.files.len() ==> #[trigger] n.next_local[f] == 0,
        m.symbols.len() <= n.symbols.len(),
        m.strings.len() <= n.strings.len(),
        n.symbols.no_duplicates(),
        n.strings.no_duplicates(),
        m.edges.is_prefix_of(n.edges),
        forall|i: int|
            m.edges.len() <= i < n.edges.len() ==> n.valid_node(#[trigger] n.edges[i].source as int)
                && n.valid_node(n.edges[i].sink as int),
        m.debug.is_prefix_of(n.debug),
        forall|i: int|
            m.debug.len() <= i < n.debug.len() ==> {
                &&& n.valid_node(#[trigger] n.debug[i].node as int)
                &&& n.debug[i].key < n.strings.len()
                &&& n.debug[i].value < n.strings.len()
            },
    ensures
        n.wf(),
{
    assert forall|h: int| 3 <= h <= n.nodes.len() implies {
        &&& #[trigger] n.node(h).file matches Some(f)
        &&& f < n.files.len()
        &&& n.node(h).local_id < n.next_local[f as int]
        &&& n.valid_kind(n.node(h).kind)
        &&& n.node(h).kind matches NodeKind::PushScopedSymbol { scope, .. } ==> scope < h
    } by {
        assert(m.node(h).file matches Some(f));
        assert(m.valid_kind(m.node(h).kind));
        assert(n.next_local[m.node(h).file.unwrap() as int] == m.next_local[m.node(h).file.unwrap() as int]);
    }
    assert forall|f: int| 0 <= f < n.files.len() implies #[trigger] n.next_local[f] + 2 <= n.nodes.len() by {
        if f < m.files.len() {
            assert(m.next_local[f] + 2 <= m.nodes.len());
        }
    }
    assert forall|h1: int, h2: int|
        3 <= h1 < h2 <= n.nodes.len() && #[trigger] n.node(h1).file == #[trigger] n.node(h2).file
            implies n.node(h1).local_id < n.node(h2).local_id by {
        assert(m.node(h1) == n.node(h1) && m.node(h2) == n.node(h2));
    }
    assert forall|h: int| 1 <= h <= n.nodes.len() implies n.valid_info(#[trigger] n.info[h - 1]) by {
        assert(m.valid_info(m.info[h - 1]));
    }
    assert forall|i: int| 0 <= i < n.edges.len() implies n.valid_node(
        #[trigger] n.edges[i].source as int,
    ) && n.valid_node(n.edges[i].sink as int) by {
        if i < m.edges.len() {
            assert(m.edges[i] == n.edges[i]);
            assert(m.valid_node(m.edges[i].source as int));
        }
    }
    assert forall|i: int| 0 <= i < n.debug.len() implies {
        &&& n.valid_node(#[trigger] n.debug[i].node as int)
        &&& n.debug[i].key < n.strings.len()
        &&& n.debug[i].value < n.strings.len()
    } by {
        if i < m.debug.len() {
            assert(m.debug[i] == n.debug[i]);
            assert(m.valid_node(m.debug[i].node as int));
        }
    }
}

impl StackGraph {
    /// A graph that holds the two singleton nodes and nothing else.
    pub fn new() -> (g: StackGraph)
        ensures
            g@.wf(),
            g@.nodes == seq![
                Node { kind: NodeKind::Root, file: None, local_id: 1 },
                Node { kind: NodeKind::JumpTo, file: None, local_id: 2 },
            ],
            g@.info == seq![no_info(), no_info()],
            g@.symbols.len() == 0,
            g@.strings.len() == 0,
            g@.files.len() == 0,
            g@.edges.len() == 0,
            g@.debug.len() == 0,
    {
        let mut nodes: Vec<Node> = Vec::new();
        nodes.push(Node { kind: NodeKind::Root, file: None, local_id: 1 });
        nodes.push(Node { kind: NodeKind::JumpTo, file: None, local_id: 2 });
        let mut info: Vec<SourceInfo> = Vec::new();
        info.push(SourceInfo { span: None, definiens_span: None, syntax_type: None });
        info.push(SourceInfo { span: None, definiens_span: None, syntax_type: None });
        let g = StackGraph {
            symbols: Vec::new(),
            strings: Vec::new(),
            files: Vec::new(),
            next_local: Vec::new(),
            nodes,
            info,
            edges: Vec::new(),
            debug: Vec::new(),
        };
        proof {
            assert(g@.nodes =~= seq![
                Node { kind: NodeKind::Root, file: None, local_id: 1 },
                Node { kind: NodeKind::JumpTo, file: None, local_id: 2 },
            ]);
            assert(g@.info =~= seq![no_info(), no_info()]);
            assert(g@.symbols =~= Seq::empty());
            assert(g@.strings =~= Seq::empty());
            assert(g@.files =~= Seq::empty());
        }
        g
    }

    /// Interns `s` as a symbol.
    pub fn add_symbol(&mut self, s: &str) -> (r: u32)
        requires
            old(self)@.wf(),
            old(self)@.has_room(),
        ensures
            final(self)@ == old(self)@.with_symbol(s@),
            r == intern_index(old(self)@.symbols, s@),
            final(self)@.wf(),
    {
        let r = intern(&mut self.symbols, s);
        proof {
            assert(self@ =~= old(self)@.with_symbol(s@));
            lemma_wf_grow(old(self)@, self@);
        }
        r
    }

    /// Interns `s` as a string.
    pub fn add_string(&mut self, s: &str) -> (r: u32)
        requires
            old(self)@.wf(),
            old(self)@.strings.len() < MAX_TABLE,
        ensures
            final(self)@ == old(self)@.with_string(s@),
            r == intern_index(old(self)@.strings, s@),
            final(self)@.wf(),
    {
        let r = intern(&mut self.strings, s);
        proof {
            assert(self@ =~= old(self)@.with_string(s@));
            lemma_wf_grow(old(self)@, self@);
        }
        r
    }

    /// Finds the file named `name`, creating it when the graph has none by that name.
    pub fn get_or_create_file(&mut self, name: &str) -> (r: u32)
        requires
            old(self)@.wf(),
            old(self)@.has_room(),
        ensures
            final(self)@ == old(self)@.with_file(name@),
            r == intern_index(old(self)@.files, name@),
            final(self)@.wf(),
    {
        let before = self.files.len();
        let r = intern(&mut self.files, name);
        if self.files.len() > before {
            self.next_local.push(0);
        }
        proof {
            let m = old(self)@;
            if m.files.contains(name@) {
                assert(self@ =~= m);
            } else {
                assert(self@.files == m.files.push(name@));
                assert(self@.next_local =~= m.next_local.push(0));
                assert(self@ =~= m.with_file(name@));
                assert(m.files.is_prefix_of(self@.files));
                lemma_wf_grow(m, self@);
            }
        }
        r
    }

    /// Adds a node of kind `kind` to file `file`, with the next local identifier of that file.
    pub fn add_node(&mut self, file: u32, kind: NodeKind) -> (h: u32)
        requires
            old(self)@.wf(),
            old(self)@.nodes.len() < MAX_TABLE,
            file < old(self)@.files.len(),
            old(self)@.valid_kind(kind),
        ensures
            final(self)@ == old(self)@.with_node(file, kind),
            h == old(self)@.nodes.len() + 1,
            final(self)@.wf(),
    {
        let ghost m = self@;
        let local_id = self.next_local[file as usize];
        proof {
            assert(m.next_local[file as int] + 2 <= m.nodes.len());
        }
        self.next_local[file as usize] = local_id + 1;
        self.nodes.push(Node { kind, file: Some(file), local_id });
        self.info.push(SourceInfo { span: None, definiens_span: None, syntax_type: None });
        proof {
            let n = self@;
            assert(n =~= m.with_node(file, kind));
            assert forall|h: int| 3 <= h <= n.nodes.len() implies {
                &&& #[trigger] n.node(h).file matches Some(f)
                &&& f < n.files.len()
                &&& n.node(h).local_id < n.next_local[f as int]
                &&& n.valid_kind(n.node(h).kind)
                &&& n.node(h).kind matches NodeKind::PushScopedSymbol { scope, .. } ==> scope < h
            } by {
                if h <= m.nodes.len() {
                    assert(n.node(h) == m.node(h));
                    assert(m.node(h).file matches Some(f));
                }
            }
            assert forall|h1: int, h2: int|
                3 <= h1 < h2 <= n.nodes.len() && #[trigger] n.node(h1).file == #[trigger] n.node(
                    h2,
                ).file implies n.node(h1).local_id < n.node(h2).local_id by {
                assert(n.node(h1) == m.node(h1));
                if h2 <= m.nodes.len() {
                    assert(n.node(h2) == m.node(h2));
                } else {
                    assert(m.node(h1).file matches Some(f));
                }
            }
            assert forall|f: int| 0 <= f < n.files.len() implies #[trigger] n.next_local[f] + 2
                <= n.nodes.len() by {
                assert(m.next_local[f] + 2 <= m.nodes.len());
            }
            assert forall|h: int| 1 <= h <= n.nodes.len() implies n.valid_info(
                #[trigger] n.info[h - 1],
            ) by {
                if h <= m.nodes.len() {
                    assert(m.valid_info(m.info[h - 1]));
                }
            }
            assert forall|i: int| 0 <= i < n.edges.len() implies n.valid_node(
                #[trigger] n.edges[i].source as int,
            ) && n.valid_node(n.edges[i].sink as int) by {
                assert(m.valid_node(m.edges[i].source as int));
            }
            assert forall|i: int| 0 <= i < n.debug.len() implies {
                &&& n.valid_node(#[trigger] n.debug[i].node as int)
                &&& n.debug[i].key < n.strings.len()
                &&& n.debug[i].value < n.strings.len()
            } by {
                assert(m.valid_node(m.debug[i].node as int));
            }
        }
        self.nodes.len() as u32
    }

    /// Adds the edge `source -> sink` with the given precedence.
    pub fn add_edge(&mut self, source: u32, sink: u32, precedence: i32)
        requires
            old(self)@.wf(),
            old(self)@.valid_node(source as int),
            old(self)@.valid_node(sink as int),
        ensures
            final(self)@ == old(self)@.with_edge(Edge { source, sink, precedence }),
            final(self)@.wf(),
    {
        self.edges.push(Edge { source, sink, precedence });
        proof {
            assert(self@ =~= old(self)@.with_edge(Edge { source, sink, precedence }));
            assert(self@.edges[self@.edges.len() - 1] == Edge { source, sink, precedence });
            lemma_wf_grow(old(self)@, self@);
        }
    }
}


impl GraphModel {
    /// This graph with the attachments of node `h` replaced by `i`.
    pub open spec fn with_info(self, h: int, i: SourceInfo) -> GraphModel {
        GraphModel { info: self.info.update(h - 1, i), ..self }
    }

    /// This graph with the debug pair `k`, `v` added to node `h`.
    pub open spec fn with_debug(self, h: u32, k: Seq<char>, v: Seq<char>) -> GraphModel {
        let g = self.with_string(k).with_string(v);
        GraphModel {
            debug: self.debug.push(
                DebugEntry {
                    node: h,
                    key: intern_index(self.strings, k) as u32,
                    value: intern_index(self.with_string(k).strings, v) as u32,
                },
            ),
            ..g
        }
    }
}

impl StackGraph {
    /// Whether every handle-indexed table has room for one more operation.
    pub fn has_room(&self) -> (r: bool)
        ensures
            r == self@.has_room(),
    {
        self.symbols.len() < MAX_TABLE as usize && self.strings.len() < (MAX_TABLE - 2) as usize
            && self.files.len() < MAX_TABLE as usize && self.nodes.len() < MAX_TABLE as usize
    }

    pub fn node_count(&self) -> (r: usize)
        ensures
            r == self@.nodes.len(),
    {
        self.nodes.len()
    }

    pub fn node(&self, h: u32) -> (r: Node)
        requires
            self@.valid_node(h as int),
        ensures
            r == self@.node(h as int),
    {
        self.nodes[h as usize - 1]
    }

    pub fn file_count(&self) -> (r: usize)
        ensures
            r == self@.files.len(),
    {
        self.files.len()
    }

    pub fn file_name(&self, f: u32) -> (r: String)
        requires
            f < self@.files.len(),
        ensures
            r@ == self@.files[f as int],
    {
        self.files[f as usize].clone()
    }

    pub fn symbol_text(&self, s: u32) -> (r: String)
        requires
            s < self@.symbols.len(),
        ensures
            r@ == self@.symbols[s as int],
    {
        self.symbols[s as usize].clone()
    }

    pub fn string_text(&self, s: u32) -> (r: String)
        requires
            s < self@.strings.len(),
        ensures
            r@ == self@.strings[s as int],
    {
        self.strings[s as usize].clone()
    }

    pub fn edge_count(&self) -> (r: usize)
        ensures
            r == self@.edges.len(),
    {
        self.edges.len()
    }

    pub fn edge(&self, i: usize) -> (r: Edge)
        requires
            i < self@.edges.len(),
        ensures
            r == self@.edges[i as int],
    {
        self.edges[i]
    }

    pub fn debug_count(&self) -> (r: usize)
        ensures
            r == self@.debug.len(),
    {
        self.debug.len()
    }

    pub fn debug_entry(&self, i: usize) -> (r: DebugEntry)
        requires
            i < self@.debug.len(),
        ensures
            r == self@.debug[i as int],
    {
        self.debug[i]
    }

    pub fn source_info(&self, h: u32) -> (r: SourceInfo)
        requires
            self@.wf(),
            self@.valid_node(h as int),
        ensures
            r == self@.info[h - 1],
    {
        self.info[h as usize - 1]
    }

    /// Replaces the attachments of node `h`.
    pub fn set_source_info(&mut self, h: u32, i: SourceInfo)
        requires
            old(self)@.wf(),
            old(self)@.valid_node(h as int),
            old(self)@.valid_info(i),
        ensures
            final(self)@ == old(self)@.with_info(h as int, i),
            final(self)@.wf(),
    {
        self.info[h as usize - 1] = i;
        proof {
            let m = old(self)@;
            let n = self@;
            assert(n =~= m.with_info(h as int, i));
            assert forall|x: int| 1 <= x <= n.nodes.len() implies n.valid_info(
                #[trigger] n.info[x - 1],
            ) by {
                if x != h {
                    assert(m.valid_info(m.info[x - 1]));
                }
            }
            assert forall|h1: int, h2: int|
                3 <= h1 < h2 <= n.nodes.len() && #[trigger] n.node(h1).file == #[trigger] n.node(
                    h2,
                ).file implies n.node(h1).local_id < n.node(h2).local_id by {
                assert(m.node(h1) == n.node(h1) && m.node(h2) == n.node(h2));
            }
            assert forall|x: int| 3 <= x <= n.nodes.len() implies {
                &&& #[trigger] n.node(x).file matches Some(f)
                &&& f < n.files.len()
                &&& n.node(x).local_id < n.next_local[f as int]
                &&& n.valid_kind(n.node(x).kind)
                &&& n.node(x).kind matches NodeKind::PushScopedSymbol { scope, .. } ==> scope < x
            } by {
                assert(m.node(x) == n.node(x));
                assert(m.node(x).file matches Some(f));
            }
            assert forall|j: int| 0 <= j < n.edges.len() implies n.valid_node(
                #[trigger] n.edges[j].source as int,
            ) && n.valid_node(n.edges[j].sink as int) by {
                assert(m.valid_node(m.edges[j].source as int));
            }
            assert forall|j: int| 0 <= j < n.debug.len() implies {
                &&& n.valid_node(#[trigger] n.debug[j].node as int)
                &&& n.debug[j].key < n.strings.len()
                &&& n.debug[j].value < n.strings.len()
            } by {
                assert(m.valid_node(m.debug[j].node as int));
            }
        }
    }

    /// Adds the debug pair `k`, `v` to node `h`, after any it already has.
    pub fn add_debug_entry(&mut self, h: u32, k: &str, v: &str)
        requires
            old(self)@.wf(),
            old(self)@.has_room(),
            old(self)@.valid_node(h as int),
        ensures
            final(self)@ == old(self)@.with_debug(h, k@, v@),
            final(self)@.wf(),
    {
        let ghost m = self@;
        let key = self.add_string(k);
        let value = self.add_string(v);
        let ghost mid = self@;
        self.debug.push(DebugEntry { node: h, key, value });
        proof {
            assert(self@ =~= m.with_debug(h, k@, v@));
            assert(self@.debug[self@.debug.len() - 1] == DebugEntry { node: h, key, value });
            assert(m.strings.len() <= mid.strings.len());
            lemma_wf_grow(mid, self@);
        }
    }
}


impl GraphModel {
    /// The handles among `1..=k` of the nodes of file `f`, ascending.
    pub open spec fn file_nodes_upto(self, f: u32, k: int) -> Seq<u32>
        decreases k,
    {
        if k <= 0 {
            Seq::empty()
        } else if self.in_file(k, f) {
            self.file_nodes_upto(f, k - 1).push(k as u32)
        } else {
            self.file_nodes_upto(f, k - 1)
        }
    }

    /// The handles of the nodes of file `f`, in creation order.
    pub open spec fn file_nodes(self, f: u32) -> Seq<u32> {
        self.file_nodes_upto(f, self.nodes.len() as int)
    }

    /// Every node handle, in creation order.
    pub open spec fn all_nodes(self) -> Seq<u32> {
        Seq::new(self.nodes.len(), |i: int| (i + 1) as u32)
    }

    /// The handle that follows `prev` in a whole-graph enumeration (`prev` 0 starts one).
    pub open spec fn next_node_after(self, prev: int) -> Option<u32> {
        if 0 <= prev < self.nodes.len() {
            Some((prev + 1) as u32)
        } else {
            None
        }
    }

    /// The first node of file `f` whose handle is `h` or later.
    pub open spec fn first_in_file_from(self, f: u32, h: int) -> Option<u32>
        decreases self.nodes.len() + 1 - h,
    {
        if h < 1 || h > self.nodes.len() {
            None
        } else if self.in_file(h, f) {
            Some(h as u32)
        } else {
            self.first_in_file_from(f, h + 1)
        }
    }

    /// Whether `e` leaves `h` and, where `f` is given, enters a node of file `f`.
    pub open spec fn selected(self, h: u32, f: Option<u32>, e: Edge) -> bool {
        &&& e.source == h
        &&& (f matches Some(x) ==> self.in_file(e.sink as int, x))
    }

    /// The selected edges among the first `i`, in insertion order.
    pub open spec fn outgoing_upto(self, h: u32, f: Option<u32>, i: int) -> Seq<Edge>
        decreases i,
    {
        if i <= 0 {
            Seq::empty()
        } else if self.selected(h, f, self.edges[i - 1]) {
            self.outgoing_upto(h, f, i - 1).push(self.edges[i - 1])
        } else {
            self.outgoing_upto(h, f, i - 1)
        }
    }

    /// The edges that leave `h`, in insertion order.
    pub open spec fn outgoing(self, h: u32) -> Seq<Edge> {
        self.outgoing_upto(h, None, self.edges.len() as int)
    }

    /// The edges that leave `h` for a node of file `f`, in insertion order.
    pub open spec fn outgoing_into_file(self, h: u32, f: u32) -> Seq<Edge> {
        self.outgoing_upto(h, Some(f), self.edges.len() as int)
    }

    /// The outgoing edges of each of `hs` in turn.
    pub open spec fn edges_of(self, hs: Seq<u32>) -> Seq<Edge>
        decreases hs.len(),
    {
        if hs.len() == 0 {
            Seq::empty()
        } else {
            self.edges_of(hs.drop_last()) + self.outgoing(hs.last())
        }
    }

    /// Every edge, grouped by source in node order.
    pub open spec fn all_edges(self) -> Seq<Edge> {
        self.edges_of(self.all_nodes())
    }

    /// The edges of file `f`: those from the two singletons into the file, then
    /// those that leave a node of the file.
    pub open spec fn file_edges(self, f: u32) -> Seq<Edge> {
        self.outgoing_into_file(ROOT_NODE, f) + self.outgoing_into_file(JUMP_TO_NODE, f)
            + self.edges_of(self.file_nodes(f))
    }
}


impl GraphModel {
    /// The debug pairs of node `h` among the first `i` entries, in insertion order.
    pub open spec fn debug_upto(self, h: u32, i: int) -> Seq<(Seq<char>, Seq<char>)>
        decreases i,
    {
        if i <= 0 {
            Seq::empty()
        } else if self.debug[i - 1].node == h {
            self.debug_upto(h, i - 1).push(
                (self.strings[self.debug[i - 1].key as int], self.strings[self.debug[i - 1].value as int]),
            )
        } else {
            self.debug_upto(h, i - 1)
        }
    }

    /// The debug pairs of node `h`, in insertion order.
    pub open spec fn debug_info(self, h: u32) -> Seq<(Seq<char>, Seq<char>)> {
        self.debug_upto(h, self.debug.len() as int)
    }
}

} // verus!
