//! The proxy layer: a graph owned together with its access guard and an identity tag,
//! and the small file, node and edge values that name elements of it. Each
//! operation consults the guard and looks its operands up in the graph as it is now.
use vstd::prelude::*;

use crate::graph::{
    intern_index, Edge, GraphModel, Node, NodeKind, SourceInfo, StackGraph, JUMP_TO_NODE, ROOT_NODE,
};
use crate::span::Span;

verus! {

/// Why an operation was refused. The graph is unchanged whenever one is returned.
#[derive(Clone, Copy, Debug, PartialEq, Eq, Structural)]
pub enum BridgeError {
    /// The operation needs access that another outstanding access excludes.
    BorrowConflict,
    /// An operand was produced by another graph.
    ForeignProxy,
    /// A file operand names no file of this graph.
    NoSuchFile,
    /// A node operand names no node of this graph.
    NoSuchNode,
    /// A scope operand is not an exported scope node.
    NotExportedScope,
}

/// A file of the graph tagged `graph`.
#[derive(Clone, Copy, Debug, PartialEq, Eq, Structural)]
pub struct FileProxy {
    pub graph: u64,
    pub file: u32,
}

/// A node handle of the graph tagged `graph`.
#[derive(Clone, Copy, Debug, PartialEq, Eq, Structural)]
pub struct NodeProxy {
    pub graph: u64,
    pub node: u32,
}

/// An edge, copied by value, of the graph tagged `graph`.
#[derive(Clone, Copy, Debug, PartialEq, Eq, Structural)]
pub struct EdgeProxy {
    pub graph: u64,
    pub edge: Edge,
}

/// The shape of a node to construct; the symbol and scope are supplied apart.
#[derive(Clone, Copy, Debug, PartialEq, Eq, Structural)]
pub enum NodeShape {
    PushSymbol { is_reference: bool },
    PushScopedSymbol { is_reference: bool },
    PopSymbol { is_definition: bool },
    PopScopedSymbol { is_definition: bool },
    DropScopes,
    Scope { is_exported: bool },
}

pub open spec fn edge_proxies(tag: u64, es: Seq<Edge>) -> Seq<EdgeProxy> {
    es.map_values(|e: Edge| EdgeProxy { graph: tag, edge: e })
}

pub open spec fn node_proxies(tag: u64, hs: Seq<u32>) -> Seq<NodeProxy> {
    hs.map_values(|h: u32| NodeProxy { graph: tag, node: h })
}

pub open spec fn string_pairs(v: Seq<(String, String)>) -> Seq<(Seq<char>, Seq<char>)> {
    v.map_values(|p: (String, String)| (p.0@, p.1@))
}

pub open spec fn shape_kind(shape: NodeShape, symbol: u32, scope: u32) -> NodeKind {
    match shape {
        NodeShape::PushSymbol { is_reference } => NodeKind::PushSymbol { symbol, is_reference },
        NodeShape::PushScopedSymbol { is_reference } => NodeKind::PushScopedSymbol {
            symbol,
            scope,
            is_reference,
        },
        NodeShape::PopSymbol { is_definition } => NodeKind::PopSymbol { symbol, is_definition },
        NodeShape::PopScopedSymbol { is_definition } => NodeKind::PopScopedSymbol {
            symbol,
            is_definition,
        },
        NodeShape::DropScopes => NodeKind::DropScopes,
        NodeShape::Scope { is_exported } => NodeKind::Scope { is_exported },
    }
}

/// What a graph proxy holds: its tag, its graph, and the accesses outstanding on it.
pub ghost struct ProxyState {
    pub tag: u64,
    pub graph: GraphModel,
    pub readers: nat,
    pub writer: bool,
}

impl ProxyState {
    pub open spec fn can_read(self) -> bool {
        !self.writer
    }

    pub open spec fn can_write(self) -> bool {
        !self.writer && self.readers == 0
    }

    /// The refusal, if any, of `file` as an operand.
    pub open spec fn file_check(self, file: FileProxy) -> Option<BridgeError> {
        if file.graph != self.tag {
            Some(BridgeError::ForeignProxy)
        } else if file.file >= self.graph.files.len() {
            Some(BridgeError::NoSuchFile)
        } else {
            None
        }
    }

    /// The refusal, if any, of `node` as an operand.
    pub open spec fn node_check(self, node: NodeProxy) -> Option<BridgeError> {
        if node.graph != self.tag {
            Some(BridgeError::ForeignProxy)
        } else if !self.graph.valid_node(node.node as int) {
            Some(BridgeError::NoSuchNode)
        } else {
            None
        }
    }

    /// The refusal, if any, of `scope` as the scope operand of a scoped push.
    pub open spec fn scope_check(self, scope: Option<NodeProxy>) -> Option<BridgeError> {
        match scope {
            None => None,
            Some(n) => if self.node_check(n) is Some {
                self.node_check(n)
            } else if !self.graph.is_exported_scope(n.node as int) {
                Some(BridgeError::NotExportedScope)
            } else {
                None
            },
        }
    }

    /// The refusal, if any, of `prev` as the last handle of an enumeration.
    pub open spec fn prev_check(self, prev: Option<NodeProxy>) -> Option<BridgeError> {
        match prev {
            Some(n) => if n.graph != self.tag {
                Some(BridgeError::ForeignProxy)
            } else {
                None
            },
            None => None,
        }
    }

    /// The outcome of `add_edge_to` on `this`: an edge from `this` to `to`.
    pub open spec fn add_edge_to_outcome(self, this: NodeProxy, to: NodeProxy, precedence: Option<i32>) -> (
        ProxyState,
        Result<EdgeProxy, BridgeError>,
    ) {
        self.edge_outcome(this, to, precedence)
    }

    /// The outcome of `add_edge_from` on `this`: an edge from `from` to `this`.
    pub open spec fn add_edge_from_outcome(
        self,
        this: NodeProxy,
        from: NodeProxy,
        precedence: Option<i32>,
    ) -> (ProxyState, Result<EdgeProxy, BridgeError>) {
        self.edge_outcome(from, this, precedence)
    }

    /// The refusal, if any, of a read of `node`.
    pub open spec fn read_refusal(self, node: NodeProxy) -> Option<BridgeError> {
        if !self.can_read() {
            Some(BridgeError::BorrowConflict)
        } else {
            self.node_check(node)
        }
    }

    /// The refusal, if any, of a change to `node`.
    pub open spec fn write_refusal(self, node: NodeProxy) -> Option<BridgeError> {
        if !self.can_write() {
            Some(BridgeError::BorrowConflict)
        } else {
            self.node_check(node)
        }
    }

    /// The refusal, if any, of a read of both ends of `edge`.
    pub open spec fn edge_refusal(self, edge: EdgeProxy) -> Option<BridgeError> {
        let source = NodeProxy { graph: edge.graph, node: edge.edge.source };
        let sink = NodeProxy { graph: edge.graph, node: edge.edge.sink };
        if !self.can_read() {
            Some(BridgeError::BorrowConflict)
        } else if self.node_check(source) is Some {
            self.node_check(source)
        } else {
            self.node_check(sink)
        }
    }

    /// The attachments of `node`.
    pub open spec fn info_of(self, node: NodeProxy) -> SourceInfo {
        self.graph.info[node.node - 1]
    }

    pub open spec fn with_graph(self, g: GraphModel) -> ProxyState {
        ProxyState { graph: g, ..self }
    }

    /// The state and result of constructing a node of `shape` in `file`, interning
    /// `symbol` where one is given and pointing at `scope` where one is given.
    pub open spec fn node_outcome(
        self,
        file: FileProxy,
        shape: NodeShape,
        symbol: Option<Seq<char>>,
        scope: Option<NodeProxy>,
    ) -> (ProxyState, Result<NodeProxy, BridgeError>) {
        if !self.can_write() {
            (self, Err(BridgeError::BorrowConflict))
        } else if self.file_check(file) is Some {
            (self, Err(self.file_check(file).unwrap()))
        } else if self.scope_check(scope) is Some {
            (self, Err(self.scope_check(scope).unwrap()))
        } else {
            let g1 = match symbol {
                Some(t) => self.graph.with_symbol(t),
                None => self.graph,
            };
            let sym: u32 = match symbol {
                Some(t) => intern_index(self.graph.symbols, t) as u32,
                None => 0,
            };
            let sc: u32 = match scope {
                Some(n) => n.node,
                None => 0,
            };
            (
                self.with_graph(g1.with_node(file.file, shape_kind(shape, sym, sc))),
                Ok(NodeProxy { graph: self.tag, node: (self.graph.nodes.len() + 1) as u32 }),
            )
        }
    }

    /// The state and result of adding the edge `source -> sink`; the precedence defaults to 0.
    pub open spec fn edge_outcome(
        self,
        source: NodeProxy,
        sink: NodeProxy,
        precedence: Option<i32>,
    ) -> (ProxyState, Result<EdgeProxy, BridgeError>) {
        if !self.can_write() {
            (self, Err(BridgeError::BorrowConflict))
        } else if self.node_check(source) is Some {
            (self, Err(self.node_check(source).unwrap()))
        } else if self.node_check(sink) is Some {
            (self, Err(self.node_check(sink).unwrap()))
        } else {
            let e = Edge {
                source: source.node,
                sink: sink.node,
                precedence: match precedence {
                    Some(p) => p,
                    None => 0,
                },
            };
            (self.with_graph(self.graph.with_edge(e)), Ok(EdgeProxy { graph: self.tag, edge: e }))
        }
    }
}

/// A graph together with the guard that orders access to it. Every file, node and
/// edge value that it returns carries its tag.
pub struct GraphProxy {
    tag: u64,
    graph: StackGraph,
    readers: u32,
    writer: bool,
}

impl View for GraphProxy {
    type V = ProxyState;

    closed spec fn view(&self) -> ProxyState {
        ProxyState {
            tag: self.tag,
            graph: self.graph@,
            readers: self.readers as nat,
            writer: self.writer,
        }
    }
}

impl GraphProxy {
    /// Takes ownership of `graph`, with no access outstanding.
    pub fn new(tag: u64, graph: StackGraph) -> (p: GraphProxy)
        requires
            graph@.wf(),
        ensures
            p@ == (ProxyState { tag, graph: graph@, readers: 0, writer: false }),
    {
        GraphProxy { tag, graph, readers: 0, writer: false }
    }

    pub fn tag(&self) -> (r: u64)
        ensures
            r == self@.tag,
    {
        self.tag
    }

    /// Whether the graph has room for one more operation of any kind.
    pub fn has_room(&self) -> (r: bool)
        ensures
            r == self@.graph.has_room(),
    {
        self.graph.has_room()
    }

    /// Gives the graph back.
    pub fn into_graph(self) -> (g: StackGraph)
        ensures
            g@ == self@.graph,
    {
        self.graph
    }

    /// Opens a shared access; refused while an exclusive one is open, or when the
    /// count of shared accesses is at its limit.
    pub fn begin_read(&mut self) -> (r: Result<(), BridgeError>)
        ensures
            old(self)@.can_read() && old(self)@.readers < u32::MAX ==> r is Ok && final(self)@
                == (ProxyState { readers: old(self)@.readers + 1, ..old(self)@ }),
            !(old(self)@.can_read() && old(self)@.readers < u32::MAX) ==> r == Err::<(), _>(
                BridgeError::BorrowConflict,
            ) && final(self)@ == old(self)@,
    {
        if self.writer || self.readers == u32::MAX {
            Err(BridgeError::BorrowConflict)
        } else {
            self.readers = self.readers + 1;
            Ok(())
        }
    }

    /// Closes a shared access.
    pub fn end_read(&mut self)
        requires
            old(self)@.readers > 0,
        ensures
            final(self)@ == (ProxyState { readers: (old(self)@.readers - 1) as nat, ..old(self)@ }),
    {
        self.readers = self.readers - 1;
    }

    /// Opens an exclusive access; refused while any other access is open.
    pub fn begin_write(&mut self) -> (r: Result<(), BridgeError>)
        ensures
            old(self)@.can_write() ==> r is Ok && final(self)@ == (ProxyState {
                writer: true,
                ..old(self)@
            }),
            !old(self)@.can_write() ==> r == Err::<(), _>(BridgeError::BorrowConflict)
                && final(self)@ == old(self)@,
    {
        if self.writer || self.readers > 0 {
            Err(BridgeError::BorrowConflict)
        } else {
            self.writer = true;
            Ok(())
        }
    }

    /// Closes the exclusive access.
    pub fn end_write(&mut self)
        requires
            old(self)@.writer,
        ensures
            final(self)@ == (ProxyState { writer: false, ..old(self)@ }),
    {
        self.writer = false;
    }

    /// The root singleton, linked to this graph.
    pub fn root_node(&self) -> (r: NodeProxy)
        ensures
            r == (NodeProxy { graph: self@.tag, node: ROOT_NODE }),
    {
        NodeProxy { graph: self.tag, node: ROOT_NODE }
    }

    /// The jump-to-scope singleton, linked to this graph.
    pub fn jump_to_node(&self) -> (r: NodeProxy)
        ensures
            r == (NodeProxy { graph: self@.tag, node: JUMP_TO_NODE }),
    {
        NodeProxy { graph: self.tag, node: JUMP_TO_NODE }
    }

    /// The file named `name`, created when absent.
    pub fn file(&mut self, name: &str) -> (r: Result<FileProxy, BridgeError>)
        requires
            old(self)@.graph.wf(),
            old(self)@.graph.has_room(),
        ensures
            final(self)@.graph.wf(),
            old(self)@.can_write() ==> r == Ok::<_, BridgeError>(
                FileProxy {
                    graph: old(self)@.tag,
                    file: intern_index(old(self)@.graph.files, name@) as u32,
                },
            ) && final(self)@ == old(self)@.with_graph(old(self)@.graph.with_file(name@)),
            !old(self)@.can_write() ==> r == Err::<FileProxy, _>(BridgeError::BorrowConflict)
                && final(self)@ == old(self)@,
    {
        if self.writer || self.readers > 0 {
            return Err(BridgeError::BorrowConflict);
        }
        let f = self.graph.get_or_create_file(name);
        Ok(FileProxy { graph: self.tag, file: f })
    }

    fn check_file(&self, file: &FileProxy) -> (r: Option<BridgeError>)
        ensures
            r == self@.file_check(*file),
    {
        if file.graph != self.tag {
            Some(BridgeError::ForeignProxy)
        } else if file.file as usize >= self.graph.file_count() {
            Some(BridgeError::NoSuchFile)
        } else {
            None
        }
    }

    fn check_node(&self, node: &NodeProxy) -> (r: Option<BridgeError>)
        ensures
            r == self@.node_check(*node),
    {
        if node.graph != self.tag {
            Some(BridgeError::ForeignProxy)
        } else if node.node == 0 || node.node as usize > self.graph.node_count() {
            Some(BridgeError::NoSuchNode)
        } else {
            None
        }
    }

    /// Constructs a node of `shape` in `file`.
    fn create_node(
        &mut self,
        file: &FileProxy,
        shape: NodeShape,
        symbol: Option<&str>,
        scope: Option<&NodeProxy>,
    ) -> (r: Result<NodeProxy, BridgeError>)
        requires
            old(self)@.graph.wf(),
            old(self)@.graph.has_room(),
            (shape is PushScopedSymbol) == (scope is Some),
            (shape is DropScopes || shape is Scope) == (symbol is None),
        ensures
            final(self)@.graph.wf(),
            (final(self)@, r) == old(self)@.node_outcome(
                *file,
                shape,
                match symbol {
                    Some(t) => Some(t@),
                    None => None,
                },
                match scope {
                    Some(n) => Some(*n),
                    None => None,
                },
            ),
    {
        if self.writer || self.readers > 0 {
            return Err(BridgeError::BorrowConflict);
        }
        if let Some(e) = self.check_file(file) {
            return Err(e);
        }
        let mut scope_handle: u32 = 0;
        if let Some(n) = scope {
            if let Some(e) = self.check_node(n) {
                return Err(e);
            }
            let scope_node = self.graph.node(n.node);
            if scope_node.kind != (NodeKind::Scope { is_exported: true }) {
                return Err(BridgeError::NotExportedScope);
            }
            scope_handle = n.node;
        }
        let mut sym: u32 = 0;
        if let Some(t) = symbol {
            sym = self.graph.add_symbol(t);
        }
        let kind = match shape {
            NodeShape::PushSymbol { is_reference } => NodeKind::PushSymbol {
                symbol: sym,
                is_reference,
            },
            NodeShape::PushScopedSymbol { is_reference } => NodeKind::PushScopedSymbol {
                symbol: sym,
                scope: scope_handle,
                is_reference,
            },
            NodeShape::PopSymbol { is_definition } => NodeKind::PopSymbol {
                symbol: sym,
                is_definition,
            },
            NodeShape::PopScopedSymbol { is_definition } => NodeKind::PopScopedSymbol {
                symbol: sym,
                is_definition,
            },
            NodeShape::DropScopes => NodeKind::DropScopes,
            NodeShape::Scope { is_exported } => NodeKind::Scope { is_exported },
        };
        let h = self.graph.add_node(file.file, kind);
        Ok(NodeProxy { graph: self.tag, node: h })
    }

    /// A definition of `symbol`: a pop-symbol node marked as a definition.
    pub fn definition_node(&mut self, file: &FileProxy, symbol: &str) -> (r: Result<NodeProxy, BridgeError>)
        requires
            old(self)@.graph.wf(),
            old(self)@.graph.has_room(),
        ensures
            final(self)@.graph.wf(),
            (final(self)@, r) == old(self)@.node_outcome(
                *file,
                NodeShape::PopSymbol { is_definition: true },
                Some(symbol@),
                None,
            ),
    {
        self.create_node(file, NodeShape::PopSymbol { is_definition: true }, Some(symbol), None)
    }

    /// A scoped definition of `symbol`: a pop-scoped-symbol node marked as a definition.
    pub fn scoped_definition_node(&mut self, file: &FileProxy, symbol: &str) -> (r: Result<NodeProxy, BridgeError>)
        requires
            old(self)@.graph.wf(),
            old(self)@.graph.has_room(),
        ensures
            final(self)@.graph.wf(),
            (final(self)@, r) == old(self)@.node_outcome(
                *file,
                NodeShape::PopScopedSymbol { is_definition: true },
                Some(symbol@),
                None,
            ),
    {
        self.create_node(file, NodeShape::PopScopedSymbol { is_definition: true }, Some(symbol), None)
    }

    /// A reference to `symbol`: a push-symbol node marked as a reference.
    pub fn reference_node(&mut self, file: &FileProxy, symbol: &str) -> (r: Result<NodeProxy, BridgeError>)
        requires
            old(self)@.graph.wf(),
            old(self)@.graph.has_room(),
        ensures
            final(self)@.graph.wf(),
            (final(self)@, r) == old(self)@.node_outcome(
                *file,
                NodeShape::PushSymbol { is_reference: true },
                Some(symbol@),
                None,
            ),
    {
        self.create_node(file, NodeShape::PushSymbol { is_reference: true }, Some(symbol), None)
    }

    /// A scoped reference to `symbol` that pushes the exported scope `scope`.
    pub fn scoped_reference_node(&mut self, file: &FileProxy, symbol: &str, scope: &NodeProxy) -> (r: Result<NodeProxy, BridgeError>)
        requires
            old(self)@.graph.wf(),
            old(self)@.graph.has_room(),
        ensures
            final(self)@.graph.wf(),
            (final(self)@, r) == old(self)@.node_outcome(
                *file,
                NodeShape::PushScopedSymbol { is_reference: true },
                Some(symbol@),
                Some(*scope),
            ),
    {
        self.create_node(file, NodeShape::PushScopedSymbol { is_reference: true }, Some(symbol), Some(scope))
    }

    /// A push-symbol node for `symbol`.
    pub fn push_symbol_node(&mut self, file: &FileProxy, symbol: &str) -> (r: Result<NodeProxy, BridgeError>)
        requires
            old(self)@.graph.wf(),
            old(self)@.graph.has_room(),
        ensures
            final(self)@.graph.wf(),
            (final(self)@, r) == old(self)@.node_outcome(
                *file,
                NodeShape::PushSymbol { is_reference: false },
                Some(symbol@),
                None,
            ),
    {
        self.create_node(file, NodeShape::PushSymbol { is_reference: false }, Some(symbol), None)
    }

    /// A push-scoped-symbol node for `symbol` that pushes the exported scope `scope`.
    pub fn push_scoped_symbol_node(&mut self, file: &FileProxy, symbol: &str, scope: &NodeProxy) -> (r: Result<NodeProxy, BridgeError>)
        requires
            old(self)@.graph.wf(),
            old(self)@.graph.has_room(),
        ensures
            final(self)@.graph.wf(),
            (final(self)@, r) == old(self)@.node_outcome(
                *file,
                NodeShape::PushScopedSymbol { is_reference: false },
                Some(symbol@),
                Some(*scope),
            ),
    {
        self.create_node(file, NodeShape::PushScopedSymbol { is_reference: false }, Some(symbol), Some(scope))
    }

    /// A pop-symbol node for `symbol`.
    pub fn pop_symbol_node(&mut self, file: &FileProxy, symbol: &str) -> (r: Result<NodeProxy, BridgeError>)
        requires
            old(self)@.graph.wf(),
            old(self)@.graph.has_room(),
        ensures
            final(self)@.graph.wf(),
            (final(self)@, r) == old(self)@.node_outcome(
                *file,
                NodeShape::PopSymbol { is_definition: false },
                Some(symbol@),
                None,
            ),
    {
        self.create_node(file, NodeShape::PopSymbol { is_definition: false }, Some(symbol), None)
    }

    /// A pop-scoped-symbol node for `symbol`.
    pub fn pop_scoped_symbol_node(&mut self, file: &FileProxy, symbol: &str) -> (r: Result<NodeProxy, BridgeError>)
        requires
            old(self)@.graph.wf(),
            old(self)@.graph.has_room(),
        ensures
            final(self)@.graph.wf(),
            (final(self)@, r) == old(self)@.node_outcome(
                *file,
                NodeShape::PopScopedSymbol { is_definition: false },
                Some(symbol@),
                None,
            ),
    {
        self.create_node(file, NodeShape::PopScopedSymbol { is_definition: false }, Some(symbol), None)
    }

    /// A drop-scopes node.
    pub fn drop_scopes_node(&mut self, file: &FileProxy) -> (r: Result<NodeProxy, BridgeError>)
        requires
            old(self)@.graph.wf(),
            old(self)@.graph.has_room(),
        ensures
            final(self)@.graph.wf(),
            (final(self)@, r) == old(self)@.node_outcome(
                *file,
                NodeShape::DropScopes,
                None,
                None,
            ),
    {
        self.create_node(file, NodeShape::DropScopes, None, None)
    }

    /// An internal scope node.
    pub fn internal_scope_node(&mut self, file: &FileProxy) -> (r: Result<NodeProxy, BridgeError>)
        requires
            old(self)@.graph.wf(),
            old(self)@.graph.has_room(),
        ensures
            final(self)@.graph.wf(),
            (final(self)@, r) == old(self)@.node_outcome(
                *file,
                NodeShape::Scope { is_exported: false },
                None,
                None,
            ),
    {
        self.create_node(file, NodeShape::Scope { is_exported: false }, None, None)
    }

    /// An exported scope node.
    pub fn exported_scope_node(&mut self, file: &FileProxy) -> (r: Result<NodeProxy, BridgeError>)
        requires
            old(self)@.graph.wf(),
            old(self)@.graph.has_room(),
        ensures
            final(self)@.graph.wf(),
            (final(self)@, r) == old(self)@.node_outcome(
                *file,
                NodeShape::Scope { is_exported: true },
                None,
                None,
            ),
    {
        self.create_node(file, NodeShape::Scope { is_exported: true }, None, None)
    }

    /// Adds the edge `this -> to`; the precedence defaults to 0.
    pub fn add_edge_to(&mut self, this: &NodeProxy, to: &NodeProxy, precedence: Option<i32>) -> (r:
        Result<EdgeProxy, BridgeError>)
        requires
            old(self)@.graph.wf(),
        ensures
            final(self)@.graph.wf(),
            (final(self)@, r) == old(self)@.add_edge_to_outcome(*this, *to, precedence),
    {
        self.insert_edge(this, to, precedence)
    }

    /// Adds the edge `from -> this`; the precedence defaults to 0.
    pub fn add_edge_from(&mut self, this: &NodeProxy, from: &NodeProxy, precedence: Option<i32>) -> (r:
        Result<EdgeProxy, BridgeError>)
        requires
            old(self)@.graph.wf(),
        ensures
            final(self)@.graph.wf(),
            (final(self)@, r) == old(self)@.add_edge_from_outcome(*this, *from, precedence),
    {
        self.insert_edge(from, this, precedence)
    }

    fn insert_edge(&mut self, source: &NodeProxy, sink: &NodeProxy, precedence: Option<i32>) -> (r:
        Result<EdgeProxy, BridgeError>)
        requires
            old(self)@.graph.wf(),
        ensures
            final(self)@.graph.wf(),
            (final(self)@, r) == old(self)@.edge_outcome(*source, *sink, precedence),
    {
        if self.writer || self.readers > 0 {
            return Err(BridgeError::BorrowConflict);
        }
        if let Some(e) = self.check_node(source) {
            return Err(e);
        }
        if let Some(e) = self.check_node(sink) {
            return Err(e);
        }
        let precedence = match precedence {
            Some(p) => p,
            None => 0,
        };
        self.graph.add_edge(source.node, sink.node, precedence);
        Ok(EdgeProxy { graph: self.tag, edge: Edge { source: source.node, sink: sink.node, precedence } })
    }

    /// Appends the proxies of the edges that leave `h` (into file `f`, where given).
    fn push_outgoing(&self, h: u32, f: Option<u32>, out: &mut Vec<EdgeProxy>)
        requires
            self@.graph.wf(),
            f matches Some(x) ==> x < self@.graph.files.len(),
        ensures
            final(out)@ == old(out)@ + edge_proxies(
                self@.tag,
                self@.graph.outgoing_upto(h, f, self@.graph.edges.len() as int),
            ),
    {
        let ghost start = out@;
        let ghost m = self@.graph;
        let n = self.graph.edge_count();
        let mut i: usize = 0;
        while i < n
            invariant
                n == m.edges.len(),
                m == self@.graph,
                m.wf(),
                0 <= i <= n,
                out@ == start + edge_proxies(self@.tag, m.outgoing_upto(h, f, i as int)),
            decreases n - i,
        {
            let e = self.graph.edge(i);
            let keep = e.source == h && match f {
                Some(x) => {
                    proof {
                        assert(m.valid_node(m.edges[i as int].sink as int));
                    }
                    self.graph.node(e.sink).file == Some(x)
                },
                None => true,
            };
            let ghost before = m.outgoing_upto(h, f, i as int);
            if keep {
                out.push(EdgeProxy { graph: self.tag, edge: e });
                proof {
                    assert(edge_proxies(self@.tag, before.push(e)) =~= edge_proxies(self@.tag, before).push(
                        EdgeProxy { graph: self@.tag, edge: e },
                    ));
                    assert(out@ =~= start + edge_proxies(self@.tag, before.push(e)));
                }
            }
            i += 1;
        }
    }

    /// The edges that leave `node`.
    pub fn outgoing_edges(&self, node: &NodeProxy) -> (r: Result<Vec<EdgeProxy>, BridgeError>)
        requires
            self@.graph.wf(),
        ensures
            !self@.can_read() ==> r == Err::<Vec<EdgeProxy>, _>(BridgeError::BorrowConflict),
            self@.can_read() && self@.node_check(*node) is Some ==> r == Err::<Vec<EdgeProxy>, _>(
                self@.node_check(*node).unwrap(),
            ),
            self@.can_read() && self@.node_check(*node) is None ==> r is Ok && r.unwrap()@
                == edge_proxies(self@.tag, self@.graph.outgoing(node.node)),
    {
        if self.writer {
            return Err(BridgeError::BorrowConflict);
        }
        if let Some(e) = self.check_node(node) {
            return Err(e);
        }
        let mut out: Vec<EdgeProxy> = Vec::new();
        self.push_outgoing(node.node, None, &mut out);
        proof {
            assert(out@ =~= edge_proxies(self@.tag, self@.graph.outgoing(node.node)));
        }
        Ok(out)
    }

    /// Every edge of the graph, grouped by source in node order.
    pub fn edges(&self) -> (r: Result<Vec<EdgeProxy>, BridgeError>)
        requires
            self@.graph.wf(),
        ensures
            !self@.can_read() ==> r == Err::<Vec<EdgeProxy>, _>(BridgeError::BorrowConflict),
            self@.can_read() ==> r is Ok && r.unwrap()@ == edge_proxies(
                self@.tag,
                self@.graph.all_edges(),
            ),
    {
        if self.writer {
            return Err(BridgeError::BorrowConflict);
        }
        let ghost m = self@.graph;
        let ghost tag = self@.tag;
        let n = self.graph.node_count();
        let mut out: Vec<EdgeProxy> = Vec::new();
        let mut k: usize = 0;
        proof {
            assert(m.all_nodes().take(0) =~= Seq::<u32>::empty());
            assert(out@ =~= edge_proxies(tag, m.edges_of(m.all_nodes().take(0))));
        }
        while k < n
            invariant
                n == m.nodes.len(),
                m == self@.graph,
                tag == self@.tag,
                m.wf(),
                0 <= k <= n,
                out@ == edge_proxies(tag, m.edges_of(m.all_nodes().take(k as int))),
            decreases n - k,
        {
            let ghost before = out@;
            self.push_outgoing((k + 1) as u32, None, &mut out);
            proof {
                let hs = m.all_nodes().take(k + 1);
                assert(hs.drop_last() =~= m.all_nodes().take(k as int));
                assert(hs.last() == (k + 1) as u32);
                let a = m.edges_of(m.all_nodes().take(k as int));
                let b = m.outgoing((k + 1) as u32);
                assert(edge_proxies(tag, a + b) =~= edge_proxies(tag, a) + edge_proxies(tag, b));
            }
            k += 1;
        }
        proof {
            assert(m.all_nodes().take(n as int) =~= m.all_nodes());
        }
        Ok(out)
    }

    /// Every node of the graph, in creation order.
    pub fn nodes(&self) -> (r: Result<Vec<NodeProxy>, BridgeError>)
        requires
            self@.graph.wf(),
        ensures
            !self@.can_read() ==> r == Err::<Vec<NodeProxy>, _>(BridgeError::BorrowConflict),
            self@.can_read() ==> r is Ok && r.unwrap()@ == node_proxies(
                self@.tag,
                self@.graph.all_nodes(),
            ),
    {
        if self.writer {
            return Err(BridgeError::BorrowConflict);
        }
        let ghost m = self@.graph;
        let n = self.graph.node_count();
        let mut out: Vec<NodeProxy> = Vec::new();
        let mut k: usize = 0;
        while k < n
            invariant
                n == m.nodes.len(),
                m == self@.graph,
                m.wf(),
                0 <= k <= n,
                out@ =~= node_proxies(self@.tag, m.all_nodes().take(k as int)),
            decreases n - k,
        {
            out.push(NodeProxy { graph: self.tag, node: (k + 1) as u32 });
            k += 1;
        }
        proof {
            assert(m.all_nodes().take(n as int) =~= m.all_nodes());
        }
        Ok(out)
    }

    /// The nodes of `file`, in creation order.
    pub fn file_nodes(&self, file: &FileProxy) -> (r: Result<Vec<NodeProxy>, BridgeError>)
        requires
            self@.graph.wf(),
        ensures
            !self@.can_read() ==> r == Err::<Vec<NodeProxy>, _>(BridgeError::BorrowConflict),
            self@.can_read() && self@.file_check(*file) is Some ==> r == Err::<Vec<NodeProxy>, _>(
                self@.file_check(*file).unwrap(),
            ),
            self@.can_read() && self@.file_check(*file) is None ==> r is Ok && r.unwrap()@
                == node_proxies(self@.tag, self@.graph.file_nodes(file.file)),
    {
        if self.writer {
            return Err(BridgeError::BorrowConflict);
        }
        if let Some(e) = self.check_file(file) {
            return Err(e);
        }
        let ghost m = self@.graph;
        let ghost tag = self@.tag;
        let n = self.graph.node_count();
        let mut out: Vec<NodeProxy> = Vec::new();
        let mut k: usize = 0;
        proof {
            assert(out@ =~= node_proxies(tag, m.file_nodes_upto(file.file, 0)));
        }
        while k < n
            invariant
                n == m.nodes.len(),
                m == self@.graph,
                tag == self@.tag,
                m.wf(),
                0 <= k <= n,
                out@ == node_proxies(tag, m.file_nodes_upto(file.file, k as int)),
            decreases n - k,
        {
            let h = (k + 1) as u32;
            let ghost before = m.file_nodes_upto(file.file, k as int);
            if self.graph.node(h).file == Some(file.file) {
                out.push(NodeProxy { graph: self.tag, node: h });
                proof {
                    assert(node_proxies(tag, before.push(h)) =~= node_proxies(tag, before).push(
                        NodeProxy { graph: tag, node: h },
                    ));
                }
            }
            k += 1;
        }
        Ok(out)
    }

    /// The edges of `file`: first those from the root and then from the jump-to
    /// singleton into the file, then those that leave each node of the file in turn.
    pub fn file_edges(&self, file: &FileProxy) -> (r: Result<Vec<EdgeProxy>, BridgeError>)
        requires
            self@.graph.wf(),
        ensures
            !self@.can_read() ==> r == Err::<Vec<EdgeProxy>, _>(BridgeError::BorrowConflict),
            self@.can_read() && self@.file_check(*file) is Some ==> r == Err::<Vec<EdgeProxy>, _>(
                self@.file_check(*file).unwrap(),
            ),
            self@.can_read() && self@.file_check(*file) is None ==> r is Ok && r.unwrap()@
                == edge_proxies(self@.tag, self@.graph.file_edges(file.file)),
    {
        if self.writer {
            return Err(BridgeError::BorrowConflict);
        }
        if let Some(e) = self.check_file(file) {
            return Err(e);
        }
        let ghost m = self@.graph;
        let ghost tag = self@.tag;
        let f = file.file;
        let mut out: Vec<EdgeProxy> = Vec::new();
        self.push_outgoing(ROOT_NODE, Some(f), &mut out);
        self.push_outgoing(JUMP_TO_NODE, Some(f), &mut out);
        let ghost head = m.outgoing_into_file(ROOT_NODE, f) + m.outgoing_into_file(JUMP_TO_NODE, f);
        proof {
            assert(edge_proxies(tag, head) =~= edge_proxies(tag, m.outgoing_into_file(ROOT_NODE, f))
                + edge_proxies(tag, m.outgoing_into_file(JUMP_TO_NODE, f)));
            assert(m.edges_of(m.file_nodes_upto(f, 0)) =~= Seq::<Edge>::empty());
            assert(head + m.edges_of(m.file_nodes_upto(f, 0)) =~= head);
        }
        let n = self.graph.node_count();
        let mut k: usize = 0;
        while k < n
            invariant
                n == m.nodes.len(),
                m == self@.graph,
                tag == self@.tag,
                m.wf(),
                f < m.files.len(),
                0 <= k <= n,
                out@ == edge_proxies(tag, head + m.edges_of(m.file_nodes_upto(f, k as int))),
            decreases n - k,
        {
            let h = (k + 1) as u32;
            if self.graph.node(h).file == Some(f) {
                self.push_outgoing(h, None, &mut out);
                proof {
                    let hs = m.file_nodes_upto(f, k + 1);
                    assert(hs.drop_last() =~= m.file_nodes_upto(f, k as int));
                    let a = head + m.edges_of(m.file_nodes_upto(f, k as int));
                    let b = m.outgoing(h);
                    assert(head + m.edges_of(hs) =~= a + b);
                    assert(edge_proxies(tag, a + b) =~= edge_proxies(tag, a) + edge_proxies(tag, b));
                }
            }
            k += 1;
        }
        proof {
            assert(head + m.edges_of(m.file_nodes(f)) =~= m.file_edges(f));
        }
        Ok(out)
    }

    /// One step of a whole-graph enumeration: the node after `prev`, or after none
    /// when `prev` is absent; `None` once the nodes present now are exhausted.
    pub fn next_node(&self, prev: Option<&NodeProxy>) -> (r: Result<Option<NodeProxy>, BridgeError>)
        requires
            self@.graph.wf(),
        ensures
            ({
                let p = match prev {
                    Some(n) => Some(*n),
                    None => None,
                };
                let start: int = match prev {
                    Some(n) => n.node as int,
                    None => 0,
                };
                &&& !self@.can_read() ==> r == Err::<Option<NodeProxy>, _>(BridgeError::BorrowConflict)
                &&& self@.can_read() && self@.prev_check(p) is Some ==> r == Err::<
                    Option<NodeProxy>,
                    _,
                >(self@.prev_check(p).unwrap())
                &&& self@.can_read() && self@.prev_check(p) is None ==> r == Ok::<_, BridgeError>(
                    match self@.graph.next_node_after(start) {
                        Some(h) => Some(NodeProxy { graph: self@.tag, node: h }),
                        None => None,
                    },
                )
            }),
    {
        if self.writer {
            return Err(BridgeError::BorrowConflict);
        }
        let mut start: u32 = 0;
        if let Some(n) = prev {
            if n.graph != self.tag {
                return Err(BridgeError::ForeignProxy);
            }
            start = n.node;
        }
        if (start as usize) < self.graph.node_count() {
            Ok(Some(NodeProxy { graph: self.tag, node: start + 1 }))
        } else {
            Ok(None)
        }
    }

    /// One step of an enumeration of `file`: its first node after `prev`, or its
    /// first node when `prev` is absent; `None` once the nodes present now are exhausted.
    pub fn next_file_node(&self, file: &FileProxy, prev: Option<&NodeProxy>) -> (r: Result<
        Option<NodeProxy>,
        BridgeError,
    >)
        requires
            self@.graph.wf(),
        ensures
            ({
                let p = match prev {
                    Some(n) => Some(*n),
                    None => None,
                };
                let start: int = match prev {
                    Some(n) => n.node as int,
                    None => 0,
                };
                &&& !self@.can_read() ==> r == Err::<Option<NodeProxy>, _>(BridgeError::BorrowConflict)
                &&& self@.can_read() && self@.file_check(*file) is Some ==> r == Err::<
                    Option<NodeProxy>,
                    _,
                >(self@.file_check(*file).unwrap())
                &&& self@.can_read() && self@.file_check(*file) is None && self@.prev_check(p) is Some
                    ==> r == Err::<Option<NodeProxy>, _>(self@.prev_check(p).unwrap())
                &&& self@.can_read() && self@.file_check(*file) is None && self@.prev_check(p) is None
                    ==> r == Ok::<_, BridgeError>(
                    match self@.graph.first_in_file_from(file.file, start + 1) {
                        Some(h) => Some(NodeProxy { graph: self@.tag, node: h }),
                        None => None,
                    },
                )
            }),
    {
        if self.writer {
            return Err(BridgeError::BorrowConflict);
        }
        if let Some(e) = self.check_file(file) {
            return Err(e);
        }
        let mut start: u32 = 0;
        if let Some(n) = prev {
            if n.graph != self.tag {
                return Err(BridgeError::ForeignProxy);
            }
            start = n.node;
        }
        match self.first_in_file(file.file, start as u64 + 1) {
            Some(h) => Ok(Some(NodeProxy { graph: self.tag, node: h })),
            None => Ok(None),
        }
    }

    /// The first node of file `f` whose handle is `from` or later.
    fn first_in_file(&self, f: u32, from: u64) -> (r: Option<u32>)
        requires
            self@.graph.wf(),
            from >= 1,
        ensures
            r == self@.graph.first_in_file_from(f, from as int),
    {
        let ghost m = self@.graph;
        let n = self.graph.node_count();
        if from > n as u64 {
            return None;
        }
        let mut h: u32 = from as u32;
        while h as usize <= n
            invariant
                n == m.nodes.len(),
                m == self@.graph,
                m.wf(),
                1 <= h <= n + 1,
                m.first_in_file_from(f, from as int) == m.first_in_file_from(f, h as int),
            decreases n + 1 - h,
        {
            if self.graph.node(h).file == Some(f) {
                proof {
                    assert(m.first_in_file_from(f, h as int) == Some(h));
                }
                return Some(h);
            }
            proof {
                assert(m.first_in_file_from(f, h as int) == m.first_in_file_from(f, h + 1));
            }
            h += 1;
        }
        proof {
            assert(m.first_in_file_from(f, h as int) is None);
        }
        None
    }

    fn read_refusal(&self, node: &NodeProxy) -> (r: Option<BridgeError>)
        ensures
            r == self@.read_refusal(*node),
    {
        if self.writer {
            Some(BridgeError::BorrowConflict)
        } else {
            self.check_node(node)
        }
    }

    fn write_refusal(&self, node: &NodeProxy) -> (r: Option<BridgeError>)
        ensures
            r == self@.write_refusal(*node),
    {
        if self.writer || self.readers > 0 {
            Some(BridgeError::BorrowConflict)
        } else {
            self.check_node(node)
        }
    }

    /// The identifier of `node` local to its file.
    pub fn local_id(&self, node: &NodeProxy) -> (r: Result<u32, BridgeError>)
        requires
            self@.graph.wf(),
        ensures
            match self@.read_refusal(*node) {
                Some(e) => r == Err::<u32, _>(e),
                None => r == Ok::<_, BridgeError>(self@.graph.node(node.node as int).local_id),
            },
    {
        if let Some(e) = self.read_refusal(node) {
            return Err(e);
        }
        Ok(self.graph.node(node.node).local_id)
    }

    /// The span of `node`, absent until one is set.
    pub fn span(&self, node: &NodeProxy) -> (r: Result<Option<Span>, BridgeError>)
        requires
            self@.graph.wf(),
        ensures
            match self@.read_refusal(*node) {
                Some(e) => r == Err::<Option<Span>, _>(e),
                None => r == Ok::<_, BridgeError>(self@.info_of(*node).span),
            },
    {
        if let Some(e) = self.read_refusal(node) {
            return Err(e);
        }
        Ok(self.graph.source_info(node.node).span)
    }

    /// The definiens span of `node`, absent until one is set.
    pub fn definiens_span(&self, node: &NodeProxy) -> (r: Result<Option<Span>, BridgeError>)
        requires
            self@.graph.wf(),
        ensures
            match self@.read_refusal(*node) {
                Some(e) => r == Err::<Option<Span>, _>(e),
                None => r == Ok::<_, BridgeError>(self@.info_of(*node).definiens_span),
            },
    {
        if let Some(e) = self.read_refusal(node) {
            return Err(e);
        }
        Ok(self.graph.source_info(node.node).definiens_span)
    }

    /// The syntax type of `node`, absent until one is set.
    pub fn syntax_type(&self, node: &NodeProxy) -> (r: Result<Option<String>, BridgeError>)
        requires
            self@.graph.wf(),
        ensures
            match self@.read_refusal(*node) {
                Some(e) => r == Err::<Option<String>, _>(e),
                None => r is Ok && (r.unwrap() is Some <==> self@.info_of(*node).syntax_type is Some)
                    && (r.unwrap() is Some ==> r.unwrap().unwrap()@ == self@.graph.strings[
                    self@.info_of(*node).syntax_type.unwrap() as int]),
            },
    {
        if let Some(e) = self.read_refusal(node) {
            return Err(e);
        }
        match self.graph.source_info(node.node).syntax_type {
            Some(t) => {
                proof {
                    assert(self@.graph.valid_info(self@.graph.info[node.node - 1]));
                }
                Ok(Some(self.graph.string_text(t)))
            },
            None => Ok(None),
        }
    }

    /// Sets the span of `node`.
    pub fn set_span(&mut self, node: &NodeProxy, span: Span) -> (r: Result<(), BridgeError>)
        requires
            old(self)@.graph.wf(),
        ensures
            final(self)@.graph.wf(),
            match old(self)@.write_refusal(*node) {
                Some(e) => r == Err::<(), _>(e) && final(self)@ == old(self)@,
                None => r is Ok && final(self)@ == old(self)@.with_graph(
                    old(self)@.graph.with_info(
                        node.node as int,
                        SourceInfo { span: Some(span), ..old(self)@.info_of(*node) },
                    ),
                ),
            },
    {
        if let Some(e) = self.write_refusal(node) {
            return Err(e);
        }
        let mut info = self.graph.source_info(node.node);
        proof {
            assert(self@.graph.valid_info(self@.graph.info[node.node - 1]));
        }
        info.span = Some(span);
        self.graph.set_source_info(node.node, info);
        Ok(())
    }

    /// Sets the definiens span of `node`.
    pub fn set_definiens_span(&mut self, node: &NodeProxy, span: Span) -> (r: Result<(), BridgeError>)
        requires
            old(self)@.graph.wf(),
        ensures
            final(self)@.graph.wf(),
            match old(self)@.write_refusal(*node) {
                Some(e) => r == Err::<(), _>(e) && final(self)@ == old(self)@,
                None => r is Ok && final(self)@ == old(self)@.with_graph(
                    old(self)@.graph.with_info(
                        node.node as int,
                        SourceInfo { definiens_span: Some(span), ..old(self)@.info_of(*node) },
                    ),
                ),
            },
    {
        if let Some(e) = self.write_refusal(node) {
            return Err(e);
        }
        let mut info = self.graph.source_info(node.node);
        proof {
            assert(self@.graph.valid_info(self@.graph.info[node.node - 1]));
        }
        info.definiens_span = Some(span);
        self.graph.set_source_info(node.node, info);
        Ok(())
    }

    /// Sets the syntax type of `node`, interning it as a string.
    pub fn set_syntax_type(&mut self, node: &NodeProxy, syntax_type: &str) -> (r: Result<(), BridgeError>)
        requires
            old(self)@.graph.wf(),
            old(self)@.graph.has_room(),
        ensures
            final(self)@.graph.wf(),
            match old(self)@.write_refusal(*node) {
                Some(e) => r == Err::<(), _>(e) && final(self)@ == old(self)@,
                None => r is Ok && final(self)@ == old(self)@.with_graph(
                    old(self)@.graph.with_string(syntax_type@).with_info(
                        node.node as int,
                        SourceInfo {
                            syntax_type: Some(intern_index(old(self)@.graph.strings, syntax_type@) as u32),
                            ..old(self)@.info_of(*node)
                        },
                    ),
                ),
            },
    {
        if let Some(e) = self.write_refusal(node) {
            return Err(e);
        }
        let t = self.graph.add_string(syntax_type);
        let mut info = self.graph.source_info(node.node);
        proof {
            assert(self@.graph.valid_info(self@.graph.info[node.node - 1]));
        }
        info.syntax_type = Some(t);
        self.graph.set_source_info(node.node, info);
        Ok(())
    }

    /// Adds the debug pair `key`, `value` to `node`, after any it already has.
    pub fn set_debug_info(&mut self, node: &NodeProxy, key: &str, value: &str) -> (r: Result<(), BridgeError>)
        requires
            old(self)@.graph.wf(),
            old(self)@.graph.has_room(),
        ensures
            final(self)@.graph.wf(),
            match old(self)@.write_refusal(*node) {
                Some(e) => r == Err::<(), _>(e) && final(self)@ == old(self)@,
                None => r is Ok && final(self)@ == old(self)@.with_graph(
                    old(self)@.graph.with_debug(node.node, key@, value@),
                ),
            },
    {
        if let Some(e) = self.write_refusal(node) {
            return Err(e);
        }
        self.graph.add_debug_entry(node.node, key, value);
        Ok(())
    }

    /// The debug pairs of `node` in insertion order, absent while it has none.
    pub fn debug_info(&self, node: &NodeProxy) -> (r: Result<Option<Vec<(String, String)>>, BridgeError>)
        requires
            self@.graph.wf(),
        ensures
            match self@.read_refusal(*node) {
                Some(e) => r == Err::<Option<Vec<(String, String)>>, _>(e),
                None => r is Ok && (r.unwrap() is None <==> self@.graph.debug_info(node.node).len()
                    == 0) && (r.unwrap() is Some ==> string_pairs(r.unwrap().unwrap()@)
                    == self@.graph.debug_info(node.node)),
            },
    {
        if let Some(e) = self.read_refusal(node) {
            return Err(e);
        }
        let ghost m = self@.graph;
        let h = node.node;
        let n = self.graph.debug_count();
        let mut out: Vec<(String, String)> = Vec::new();
        let mut i: usize = 0;
        while i < n
            invariant
                n == m.debug.len(),
                m == self@.graph,
                m.wf(),
                0 <= i <= n,
                string_pairs(out@) == m.debug_upto(h, i as int),
            decreases n - i,
        {
            let d = self.graph.debug_entry(i);
            if d.node == h {
                let k = self.graph.string_text(d.key);
                let v = self.graph.string_text(d.value);
                let ghost before = out@;
                out.push((k, v));
                proof {
                    assert(string_pairs(out@) =~= string_pairs(before).push((k@, v@)));
                }
            }
            i += 1;
        }
        if out.len() == 0 {
            Ok(None)
        } else {
            Ok(Some(out))
        }
    }

    pub(crate) fn is_writing(&self) -> (r: bool)
        ensures
            r == !self@.can_read(),
    {
        self.writer
    }

    pub(crate) fn node_refusal(&self, node: &NodeProxy) -> (r: Option<BridgeError>)
        ensures
            r == self@.node_check(*node),
    {
        self.check_node(node)
    }

    pub(crate) fn node_at(&self, h: u32) -> (r: Node)
        requires
            self@.graph.valid_node(h as int),
        ensures
            r == self@.graph.node(h as int),
    {
        self.graph.node(h)
    }

    pub(crate) fn info_at(&self, h: u32) -> (r: SourceInfo)
        requires
            self@.graph.wf(),
            self@.graph.valid_node(h as int),
        ensures
            r == self@.graph.info[h - 1],
    {
        self.graph.source_info(h)
    }

    pub(crate) fn file_name_of(&self, f: u32) -> (r: String)
        requires
            f < self@.graph.files.len(),
        ensures
            r@ == self@.graph.files[f as int],
    {
        self.graph.file_name(f)
    }

    pub(crate) fn symbol_of(&self, s: u32) -> (r: String)
        requires
            s < self@.graph.symbols.len(),
        ensures
            r@ == self@.graph.symbols[s as int],
    {
        self.graph.symbol_text(s)
    }

    pub(crate) fn string_of(&self, s: u32) -> (r: String)
        requires
            s < self@.graph.strings.len(),
        ensures
            r@ == self@.graph.strings[s as int],
    {
        self.graph.string_text(s)
    }
}

} // verus!
