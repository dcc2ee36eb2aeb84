//! Properties of the graph and of the proxy operations, stated over the models
//! that the operations' contracts use.
use vstd::prelude::*;

use crate::bridge::{BridgeError, EdgeProxy, FileProxy, NodeProxy, NodeShape, ProxyState};
use crate::graph::{intern_index, interned, no_info, DebugEntry, GraphModel, NodeKind, SourceInfo};
use crate::span::Span;

verus! {

proof fn lemma_file_nodes_upto_facts(m: GraphModel, f: u32, k: int)
    requires
        m.wf(),
        0 <= k <= m.nodes.len(),
    ensures
        forall|i: int, j: int|
            0 <= i < j < m.file_nodes_upto(f, k).len() ==> m.file_nodes_upto(f, k)[i] < m.file_nodes_upto(
                f,
                k,
            )[j],
        forall|i: int|
            0 <= i < m.file_nodes_upto(f, k).len() ==> 1 <= #[trigger] m.file_nodes_upto(f, k)[i] <= k
                && m.in_file(m.file_nodes_upto(f, k)[i] as int, f),
        forall|h: int| 1 <= h <= k && m.in_file(h, f) ==> m.file_nodes_upto(f, k).contains(h as u32),
    decreases k,
{
    if k > 0 {
        lemma_file_nodes_upto_facts(m, f, k - 1);
        let prev = m.file_nodes_upto(f, k - 1);
        if m.in_file(k, f) {
            let cur = prev.push(k as u32);
            assert forall|h: int| 1 <= h <= k && m.in_file(h, f) implies cur.contains(h as u32) by {
                if h < k {
                    let i = choose|i: int| 0 <= i < prev.len() && prev[i] == h as u32;
                    assert(cur[i] == h as u32);
                } else {
                    assert(cur[prev.len() as int] == h as u32);
                }
            }
        }
    }
}

/// Enumerating a file yields exactly its nodes, each once, in creation order, and
/// their local identifiers strictly increase along the enumeration.
pub proof fn lemma_file_nodes_in_creation_order(m: GraphModel, f: u32)
    requires
        m.wf(),
    ensures
        forall|i: int, j: int|
            0 <= i < j < m.file_nodes(f).len() ==> m.file_nodes(f)[i] < m.file_nodes(f)[j] && m.node(
                m.file_nodes(f)[i] as int,
            ).local_id < m.node(m.file_nodes(f)[j] as int).local_id,
        forall|h: int| m.valid_node(h) ==> (m.file_nodes(f).contains(h as u32) <==> m.in_file(h, f)),
{
    let k = m.nodes.len() as int;
    lemma_file_nodes_upto_facts(m, f, k);
    let s = m.file_nodes(f);
    assert forall|i: int, j: int| 0 <= i < j < s.len() implies s[i] < s[j] && m.node(
        s[i] as int,
    ).local_id < m.node(s[j] as int).local_id by {
        assert(1 <= s[i] <= k && m.in_file(s[i] as int, f));
        assert(1 <= s[j] <= k && m.in_file(s[j] as int, f));
        assert(m.node(s[i] as int).file == m.node(s[j] as int).file);
        assert(s[i] != 1 && s[i] != 2) by {
            assert(m.node(1) == m.nodes[0]);
            assert(m.node(2) == m.nodes[1]);
        }
    }
    assert forall|h: int| m.valid_node(h) implies (s.contains(h as u32) <==> m.in_file(h, f)) by {
        if s.contains(h as u32) {
            let i = choose|i: int| 0 <= i < s.len() && s[i] == h as u32;
            assert(m.in_file(s[i] as int, f));
        }
    }
}

proof fn lemma_file_nodes_upto_same_nodes(m1: GraphModel, m2: GraphModel, f: u32, k: int)
    requires
        0 <= k <= m1.nodes.len(),
        m1.nodes.subrange(0, k) == m2.nodes.subrange(0, k),
        k <= m2.nodes.len(),
    ensures
        m1.file_nodes_upto(f, k) == m2.file_nodes_upto(f, k),
    decreases k,
{
    if k > 0 {
        assert(m1.nodes.subrange(0, k - 1) =~= m1.nodes.subrange(0, k).subrange(0, k - 1));
        assert(m2.nodes.subrange(0, k - 1) =~= m2.nodes.subrange(0, k).subrange(0, k - 1));
        assert(m1.nodes[k - 1] == m1.nodes.subrange(0, k)[k - 1]);
        assert(m2.nodes[k - 1] == m2.nodes.subrange(0, k)[k - 1]);
        lemma_file_nodes_upto_same_nodes(m1, m2, f, k - 1);
    }
}

/// Each successful node construction appends the new node to the enumeration of
/// its file, with a local identifier above those of every node already there, and
/// leaves the enumeration of every other file as it was.
pub proof fn lemma_construction_appends_to_file(
    s: ProxyState,
    file: FileProxy,
    shape: NodeShape,
    symbol: Option<Seq<char>>,
    scope: Option<NodeProxy>,
    other: u32,
)
    requires
        s.graph.wf(),
        s.node_outcome(file, shape, symbol, scope).1 is Ok,
        other != file.file,
    ensures
        ({
            let (t, r) = s.node_outcome(file, shape, symbol, scope);
            let n = r.unwrap();
            &&& t.graph.file_nodes(file.file) == s.graph.file_nodes(file.file).push(n.node)
            &&& t.graph.file_nodes(other) == s.graph.file_nodes(other)
            &&& forall|i: int|
                0 <= i < s.graph.file_nodes(file.file).len() ==> s.graph.node(
                    #[trigger] s.graph.file_nodes(file.file)[i] as int,
                ).local_id < t.graph.node(n.node as int).local_id
        }),
{
    let (t, r) = s.node_outcome(file, shape, symbol, scope);
    let m = s.graph;
    let g = t.graph;
    let k = m.nodes.len() as int;
    assert(g.nodes.subrange(0, k) =~= m.nodes.subrange(0, k));
    assert(m.nodes.subrange(0, k) =~= m.nodes);
    lemma_file_nodes_upto_same_nodes(m, g, file.file, k);
    lemma_file_nodes_upto_same_nodes(m, g, other, k);
    assert(g.node(k + 1) == g.nodes[k]);
    assert(g.file_nodes(file.file) == g.file_nodes_upto(file.file, k).push((k + 1) as u32));
    lemma_file_nodes_upto_facts(m, file.file, k);
    assert forall|i: int| 0 <= i < m.file_nodes(file.file).len() implies m.node(
        #[trigger] m.file_nodes(file.file)[i] as int,
    ).local_id < g.node(r.unwrap().node as int).local_id by {
        let h = m.file_nodes(file.file)[i] as int;
        assert(m.in_file(h, file.file));
        assert(h >= 3) by {
            assert(m.node(1) == m.nodes[0]);
            assert(m.node(2) == m.nodes[1]);
        }
    }
}

proof fn lemma_filter_by_name_upto(m: GraphModel, f: u32, k: int)
    requires
        m.wf(),
        f < m.files.len(),
        0 <= k <= m.nodes.len(),
    ensures
        m.all_nodes().take(k).filter(
            |h: u32| m.node(h as int).file matches Some(g) && m.files[g as int] == m.files[f as int],
        ) == m.file_nodes_upto(f, k),
    decreases k,
{
    let pred = |h: u32| m.node(h as int).file matches Some(g) && m.files[g as int] == m.files[f as int];
    reveal(Seq::filter);
    if k > 0 {
        lemma_filter_by_name_upto(m, f, k - 1);
        let s = m.all_nodes().take(k);
        assert(s.drop_last() =~= m.all_nodes().take(k - 1));
        assert(s.last() == k as u32);
        assert(pred(k as u32) == m.in_file(k, f)) by {
            if let Some(g) = m.node(k).file {
                if k >= 3 {
                    assert(g < m.files.len());
                }
                if m.files[g as int] == m.files[f as int] && g != f {
                    assert(m.node(1) == m.nodes[0]);
                    assert(m.node(2) == m.nodes[1]);
                    assert(false);
                }
            }
        }
    } else {
        assert(m.all_nodes().take(0) =~= Seq::<u32>::empty());
    }
}

/// Filtering the whole-graph enumeration by file name yields that file's own enumeration.
pub proof fn lemma_all_nodes_filtered_by_file(m: GraphModel, f: u32)
    requires
        m.wf(),
        f < m.files.len(),
    ensures
        m.all_nodes().filter(
            |h: u32| m.node(h as int).file matches Some(g) && m.files[g as int] == m.files[f as int],
        ) == m.file_nodes(f),
{
    lemma_filter_by_name_upto(m, f, m.nodes.len() as int);
    assert(m.all_nodes().take(m.nodes.len() as int) =~= m.all_nodes());
}

/// `a.add_edge_to(b, p)` and `b.add_edge_from(a, p)` have one outcome: the same
/// edge from `a` to `b`, with precedence `p`, or 0 when `p` is absent.
pub proof fn lemma_edge_direction_naming(s: ProxyState, a: NodeProxy, b: NodeProxy, p: Option<i32>)
    ensures
        s.add_edge_to_outcome(a, b, p) == s.add_edge_from_outcome(b, a, p),
        s.add_edge_to_outcome(a, b, p).1 matches Ok(e) ==> e.edge.source == a.node && e.edge.sink
            == b.node && e.edge.precedence == (match p {
            Some(x) => x,
            None => 0,
        }),
{
}

/// An edge added without a precedence has precedence 0.
pub proof fn lemma_default_precedence(s: ProxyState, a: NodeProxy, b: NodeProxy)
    ensures
        s.edge_outcome(a, b, None) == s.edge_outcome(a, b, Some(0)),
        s.edge_outcome(a, b, None).1 matches Ok(e) ==> e.edge.precedence == 0,
{
}

/// A scoped push whose scope operand is a node of this graph but not an exported
/// scope is refused, and changes nothing.
pub proof fn lemma_scope_must_be_exported(
    s: ProxyState,
    file: FileProxy,
    is_reference: bool,
    symbol: Seq<char>,
    scope: NodeProxy,
)
    requires
        s.node_check(scope) is None,
        !s.graph.is_exported_scope(scope.node as int),
    ensures
        ({
            let (t, r) = s.node_outcome(
                file,
                NodeShape::PushScopedSymbol { is_reference },
                Some(symbol),
                Some(scope),
            );
            &&& r is Err
            &&& t == s
            &&& t.graph.nodes.len() == s.graph.nodes.len()
            &&& t.graph.edges.len() == s.graph.edges.len()
            &&& s.can_write() && s.file_check(file) is None ==> r == Err::<NodeProxy, _>(
                BridgeError::NotExportedScope,
            )
        }),
{
}

/// A node fresh from construction reads back no span, definiens span, syntax type
/// or debug pair.
pub proof fn lemma_new_node_has_no_attachments(
    s: ProxyState,
    file: FileProxy,
    shape: NodeShape,
    symbol: Option<Seq<char>>,
    scope: Option<NodeProxy>,
)
    requires
        s.graph.wf(),
        s.node_outcome(file, shape, symbol, scope).1 is Ok,
    ensures
        ({
            let (t, r) = s.node_outcome(file, shape, symbol, scope);
            let n = r.unwrap();
            &&& t.info_of(n) == no_info()
            &&& t.graph.debug_info(n.node).len() == 0
        }),
{
    let (t, r) = s.node_outcome(file, shape, symbol, scope);
    let h = r.unwrap().node;
    let m = t.graph;
    assert(m.debug == s.graph.debug);
    lemma_no_debug_entries_for(m, h, m.debug.len() as int);
}

proof fn lemma_no_debug_entries_for(m: GraphModel, h: u32, i: int)
    requires
        0 <= i <= m.debug.len(),
        forall|j: int| 0 <= j < i ==> #[trigger] m.debug[j].node != h,
    ensures
        m.debug_upto(h, i).len() == 0,
    decreases i,
{
    if i > 0 {
        lemma_no_debug_entries_for(m, h, i - 1);
    }
}

/// A span, once set, reads back as that span; so does a definiens span.
pub proof fn lemma_span_round_trip(s: ProxyState, node: NodeProxy, span: Span)
    requires
        s.graph.wf(),
        s.write_refusal(node) is None,
    ensures
        ({
            let t = s.with_graph(
                s.graph.with_info(node.node as int, SourceInfo { span: Some(span), ..s.info_of(node) }),
            );
            &&& t.read_refusal(node) is None
            &&& t.info_of(node).span == Some(span)
        }),
        ({
            let t = s.with_graph(
                s.graph.with_info(
                    node.node as int,
                    SourceInfo { definiens_span: Some(span), ..s.info_of(node) },
                ),
            );
            &&& t.read_refusal(node) is None
            &&& t.info_of(node).definiens_span == Some(span)
        }),
{
}

/// A syntax type, once set, reads back as the text that was set.
pub proof fn lemma_syntax_type_round_trip(s: ProxyState, node: NodeProxy, text: Seq<char>)
    requires
        s.graph.wf(),
        s.graph.has_room(),
        s.write_refusal(node) is None,
    ensures
        ({
            let g = s.graph.with_string(text);
            let t = s.with_graph(
                g.with_info(
                    node.node as int,
                    SourceInfo {
                        syntax_type: Some(intern_index(s.graph.strings, text) as u32),
                        ..s.info_of(node)
                    },
                ),
            );
            &&& t.read_refusal(node) is None
            &&& t.info_of(node).syntax_type matches Some(x) && t.graph.strings[x as int] == text
        }),
{
    let m = s.graph;
    if !m.strings.contains(text) {
        assert(m.with_string(text).strings[m.strings.len() as int] == text);
    } else {
        let i = m.strings.index_of(text);
        assert(0 <= i < m.strings.len() && m.strings[i] == text);
    }
}

/// A debug pair, once set, is the last pair that the node reads back, after those
/// it had before.
pub proof fn lemma_debug_round_trip(s: ProxyState, node: NodeProxy, key: Seq<char>, value: Seq<char>)
    requires
        s.graph.wf(),
        s.graph.has_room(),
        s.write_refusal(node) is None,
    ensures
        ({
            let t = s.with_graph(s.graph.with_debug(node.node, key, value));
            &&& t.read_refusal(node) is None
            &&& t.graph.debug_info(node.node) == s.graph.debug_info(node.node).push((key, value))
        }),
{
    let m = s.graph;
    let g = m.with_debug(node.node, key, value);
    let m1 = m.with_string(key);
    lemma_interned_at(m.strings, key);
    lemma_interned_at(m1.strings, value);
    let ki = intern_index(m.strings, key);
    let vi = intern_index(m1.strings, value);
    assert(m1.strings[ki] == key);
    assert(g.strings[vi] == value);
    assert(g.strings[ki] == m1.strings[ki]);
    lemma_debug_upto_prefix(m, g, node.node, m.debug.len() as int);
    let n = m.debug.len() as int;
    assert(g.debug[n] == DebugEntry { node: node.node, key: ki as u32, value: vi as u32 });
    assert(g.debug_upto(node.node, n + 1) == g.debug_upto(node.node, n).push((g.strings[ki], g.strings[vi])));
}

proof fn lemma_interned_at(table: Seq<Seq<char>>, text: Seq<char>)
    ensures
        0 <= intern_index(table, text) < interned(table, text).len(),
        interned(table, text)[intern_index(table, text)] == text,
        table.is_prefix_of(interned(table, text)),
{
    if table.contains(text) {
        let i = table.index_of(text);
        assert(0 <= i < table.len() && table[i] == text);
    } else {
        assert(table.push(text)[table.len() as int] == text);
    }
}

proof fn lemma_debug_upto_prefix(m: GraphModel, g: GraphModel, h: u32, i: int)
    requires
        m.wf(),
        0 <= i <= m.debug.len(),
        m.debug.is_prefix_of(g.debug),
        m.strings.is_prefix_of(g.strings),
    ensures
        m.debug_upto(h, i) == g.debug_upto(h, i),
    decreases i,
{
    if i > 0 {
        lemma_debug_upto_prefix(m, g, h, i - 1);
        assert(m.debug[i - 1] == g.debug[i - 1]);
    }
}

/// An enumeration that was exhausted sees, once restarted from its last node, a
/// node added since; both for the whole graph and for the new node's file.
pub proof fn lemma_restart_sees_new_nodes(m: GraphModel, f: u32, k: NodeKind)
    requires
        m.wf(),
        f < m.files.len(),
    ensures
        m.next_node_after(m.nodes.len() as int) is None,
        m.first_in_file_from(f, m.nodes.len() as int + 1) is None,
        m.with_node(f, k).next_node_after(m.nodes.len() as int) == Some((m.nodes.len() + 1) as u32),
        m.with_node(f, k).first_in_file_from(f, m.nodes.len() as int + 1) == Some((m.nodes.len() + 1) as u32),
{
    let g = m.with_node(f, k);
    assert(g.node(m.nodes.len() as int + 1) == g.nodes[m.nodes.len() as int]);
}

/// While an exclusive access is open, every operation is refused with a borrow
/// conflict and changes nothing.
pub proof fn lemma_exclusive_access_excludes(
    s: ProxyState,
    file: FileProxy,
    shape: NodeShape,
    symbol: Option<Seq<char>>,
    scope: Option<NodeProxy>,
    a: NodeProxy,
    b: NodeProxy,
    p: Option<i32>,
)
    requires
        s.writer,
    ensures
        s.node_outcome(file, shape, symbol, scope) == (s, Err::<NodeProxy, _>(BridgeError::BorrowConflict)),
        s.edge_outcome(a, b, p) == (s, Err::<EdgeProxy, _>(BridgeError::BorrowConflict)),
        s.read_refusal(a) == Some(BridgeError::BorrowConflict),
        s.write_refusal(a) == Some(BridgeError::BorrowConflict),
{
}

} // verus!
