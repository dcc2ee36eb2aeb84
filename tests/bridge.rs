use stack_graphs_lua::bridge::{BridgeError, EdgeProxy, FileProxy, GraphProxy, NodeProxy};
use stack_graphs_lua::graph::{Edge, StackGraph, JUMP_TO_NODE, ROOT_NODE};
use stack_graphs_lua::span::{LineRange, Offset, Position, Span};

fn graph(tag: u64) -> GraphProxy {
    GraphProxy::new(tag, StackGraph::new())
}

fn position(line: usize, column: usize) -> Position {
    Position {
        line,
        column: Offset { utf8_offset: column, utf16_offset: column, grapheme_offset: column },
        containing_line: LineRange { start: 1, end: 14 },
        trimmed_line: LineRange { start: 2, end: 12 },
    }
}

fn span(a: usize, b: usize, c: usize, d: usize) -> Span {
    Span { start: position(a, b), end: position(c, d) }
}

fn enumerate_all(g: &GraphProxy) -> Vec<NodeProxy> {
    let mut out = Vec::new();
    let mut prev: Option<NodeProxy> = None;
    while let Some(n) = g.next_node(prev.as_ref()).unwrap() {
        out.push(n);
        prev = Some(n);
    }
    out
}

fn enumerate_file(g: &GraphProxy, f: &FileProxy) -> Vec<NodeProxy> {
    let mut out = Vec::new();
    let mut prev: Option<NodeProxy> = None;
    while let Some(n) = g.next_file_node(f, prev.as_ref()).unwrap() {
        out.push(n);
        prev = Some(n);
    }
    out
}

#[test]
fn example_graph_enumerates_three_nodes() {
    let mut g = graph(1);
    let f = g.file("test.py").unwrap();
    let d = g.definition_node(&f, "foo").unwrap();
    let root = g.root_node();
    g.add_edge_from(&d, &root, None).unwrap();
    let nodes = g.nodes().unwrap();
    assert_eq!(nodes.len(), 3);
    assert_eq!(nodes[0], root);
    assert_eq!(nodes[1], g.jump_to_node());
    assert_eq!(nodes[2], d);
    assert_eq!(enumerate_all(&g), nodes);
    assert_eq!(g.node_to_string(&nodes[0]).unwrap(), "[root]");
    assert_eq!(g.node_to_string(&nodes[1]).unwrap(), "[jump to scope]");
    assert_eq!(g.node_to_string(&d).unwrap(), "[test.py(0) definition foo]");
}

#[test]
fn local_ids_increase_and_file_enumeration_follows_creation() {
    let mut g = graph(1);
    let a = g.file("a.py").unwrap();
    let b = g.file("b.py").unwrap();
    let mut made = Vec::new();
    for i in 0..12 {
        let f = if i % 3 == 0 { &b } else { &a };
        let n = match i % 4 {
            0 => g.reference_node(f, "x").unwrap(),
            1 => g.internal_scope_node(f).unwrap(),
            2 => g.pop_symbol_node(f, "y").unwrap(),
            _ => g.drop_scopes_node(f).unwrap(),
        };
        if i % 3 != 0 {
            made.push(n);
        }
    }
    let ids: Vec<u32> = made.iter().map(|n| g.local_id(n).unwrap()).collect();
    for w in ids.windows(2) {
        assert!(w[0] < w[1]);
    }
    assert_eq!(ids[0], 0);
    assert_eq!(g.file_nodes(&a).unwrap(), made);
    assert_eq!(enumerate_file(&g, &a), made);
}

#[test]
fn filtering_all_nodes_by_file_matches_file_enumeration() {
    let mut g = graph(1);
    let a = g.file("a.py").unwrap();
    let b = g.file("b.py").unwrap();
    g.definition_node(&a, "one").unwrap();
    g.definition_node(&b, "two").unwrap();
    g.exported_scope_node(&a).unwrap();
    g.push_symbol_node(&b, "three").unwrap();
    let again = g.file("a.py").unwrap();
    assert_eq!(again, a);
    let filtered: Vec<NodeProxy> = g
        .nodes()
        .unwrap()
        .into_iter()
        .filter(|n| {
            let text = g.node_to_string(n).unwrap();
            text.starts_with("[a.py(")
        })
        .collect();
    assert_eq!(filtered, g.file_nodes(&a).unwrap());
    assert_eq!(filtered.len(), 2);
}

#[test]
fn edge_direction_naming_gives_equal_edges() {
    let mut g = graph(1);
    let f = g.file("f").unwrap();
    let a = g.definition_node(&f, "a").unwrap();
    let b = g.reference_node(&f, "b").unwrap();
    let e1 = g.add_edge_to(&a, &b, Some(7)).unwrap();
    let e2 = g.add_edge_from(&b, &a, Some(7)).unwrap();
    assert_eq!(e1, e2);
    assert_eq!(e1.edge, Edge { source: a.node, sink: b.node, precedence: 7 });
    let out = g.outgoing_edges(&a).unwrap();
    assert_eq!(out, vec![e1, e2]);
}

#[test]
fn precedence_defaults_to_zero() {
    let mut g = graph(1);
    let f = g.file("f").unwrap();
    let a = g.definition_node(&f, "a").unwrap();
    let root = g.root_node();
    let e = g.add_edge_to(&root, &a, None).unwrap();
    assert_eq!(e.edge.precedence, 0);
    assert_eq!(g.edge_to_string(&e).unwrap(), "[root] -0-> [f(0) definition a]");
}

#[test]
fn negative_precedence_renders_with_sign() {
    let mut g = graph(1);
    let f = g.file("f").unwrap();
    let a = g.pop_scoped_symbol_node(&f, "a").unwrap();
    let jump = g.jump_to_node();
    let e = g.add_edge_to(&a, &jump, Some(-15)).unwrap();
    assert_eq!(g.edge_to_string(&e).unwrap(), "[f(0) pop scoped a] --15-> [jump to scope]");
}

#[test]
fn scoped_push_requires_exported_scope() {
    let mut g = graph(1);
    let f = g.file("f").unwrap();
    let internal = g.internal_scope_node(&f).unwrap();
    let before_nodes = g.nodes().unwrap().len();
    let before_edges = g.edges().unwrap().len();
    assert_eq!(g.push_scoped_symbol_node(&f, "x", &internal), Err(BridgeError::NotExportedScope));
    assert_eq!(g.scoped_reference_node(&f, "x", &internal), Err(BridgeError::NotExportedScope));
    let root = g.root_node();
    assert_eq!(g.scoped_reference_node(&f, "x", &root), Err(BridgeError::NotExportedScope));
    assert_eq!(g.nodes().unwrap().len(), before_nodes);
    assert_eq!(g.edges().unwrap().len(), before_edges);
    let exported = g.exported_scope_node(&f).unwrap();
    let r = g.scoped_reference_node(&f, "x", &exported).unwrap();
    let p = g.push_scoped_symbol_node(&f, "y", &exported).unwrap();
    assert_eq!(g.node_to_string(&r).unwrap(), "[f(2) scoped reference x f(1)]");
    assert_eq!(g.node_to_string(&p).unwrap(), "[f(3) push scoped y f(1)]");
}

#[test]
fn spans_and_debug_info_round_trip() {
    let mut g = graph(1);
    let f = g.file("f").unwrap();
    let n = g.definition_node(&f, "a").unwrap();
    assert_eq!(g.span(&n).unwrap(), None);
    assert_eq!(g.definiens_span(&n).unwrap(), None);
    assert_eq!(g.syntax_type(&n).unwrap(), None);
    assert_eq!(g.debug_info(&n).unwrap(), None);
    let s = span(1, 2, 3, 4);
    let d = span(5, 6, 7, 8);
    g.set_span(&n, s).unwrap();
    assert_eq!(g.span(&n).unwrap(), Some(s));
    assert_eq!(g.definiens_span(&n).unwrap(), None);
    g.set_definiens_span(&n, d).unwrap();
    assert_eq!(g.definiens_span(&n).unwrap(), Some(d));
    g.set_syntax_type(&n, "function").unwrap();
    assert_eq!(g.syntax_type(&n).unwrap(), Some("function".to_string()));
    g.set_debug_info(&n, "k", "v1").unwrap();
    g.set_debug_info(&n, "k", "v2").unwrap();
    g.set_debug_info(&n, "other", "v1").unwrap();
    assert_eq!(
        g.debug_info(&n).unwrap(),
        Some(vec![
            ("k".to_string(), "v1".to_string()),
            ("k".to_string(), "v2".to_string()),
            ("other".to_string(), "v1".to_string()),
        ])
    );
    assert_eq!(
        g.node_to_string(&n).unwrap(),
        "[f(0) definition a (function) at 1:2-3:4 def 5:6-7:8]"
    );
}

#[test]
fn zero_spans_are_left_out_of_rendering() {
    let mut g = graph(1);
    let f = g.file("f").unwrap();
    let n = g.push_symbol_node(&f, "a").unwrap();
    g.set_span(&n, Span::zero()).unwrap();
    assert_eq!(g.span(&n).unwrap(), Some(Span::default()));
    assert_eq!(g.node_to_string(&n).unwrap(), "[f(0) push a]");
    g.set_definiens_span(&n, span(12, 0, 120, 34)).unwrap();
    assert_eq!(g.node_to_string(&n).unwrap(), "[f(0) push a def 12:0-120:34]");
}

#[test]
fn restarted_enumeration_sees_new_nodes() {
    let mut g = graph(1);
    let f = g.file("f").unwrap();
    let a = g.definition_node(&f, "a").unwrap();
    let all = enumerate_all(&g);
    let last = *all.last().unwrap();
    assert_eq!(g.next_node(Some(&last)).unwrap(), None);
    assert_eq!(g.next_file_node(&f, Some(&a)).unwrap(), None);
    let b = g.reference_node(&f, "b").unwrap();
    assert_eq!(g.next_node(Some(&last)).unwrap(), Some(b));
    assert_eq!(g.next_file_node(&f, Some(&a)).unwrap(), Some(b));
    assert_eq!(enumerate_all(&g).len(), all.len() + 1);
    assert_eq!(enumerate_file(&g, &f), vec![a, b]);
}

#[test]
fn exclusive_access_conflicts() {
    let mut g = graph(1);
    let f = g.file("f").unwrap();
    let n = g.definition_node(&f, "a").unwrap();
    g.begin_write().unwrap();
    assert_eq!(g.begin_write(), Err(BridgeError::BorrowConflict));
    assert_eq!(g.begin_read(), Err(BridgeError::BorrowConflict));
    assert_eq!(g.file("g"), Err(BridgeError::BorrowConflict));
    assert_eq!(g.definition_node(&f, "b"), Err(BridgeError::BorrowConflict));
    assert_eq!(g.set_span(&n, Span::zero()), Err(BridgeError::BorrowConflict));
    assert_eq!(g.nodes(), Err(BridgeError::BorrowConflict));
    assert_eq!(g.node_to_string(&n), Err(BridgeError::BorrowConflict));
    g.end_write();
    g.begin_read().unwrap();
    g.begin_read().unwrap();
    assert_eq!(g.nodes().unwrap().len(), 3);
    assert_eq!(g.begin_write(), Err(BridgeError::BorrowConflict));
    let root = g.root_node();
    assert_eq!(g.add_edge_to(&root, &n, None), Err(BridgeError::BorrowConflict));
    g.end_read();
    g.end_read();
    assert!(g.add_edge_to(&root, &n, None).is_ok());
}

#[test]
fn proxies_of_another_graph_are_refused() {
    let mut g = graph(1);
    let mut h = graph(2);
    let f = g.file("f").unwrap();
    let n = g.definition_node(&f, "a").unwrap();
    assert_eq!(h.definition_node(&f, "a"), Err(BridgeError::ForeignProxy));
    assert_eq!(h.local_id(&n), Err(BridgeError::ForeignProxy));
    let hf = h.file("f").unwrap();
    let hn = h.definition_node(&hf, "a").unwrap();
    assert_eq!(g.add_edge_to(&n, &hn, None), Err(BridgeError::ForeignProxy));
    assert_eq!(g.next_node(Some(&hn)), Err(BridgeError::ForeignProxy));
}

#[test]
fn unknown_operands_are_refused() {
    let mut g = graph(1);
    let missing_file = FileProxy { graph: 1, file: 4 };
    assert_eq!(g.drop_scopes_node(&missing_file), Err(BridgeError::NoSuchFile));
    assert_eq!(g.file_nodes(&missing_file), Err(BridgeError::NoSuchFile));
    let missing_node = NodeProxy { graph: 1, node: 9 };
    assert_eq!(g.span(&missing_node), Err(BridgeError::NoSuchNode));
    let zero = NodeProxy { graph: 1, node: 0 };
    assert_eq!(g.local_id(&zero), Err(BridgeError::NoSuchNode));
    let e = EdgeProxy { graph: 1, edge: Edge { source: ROOT_NODE, sink: 9, precedence: 0 } };
    assert_eq!(g.edge_to_string(&e), Err(BridgeError::NoSuchNode));
}

#[test]
fn file_edges_include_edges_from_singletons() {
    let mut g = graph(1);
    let a = g.file("a").unwrap();
    let b = g.file("b").unwrap();
    let x = g.definition_node(&a, "x").unwrap();
    let y = g.reference_node(&b, "y").unwrap();
    let root = g.root_node();
    let jump = NodeProxy { graph: 1, node: JUMP_TO_NODE };
    let e_root_x = g.add_edge_to(&root, &x, None).unwrap();
    let _e_root_y = g.add_edge_to(&root, &y, None).unwrap();
    let e_jump_x = g.add_edge_to(&jump, &x, Some(2)).unwrap();
    let e_x_y = g.add_edge_to(&x, &y, Some(1)).unwrap();
    let e_y_x = g.add_edge_to(&y, &x, None).unwrap();
    assert_eq!(g.file_edges(&a).unwrap(), vec![e_root_x, e_jump_x, e_x_y]);
    assert_eq!(g.file_edges(&b).unwrap().len(), 2);
    let all = g.edges().unwrap();
    assert_eq!(all.len(), 5);
    assert_eq!(all[2], e_jump_x);
    assert_eq!(all[3], e_x_y);
    assert_eq!(all[4], e_y_x);
}

#[test]
fn every_node_kind_renders() {
    let mut g = graph(1);
    let f = g.file("m.rs").unwrap();
    let mut texts = Vec::new();
    let n0 = g.scoped_definition_node(&f, "s").unwrap();
    let n1 = g.pop_symbol_node(&f, "p").unwrap();
    let n2 = g.push_symbol_node(&f, "q").unwrap();
    let n3 = g.drop_scopes_node(&f).unwrap();
    let n4 = g.exported_scope_node(&f).unwrap();
    for n in [n0, n1, n2, n3, n4] {
        texts.push(g.node_to_string(&n).unwrap());
    }
    assert_eq!(
        texts,
        vec![
            "[m.rs(0) scoped definition s]",
            "[m.rs(1) pop p]",
            "[m.rs(2) push q]",
            "[m.rs(3) drop scopes]",
            "[m.rs(4) exported scope]",
        ]
    );
}

#[test]
fn local_ids_render_in_decimal() {
    let mut g = graph(1);
    let f = g.file("f").unwrap();
    let mut last = None;
    for _ in 0..123 {
        last = Some(g.internal_scope_node(&f).unwrap());
    }
    let n = last.unwrap();
    assert_eq!(g.local_id(&n).unwrap(), 122);
    assert_eq!(g.node_to_string(&n).unwrap(), "[f(122) internal scope]");
}
