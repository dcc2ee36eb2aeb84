//! Single-line text forms of nodes and edges.
use vstd::prelude::*;
use vstd::string::StringExecFns;

use crate::bridge::{BridgeError, EdgeProxy, GraphProxy, NodeProxy};
use crate::graph::{GraphModel, NodeKind, SourceInfo};
use crate::span::Span;

verus! {

pub open spec fn digit_text(d: nat) -> Seq<char> {
    if d == 0 {
        "0"@
    } else if d == 1 {
        "1"@
    } else if d == 2 {
        "2"@
    } else if d == 3 {
        "3"@
    } else if d == 4 {
        "4"@
    } else if d == 5 {
        "5"@
    } else if d == 6 {
        "6"@
    } else if d == 7 {
        "7"@
    } else if d == 8 {
        "8"@
    } else {
        "9"@
    }
}

/// The decimal digits of `n`, most significant first, with no leading zero.
pub open spec fn decimal(n: nat) -> Seq<char>
    decreases n,
{
    if n < 10 {
        digit_text(n)
    } else {
        decimal(n / 10) + digit_text(n % 10)
    }
}

/// `n` in decimal, with a minus sign when negative.
pub open spec fn signed_decimal(n: int) -> Seq<char> {
    if n < 0 {
        "-"@ + decimal((-n) as nat)
    } else {
        decimal(n as nat)
    }
}

/// `line:column-line:column` of the two ends of `s`, columns as UTF-8 offsets.
pub open spec fn span_text(s: Span) -> Seq<char> {
    decimal(s.start.line as nat) + ":"@ + decimal(s.start.column.utf8_offset as nat) + "-"@
        + decimal(s.end.line as nat) + ":"@ + decimal(s.end.column.utf8_offset as nat)
}

/// The identifier of node `h`: its file's name and its local identifier.
pub open spec fn id_text(m: GraphModel, h: int) -> Seq<char> {
    let n = m.node(h);
    m.files[n.file.unwrap() as int] + "("@ + decimal(n.local_id as nat) + ")"@
}

/// The text of node `h` inside its brackets.
pub open spec fn node_core(m: GraphModel, h: int) -> Seq<char> {
    match m.node(h).kind {
        NodeKind::Root => "root"@,
        NodeKind::JumpTo => "jump to scope"@,
        NodeKind::DropScopes => id_text(m, h) + " drop scopes"@,
        NodeKind::Scope { is_exported } => id_text(m, h) + if is_exported {
            " exported scope"@
        } else {
            " internal scope"@
        },
        NodeKind::PushSymbol { symbol, is_reference } => id_text(m, h) + if is_reference {
            " reference "@
        } else {
            " push "@
        } + m.symbols[symbol as int],
        NodeKind::PushScopedSymbol { symbol, scope, is_reference } => id_text(m, h) + if is_reference {
            " scoped reference "@
        } else {
            " push scoped "@
        } + m.symbols[symbol as int] + " "@ + id_text(m, scope as int),
        NodeKind::PopSymbol { symbol, is_definition } => id_text(m, h) + if is_definition {
            " definition "@
        } else {
            " pop "@
        } + m.symbols[symbol as int],
        NodeKind::PopScopedSymbol { symbol, is_definition } => id_text(m, h) + if is_definition {
            " scoped definition "@
        } else {
            " pop scoped "@
        } + m.symbols[symbol as int],
    }
}

/// The display form of node `h`.
pub open spec fn node_display(m: GraphModel, h: int) -> Seq<char> {
    "["@ + node_core(m, h) + "]"@
}

/// What the attachments `i` add to a rendering: the syntax type in parentheses,
/// then the span and the definiens span where set to a non-zero span.
pub open spec fn info_suffix(m: GraphModel, i: SourceInfo) -> Seq<char> {
    (match i.syntax_type {
        Some(t) => " ("@ + m.strings[t as int] + ")"@,
        None => Seq::empty(),
    }) + (match i.span {
        Some(s) => if s != Span::spec_zero() {
            " at "@ + span_text(s)
        } else {
            Seq::empty()
        },
        None => Seq::empty(),
    }) + (match i.definiens_span {
        Some(s) => if s != Span::spec_zero() {
            " def "@ + span_text(s)
        } else {
            Seq::empty()
        },
        None => Seq::empty(),
    })
}

/// The rendering of node `h` with its attachments.
pub open spec fn node_text(m: GraphModel, h: int) -> Seq<char> {
    "["@ + node_core(m, h) + info_suffix(m, m.info[h - 1]) + "]"@
}

/// The rendering of edge `e`: `source -precedence-> sink`.
pub open spec fn edge_text(m: GraphModel, e: EdgeProxy) -> Seq<char> {
    node_display(m, e.edge.source as int) + " -"@ + signed_decimal(e.edge.precedence as int) + "-> "@
        + node_display(m, e.edge.sink as int)
}

fn digit_str(d: u64) -> (r: &'static str)
    requires
        d < 10,
    ensures
        r@ == digit_text(d as nat),
{
    if d == 0 {
        "0"
    } else if d == 1 {
        "1"
    } else if d == 2 {
        "2"
    } else if d == 3 {
        "3"
    } else if d == 4 {
        "4"
    } else if d == 5 {
        "5"
    } else if d == 6 {
        "6"
    } else if d == 7 {
        "7"
    } else if d == 8 {
        "8"
    } else {
        "9"
    }
}

fn push_decimal(out: &mut String, n: u64)
    ensures
        final(out)@ == old(out)@ + decimal(n as nat),
    decreases n,
{
    if n >= 10 {
        push_decimal(out, n / 10);
    }
    out.append(digit_str(n % 10));
    proof {
        assert(final(out)@ =~= old(out)@ + decimal(n as nat));
    }
}


fn push_signed(out: &mut String, n: i32)
    ensures
        final(out)@ == old(out)@ + signed_decimal(n as int),
{
    if n < 0 {
        out.append("-");
        let magnitude: u64 = (0i64 - n as i64) as u64;
        push_decimal(out, magnitude);
        proof {
            assert(final(out)@ =~= old(out)@ + signed_decimal(n as int));
        }
    } else {
        push_decimal(out, n as u64);
    }
}

fn push_span(out: &mut String, s: &Span)
    ensures
        final(out)@ == old(out)@ + span_text(*s),
{
    let ghost start = out@;
    push_decimal(out, s.start.line as u64);
    out.append(":");
    push_decimal(out, s.start.column.utf8_offset as u64);
    out.append("-");
    push_decimal(out, s.end.line as u64);
    out.append(":");
    push_decimal(out, s.end.column.utf8_offset as u64);
    proof {
        assert(out@ =~= start + span_text(*s));
    }
}

impl GraphProxy {
    /// Appends the identifier of node `h`, a node of some file.
    fn push_id(&self, out: &mut String, h: u32)
        requires
            self@.graph.wf(),
            3 <= h <= self@.graph.nodes.len(),
        ensures
            final(out)@ == old(out)@ + id_text(self@.graph, h as int),
    {
        let ghost start = out@;
        let node = self.node_at(h);
        proof {
            assert(self@.graph.node(h as int).file matches Some(f));
        }
        let f = match node.file {
            Some(f) => f,
            None => 0,
        };
        let name = self.file_name_of(f);
        out.append(name.as_str());
        out.append("(");
        push_decimal(out, node.local_id as u64);
        out.append(")");
        proof {
            assert(out@ =~= start + id_text(self@.graph, h as int));
        }
    }

    /// Appends the text of node `h` inside its brackets.
    fn push_core(&self, out: &mut String, h: u32)
        requires
            self@.graph.wf(),
            self@.graph.valid_node(h as int),
        ensures
            final(out)@ == old(out)@ + node_core(self@.graph, h as int),
    {
        let ghost m = self@.graph;
        let ghost start = out@;
        let node = self.node_at(h);
        match node.kind {
            NodeKind::Root => {
                out.append("root");
            },
            NodeKind::JumpTo => {
                out.append("jump to scope");
            },
            NodeKind::DropScopes => {
                self.push_id(out, h);
                out.append(" drop scopes");
            },
            NodeKind::Scope { is_exported } => {
                self.push_id(out, h);
                if is_exported {
                    out.append(" exported scope");
                } else {
                    out.append(" internal scope");
                }
            },
            NodeKind::PushSymbol { symbol, is_reference } => {
                self.push_id(out, h);
                if is_reference {
                    out.append(" reference ");
                } else {
                    out.append(" push ");
                }
                let text = self.symbol_of(symbol);
                out.append(text.as_str());
            },
            NodeKind::PushScopedSymbol { symbol, scope, is_reference } => {
                self.push_id(out, h);
                if is_reference {
                    out.append(" scoped reference ");
                } else {
                    out.append(" push scoped ");
                }
                let text = self.symbol_of(symbol);
                out.append(text.as_str());
                out.append(" ");
                proof {
                    assert(m.is_exported_scope(scope as int));
                    assert(scope >= 3) by {
                        if scope == 1 {
                            assert(m.node(1) == m.nodes[0]);
                        } else if scope == 2 {
                            assert(m.node(2) == m.nodes[1]);
                        }
                    }
                }
                self.push_id(out, scope);
            },
            NodeKind::PopSymbol { symbol, is_definition } => {
                self.push_id(out, h);
                if is_definition {
                    out.append(" definition ");
                } else {
                    out.append(" pop ");
                }
                let text = self.symbol_of(symbol);
                out.append(text.as_str());
            },
            NodeKind::PopScopedSymbol { symbol, is_definition } => {
                self.push_id(out, h);
                if is_definition {
                    out.append(" scoped definition ");
                } else {
                    out.append(" pop scoped ");
                }
                let text = self.symbol_of(symbol);
                out.append(text.as_str());
            },
        }
        proof {
            assert(out@ =~= start + node_core(m, h as int));
        }
    }

    /// Appends what the attachments of node `h` add to its rendering.
    fn push_info_suffix(&self, out: &mut String, h: u32)
        requires
            self@.graph.wf(),
            self@.graph.valid_node(h as int),
        ensures
            final(out)@ == old(out)@ + info_suffix(self@.graph, self@.graph.info[h - 1]),
    {
        let ghost m = self@.graph;
        let ghost start = out@;
        let info = self.info_at(h);
        proof {
            assert(m.valid_info(m.info[h - 1]));
        }
        if let Some(t) = info.syntax_type {
            out.append(" (");
            let text = self.string_of(t);
            out.append(text.as_str());
            out.append(")");
        }
        let ghost mid1 = out@;
        if let Some(s) = info.span {
            if !s.is_zero() {
                out.append(" at ");
                push_span(out, &s);
            }
        }
        let ghost mid2 = out@;
        if let Some(s) = info.definiens_span {
            if !s.is_zero() {
                out.append(" def ");
                push_span(out, &s);
            }
        }
        proof {
            assert(out@ =~= start + info_suffix(m, m.info[h - 1]));
        }
    }

    /// The rendering of `node`: its display form with the syntax type, span and
    /// definiens span that are set on it.
    pub fn node_to_string(&self, node: &NodeProxy) -> (r: Result<String, BridgeError>)
        requires
            self@.graph.wf(),
        ensures
            match self@.read_refusal(*node) {
                Some(e) => r == Err::<String, _>(e),
                None => r is Ok && r.unwrap()@ == node_text(self@.graph, node.node as int),
            },
    {
        if self.is_writing() {
            return Err(BridgeError::BorrowConflict);
        }
        if let Some(e) = self.node_refusal(node) {
            return Err(e);
        }
        let mut out = String::new();
        out.append("[");
        self.push_core(&mut out, node.node);
        self.push_info_suffix(&mut out, node.node);
        out.append("]");
        proof {
            assert(out@ =~= node_text(self@.graph, node.node as int));
        }
        Ok(out)
    }

    /// The rendering of `edge`: `source -precedence-> sink`, each end in its display form.
    pub fn edge_to_string(&self, edge: &EdgeProxy) -> (r: Result<String, BridgeError>)
        requires
            self@.graph.wf(),
        ensures
            match self@.edge_refusal(*edge) {
                Some(e) => r == Err::<String, _>(e),
                None => r is Ok && r.unwrap()@ == edge_text(self@.graph, *edge),
            },
    {
        if self.is_writing() {
            return Err(BridgeError::BorrowConflict);
        }
        let source = NodeProxy { graph: edge.graph, node: edge.edge.source };
        let sink = NodeProxy { graph: edge.graph, node: edge.edge.sink };
        if let Some(e) = self.node_refusal(&source) {
            return Err(e);
        }
        if let Some(e) = self.node_refusal(&sink) {
            return Err(e);
        }
        let mut out = String::new();
        out.append("[");
        self.push_core(&mut out, edge.edge.source);
        out.append("]");
        out.append(" -");
        push_signed(&mut out, edge.edge.precedence);
        out.append("-> ");
        out.append("[");
        self.push_core(&mut out, edge.edge.sink);
        out.append("]");
        proof {
            assert(out@ =~= edge_text(self@.graph, *edge));
        }
        Ok(out)
    }
}

} // verus!
