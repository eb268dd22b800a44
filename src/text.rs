//! The textual form of nodes, terms, triples and quads, as the N-Triples and
//! N-Quads grammars write them.
use vstd::prelude::*;

use crate::primitives::LiteralModel;
use crate::terms::{GraphNameModel, NodeModel, TermModel};
use crate::triple::{QuadModel, TripleModel};

verus! {

/// An IRI between angle brackets.
pub open spec fn named_node_text(iri: Seq<char>) -> Seq<char> {
    seq!['<'] + iri + seq!['>']
}

/// A blank node identifier after `_:`.
pub open spec fn blank_node_text(id: Seq<char>) -> Seq<char> {
    seq!['_', ':'] + id
}

/// Line feed, carriage return, double quote and backslash get a backslash
/// before them (the first two as `n` and `r`); any other character stays.
pub open spec fn escape_char(c: char) -> Seq<char> {
    if c == '\n' {
        seq!['\\', 'n']
    } else if c == '\r' {
        seq!['\\', 'r']
    } else if c == '"' {
        seq!['\\', '"']
    } else if c == '\\' {
        seq!['\\', '\\']
    } else {
        seq![c]
    }
}

/// A lexical form with each character escaped.
pub open spec fn escaped(s: Seq<char>) -> Seq<char>
    decreases s.len(),
{
    if s.len() == 0 {
        Seq::empty()
    } else {
        escaped(s.drop_last()) + escape_char(s.last())
    }
}

/// A literal: its escaped lexical form in double quotes, then `@` and the
/// language tag, or `^^` and the datatype IRI.
pub open spec fn literal_text(l: LiteralModel) -> Seq<char> {
    match l {
        LiteralModel::Simple(v) => seq!['"'] + escaped(v) + seq!['"'],
        LiteralModel::LanguageTagged(v, lang) => seq!['"'] + escaped(v) + seq!['"', '@'] + lang,
        LiteralModel::Typed(v, dt) => seq!['"'] + escaped(v) + seq!['"', '^', '^']
            + named_node_text(dt),
    }
}

/// An IRI or a blank node, as its own text.
pub open spec fn node_text(n: NodeModel) -> Seq<char> {
    match n {
        NodeModel::Named(iri) => named_node_text(iri),
        NodeModel::Blank(id) => blank_node_text(id),
    }
}

/// A term, as its own text.
pub open spec fn term_text(t: TermModel) -> Seq<char> {
    match t {
        TermModel::Named(iri) => named_node_text(iri),
        TermModel::Blank(id) => blank_node_text(id),
        TermModel::Literal(l) => literal_text(l),
    }
}

/// A graph name as its own text; the default graph is the bare word `DEFAULT`.
pub open spec fn graph_name_text(g: GraphNameModel) -> Seq<char> {
    match g {
        GraphNameModel::Named(iri) => named_node_text(iri),
        GraphNameModel::Blank(id) => blank_node_text(id),
        GraphNameModel::DefaultGraph => seq!['D', 'E', 'F', 'A', 'U', 'L', 'T'],
    }
}

/// A triple as an N-Triples line: subject, predicate and object, each
/// followed by a space, then a full stop.
pub open spec fn triple_text(t: TripleModel) -> Seq<char> {
    node_text(t.subject) + seq![' '] + named_node_text(t.predicate) + seq![' '] + term_text(
        t.object,
    ) + seq![' ', '.']
}

/// A quad as an N-Quads line: as a triple, with the graph name before the
/// full stop unless it is the default graph.
pub open spec fn quad_text(q: QuadModel) -> Seq<char> {
    let head = node_text(q.subject) + seq![' '] + named_node_text(q.predicate) + seq![' ']
        + term_text(q.object);
    match q.graph_name {
        GraphNameModel::DefaultGraph => head + seq![' ', '.'],
        g => head + seq![' '] + graph_name_text(g) + seq![' ', '.'],
    }
}

} // verus!
