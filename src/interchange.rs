//! The boundary with rio_api's term model: conversions of the borrowed
//! values into rio_api's, which borrow the same text, and rio_api's `Display`
//! impls, which write N-Triples and N-Quads.
use vstd::prelude::*;

use rio_api::model as rio;
use rio_api::model::BlankNode as RioBlankNode;
use rio_api::model::Literal as RioLiteral;
use rio_api::model::NamedNode as RioNamedNode;
use rio_api::model::NamedOrBlankNode as RioNamedOrBlankNode;
use rio_api::model::Quad as RioQuad;
use rio_api::model::Term as RioTerm;
use rio_api::model::Triple as RioTriple;

use crate::primitives::{BlankNodeRef, LiteralModel, LiteralRef, NamedNodeRef};
use crate::terms::{GraphNameModel, GraphNameRef, NamedOrBlankNodeRef, NodeModel, TermModel, TermRef};
use crate::text::{
    blank_node_text, literal_text, named_node_text, node_text, quad_text, term_text, triple_text,
};
use crate::triple::{QuadModel, QuadRef, TripleModel, TripleRef};

verus! {

/// rio_api's borrowed IRI node; its one field is public.
#[verifier::external_type_specification]
pub struct ExRioNamedNode<'a>(RioNamedNode<'a>);

/// rio_api's borrowed blank node; its one field is public.
#[verifier::external_type_specification]
pub struct ExRioBlankNode<'a>(RioBlankNode<'a>);

/// rio_api's borrowed literal, with its three public variants.
#[verifier::external_type_specification]
pub struct ExRioLiteral<'a>(RioLiteral<'a>);

/// rio_api's union of IRI and blank node.
#[verifier::external_type_specification]
pub struct ExRioNamedOrBlankNode<'a>(RioNamedOrBlankNode<'a>);

/// rio_api's term.
#[verifier::external_type_specification]
pub struct ExRioTerm<'a>(RioTerm<'a>);

/// rio_api's triple, with public fields.
#[verifier::external_type_specification]
pub struct ExRioTriple<'a>(RioTriple<'a>);

/// rio_api's quad, with public fields; `None` as graph name is the default graph.
#[verifier::external_type_specification]
pub struct ExRioQuad<'a>(RioQuad<'a>);

/// What a rio_api literal is.
pub open spec fn rio_literal_model(l: rio::Literal) -> LiteralModel {
    match l {
        rio::Literal::Simple { value } => LiteralModel::Simple(value@),
        rio::Literal::LanguageTaggedString { value, language } => LiteralModel::LanguageTagged(
            value@,
            language@,
        ),
        rio::Literal::Typed { value, datatype } => LiteralModel::Typed(value@, datatype.iri@),
    }
}

/// What a rio_api IRI-or-blank-node is.
pub open spec fn rio_node_model(n: rio::NamedOrBlankNode) -> NodeModel {
    match n {
        rio::NamedOrBlankNode::NamedNode(node) => NodeModel::Named(node.iri@),
        rio::NamedOrBlankNode::BlankNode(node) => NodeModel::Blank(node.id@),
    }
}

/// What a rio_api term is.
pub open spec fn rio_term_model(t: rio::Term) -> TermModel {
    match t {
        rio::Term::NamedNode(node) => TermModel::Named(node.iri@),
        rio::Term::BlankNode(node) => TermModel::Blank(node.id@),
        rio::Term::Literal(literal) => TermModel::Literal(rio_literal_model(literal)),
    }
}

/// What a rio_api graph name is: `None` stands for the default graph.
pub open spec fn rio_graph_name_model(g: Option<rio::NamedOrBlankNode>) -> GraphNameModel {
    match g {
        Some(rio::NamedOrBlankNode::NamedNode(node)) => GraphNameModel::Named(node.iri@),
        Some(rio::NamedOrBlankNode::BlankNode(node)) => GraphNameModel::Blank(node.id@),
        None => GraphNameModel::DefaultGraph,
    }
}

/// What a rio_api triple is.
pub open spec fn rio_triple_model(t: rio::Triple) -> TripleModel {
    TripleModel {
        subject: rio_node_model(t.subject),
        predicate: t.predicate.iri@,
        object: rio_term_model(t.object),
    }
}

/// What a rio_api quad is.
pub open spec fn rio_quad_model(q: rio::Quad) -> QuadModel {
    QuadModel {
        subject: rio_node_model(q.subject),
        predicate: q.predicate.iri@,
        object: rio_term_model(q.object),
        graph_name: rio_graph_name_model(q.graph_name),
    }
}

/// The rio_api IRI node on the same text, which is not copied.
impl<'a> From<NamedNodeRef<'a>> for rio::NamedNode<'a> {
    fn from(node: NamedNodeRef<'a>) -> Self {
        rio::NamedNode { iri: node.iri }
    }
}

impl<'a> vstd::std_specs::convert::FromSpecImpl<NamedNodeRef<'a>> for rio::NamedNode<'a> {
    open spec fn obeys_from_spec() -> bool {
        true
    }

    open spec fn from_spec(node: NamedNodeRef<'a>) -> Self {
        rio::NamedNode { iri: node.iri }
    }
}

/// The rio_api blank node on the same identifier, which is not copied.
impl<'a> From<BlankNodeRef<'a>> for rio::BlankNode<'a> {
    fn from(node: BlankNodeRef<'a>) -> Self {
        rio::BlankNode { id: node.id }
    }
}

impl<'a> vstd::std_specs::convert::FromSpecImpl<BlankNodeRef<'a>> for rio::BlankNode<'a> {
    open spec fn obeys_from_spec() -> bool {
        true
    }

    open spec fn from_spec(node: BlankNodeRef<'a>) -> Self {
        rio::BlankNode { id: node.id }
    }
}

/// The rio_api literal of the same variant on the same text.
impl<'a> From<LiteralRef<'a>> for rio::Literal<'a> {
    fn from(literal: LiteralRef<'a>) -> Self {
        match literal {
            LiteralRef::Simple { value } => rio::Literal::Simple { value },
            LiteralRef::LanguageTaggedString { value, language } => {
                rio::Literal::LanguageTaggedString { value, language }
            },
            LiteralRef::Typed { value, datatype } => rio::Literal::Typed {
                value,
                datatype: rio::NamedNode { iri: datatype.iri },
            },
        }
    }
}

impl<'a> vstd::std_specs::convert::FromSpecImpl<LiteralRef<'a>> for rio::Literal<'a> {
    open spec fn obeys_from_spec() -> bool {
        true
    }

    open spec fn from_spec(literal: LiteralRef<'a>) -> Self {
        match literal {
            LiteralRef::Simple { value } => rio::Literal::Simple { value },
            LiteralRef::LanguageTaggedString { value, language } => {
                rio::Literal::LanguageTaggedString { value, language }
            },
            LiteralRef::Typed { value, datatype } => rio::Literal::Typed {
                value,
                datatype: rio::NamedNode { iri: datatype.iri },
            },
        }
    }
}

/// The rio_api node of the same kind on the same text.
impl<'a> From<NamedOrBlankNodeRef<'a>> for rio::NamedOrBlankNode<'a> {
    fn from(node: NamedOrBlankNodeRef<'a>) -> Self {
        match node {
            NamedOrBlankNodeRef::NamedNode(node) => rio::NamedOrBlankNode::NamedNode(
                rio::NamedNode { iri: node.iri },
            ),
            NamedOrBlankNodeRef::BlankNode(node) => rio::NamedOrBlankNode::BlankNode(
                rio::BlankNode { id: node.id },
            ),
        }
    }
}

impl<'a> vstd::std_specs::convert::FromSpecImpl<NamedOrBlankNodeRef<'a>> for rio::NamedOrBlankNode<'a> {
    open spec fn obeys_from_spec() -> bool {
        true
    }

    open spec fn from_spec(node: NamedOrBlankNodeRef<'a>) -> Self {
        match node {
            NamedOrBlankNodeRef::NamedNode(node) => rio::NamedOrBlankNode::NamedNode(
                rio::NamedNode { iri: node.iri },
            ),
            NamedOrBlankNodeRef::BlankNode(node) => rio::NamedOrBlankNode::BlankNode(
                rio::BlankNode { id: node.id },
            ),
        }
    }
}

/// The rio_api term of the same kind on the same text.
impl<'a> From<TermRef<'a>> for rio::Term<'a> {
    fn from(term: TermRef<'a>) -> Self {
        match term {
            TermRef::NamedNode(node) => rio::Term::NamedNode(rio::NamedNode { iri: node.iri }),
            TermRef::BlankNode(node) => rio::Term::BlankNode(rio::BlankNode { id: node.id }),
            TermRef::Literal(literal) => rio::Term::Literal(rio::Literal::from(literal)),
        }
    }
}

impl<'a> vstd::std_specs::convert::FromSpecImpl<TermRef<'a>> for rio::Term<'a> {
    open spec fn obeys_from_spec() -> bool {
        true
    }

    open spec fn from_spec(term: TermRef<'a>) -> Self {
        match term {
            TermRef::NamedNode(node) => rio::Term::NamedNode(rio::NamedNode { iri: node.iri }),
            TermRef::BlankNode(node) => rio::Term::BlankNode(rio::BlankNode { id: node.id }),
            TermRef::Literal(literal) => rio::Term::Literal(
                <rio::Literal<'a> as vstd::std_specs::convert::FromSpec<LiteralRef<'a>>>::from_spec(literal),
            ),
        }
    }
}

/// The rio_api graph name: the node of a named graph, `None` for the default graph.
impl<'a> From<GraphNameRef<'a>> for Option<rio::NamedOrBlankNode<'a>> {
    fn from(name: GraphNameRef<'a>) -> Self {
        match name {
            GraphNameRef::NamedNode(node) => Some(
                rio::NamedOrBlankNode::NamedNode(rio::NamedNode { iri: node.iri }),
            ),
            GraphNameRef::BlankNode(node) => Some(
                rio::NamedOrBlankNode::BlankNode(rio::BlankNode { id: node.id }),
            ),
            GraphNameRef::DefaultGraph => None,
        }
    }
}

impl<'a> vstd::std_specs::convert::FromSpecImpl<GraphNameRef<'a>> for Option<rio::NamedOrBlankNode<'a>> {
    open spec fn obeys_from_spec() -> bool {
        true
    }

    open spec fn from_spec(name: GraphNameRef<'a>) -> Self {
        match name {
            GraphNameRef::NamedNode(node) => Some(
                rio::NamedOrBlankNode::NamedNode(rio::NamedNode { iri: node.iri }),
            ),
            GraphNameRef::BlankNode(node) => Some(
                rio::NamedOrBlankNode::BlankNode(rio::BlankNode { id: node.id }),
            ),
            GraphNameRef::DefaultGraph => None,
        }
    }
}

/// The rio_api triple with each part converted.
impl<'a> From<TripleRef<'a>> for rio::Triple<'a> {
    fn from(triple: TripleRef<'a>) -> Self {
        rio::Triple {
            subject: rio::NamedOrBlankNode::from(triple.subject),
            predicate: rio::NamedNode::from(triple.predicate),
            object: rio::Term::from(triple.object),
        }
    }
}

impl<'a> vstd::std_specs::convert::FromSpecImpl<TripleRef<'a>> for rio::Triple<'a> {
    open spec fn obeys_from_spec() -> bool {
        true
    }

    open spec fn from_spec(triple: TripleRef<'a>) -> Self {
        rio::Triple {
            subject: <rio::NamedOrBlankNode<'a> as vstd::std_specs::convert::FromSpec<NamedOrBlankNodeRef<'a>>>::from_spec(
                triple.subject,
            ),
            predicate: <rio::NamedNode<'a> as vstd::std_specs::convert::FromSpec<NamedNodeRef<'a>>>::from_spec(triple.predicate),
            object: <rio::Term<'a> as vstd::std_specs::convert::FromSpec<TermRef<'a>>>::from_spec(triple.object),
        }
    }
}

/// The rio_api quad with each part converted.
impl<'a> From<QuadRef<'a>> for rio::Quad<'a> {
    fn from(quad: QuadRef<'a>) -> Self {
        rio::Quad {
            subject: rio::NamedOrBlankNode::from(quad.subject),
            predicate: rio::NamedNode::from(quad.predicate),
            object: rio::Term::from(quad.object),
            graph_name: Option::<rio::NamedOrBlankNode>::from(quad.graph_name),
        }
    }
}

impl<'a> vstd::std_specs::convert::FromSpecImpl<QuadRef<'a>> for rio::Quad<'a> {
    open spec fn obeys_from_spec() -> bool {
        true
    }

    open spec fn from_spec(quad: QuadRef<'a>) -> Self {
        rio::Quad {
            subject: <rio::NamedOrBlankNode<'a> as vstd::std_specs::convert::FromSpec<NamedOrBlankNodeRef<'a>>>::from_spec(
                quad.subject,
            ),
            predicate: <rio::NamedNode<'a> as vstd::std_specs::convert::FromSpec<NamedNodeRef<'a>>>::from_spec(quad.predicate),
            object: <rio::Term<'a> as vstd::std_specs::convert::FromSpec<TermRef<'a>>>::from_spec(quad.object),
            graph_name: <Option<rio::NamedOrBlankNode<'a>> as vstd::std_specs::convert::FromSpec<
                GraphNameRef<'a>,
            >>::from_spec(quad.graph_name),
        }
    }
}

/// Relies on the `Display` of rio_api's `model::NamedNode`: `<`, the IRI, `>`.
#[verifier::external_body]
pub(crate) fn rio_named_node_string(node: &rio::NamedNode<'_>) -> (r: String)
    ensures
        r@ == named_node_text(node.iri@),
{
    node.to_string()
}

/// Relies on the `Display` of rio_api's `model::BlankNode`: `_:` then the identifier.
#[verifier::external_body]
pub(crate) fn rio_blank_node_string(node: &rio::BlankNode<'_>) -> (r: String)
    ensures
        r@ == blank_node_text(node.id@),
{
    node.to_string()
}

/// Relies on the `Display` of rio_api's `model::Literal`: the lexical form,
/// escaped and quoted, then `@` and the language tag or `^^` and the datatype.
#[verifier::external_body]
pub(crate) fn rio_literal_string(literal: &rio::Literal<'_>) -> (r: String)
    ensures
        r@ == literal_text(rio_literal_model(*literal)),
{
    literal.to_string()
}

/// Relies on the `Display` of rio_api's `model::NamedOrBlankNode`: that of the
/// node inside.
#[verifier::external_body]
pub(crate) fn rio_node_string(node: &rio::NamedOrBlankNode<'_>) -> (r: String)
    ensures
        r@ == node_text(rio_node_model(*node)),
{
    node.to_string()
}

/// Relies on the `Display` of rio_api's `model::Term`: that of the node or
/// literal inside.
#[verifier::external_body]
pub(crate) fn rio_term_string(term: &rio::Term<'_>) -> (r: String)
    ensures
        r@ == term_text(rio_term_model(*term)),
{
    term.to_string()
}

/// Relies on the `Display` of rio_api's `model::Triple`: subject, predicate
/// and object, each followed by a space, then `.`.
#[verifier::external_body]
pub(crate) fn rio_triple_string(triple: &rio::Triple<'_>) -> (r: String)
    ensures
        r@ == triple_text(rio_triple_model(*triple)),
{
    triple.to_string()
}

/// Relies on the `Display` of rio_api's `model::Quad`: as a triple, with the
/// graph name before the `.` where there is one.
#[verifier::external_body]
pub(crate) fn rio_quad_string(quad: &rio::Quad<'_>) -> (r: String)
    ensures
        r@ == quad_text(rio_quad_model(*quad)),
{
    quad.to_string()
}

} // verus!
