//! Triples, and triples placed in a graph of a dataset (quads).
use vstd::prelude::*;

use rio_api::model as rio;

use crate::interchange::{rio_quad_string, rio_triple_string};
use crate::primitives::{NamedNode, NamedNodeRef};
use crate::terms::{
    GraphName, GraphNameModel, GraphNameRef, NamedOrBlankNode, NamedOrBlankNodeRef, NodeModel,
    Term, TermModel, TermRef,
};
use crate::text::{quad_text, triple_text};

verus! {

/// What a triple is: its subject, predicate IRI and object.
pub struct TripleModel {
    pub subject: NodeModel,
    pub predicate: Seq<char>,
    pub object: TermModel,
}

/// What a quad is: a triple and the graph that it is in.
pub struct QuadModel {
    pub subject: NodeModel,
    pub predicate: Seq<char>,
    pub object: TermModel,
    pub graph_name: GraphNameModel,
}

/// The triple that a quad holds, without its graph.
pub open spec fn quad_triple(q: QuadModel) -> TripleModel {
    TripleModel { subject: q.subject, predicate: q.predicate, object: q.object }
}

/// A triple placed in a graph.
pub open spec fn triple_in_graph(t: TripleModel, g: GraphNameModel) -> QuadModel {
    QuadModel { subject: t.subject, predicate: t.predicate, object: t.object, graph_name: g }
}

/// An owned RDF triple.
///
/// The owned and borrowed forms are converted by `as_ref` and `into_owned`.
/// There is no `From` impl between them: an owned value holds `String`s, which
/// cannot be built from borrowed text in a spec function, so the `from_spec`
/// that such an impl needs could not be written exactly.
#[derive(Eq, Debug, Clone, Hash)]
pub struct Triple {
    pub subject: NamedOrBlankNode,
    pub predicate: NamedNode,
    pub object: Term,
}

/// A borrowed RDF triple.
#[derive(Eq, Debug, Clone, Copy, Hash)]
pub struct TripleRef<'a> {
    pub subject: NamedOrBlankNodeRef<'a>,
    pub predicate: NamedNodeRef<'a>,
    pub object: TermRef<'a>,
}

impl View for Triple {
    type V = TripleModel;

    open spec fn view(&self) -> TripleModel {
        TripleModel { subject: self.subject@, predicate: self.predicate@, object: self.object@ }
    }
}

impl<'a> View for TripleRef<'a> {
    type V = TripleModel;

    open spec fn view(&self) -> TripleModel {
        TripleModel { subject: self.subject@, predicate: self.predicate@, object: self.object@ }
    }
}

impl PartialEq for Triple {
    fn eq(&self, other: &Triple) -> (r: bool) {
        self.subject == other.subject && self.predicate == other.predicate && self.object
            == other.object
    }
}

impl vstd::std_specs::cmp::PartialEqSpecImpl for Triple {
    open spec fn obeys_eq_spec() -> bool {
        true
    }

    open spec fn eq_spec(&self, other: &Triple) -> bool {
        self@ == other@
    }
}

impl<'a> PartialEq for TripleRef<'a> {
    fn eq(&self, other: &TripleRef<'a>) -> (r: bool) {
        self.subject == other.subject && self.predicate == other.predicate && self.object
            == other.object
    }
}

impl<'a> vstd::std_specs::cmp::PartialEqSpecImpl for TripleRef<'a> {
    open spec fn obeys_eq_spec() -> bool {
        true
    }

    open spec fn eq_spec(&self, other: &TripleRef<'a>) -> bool {
        self@ == other@
    }
}

impl Triple {
    /// Builds a triple from its three parts.
    ///
    /// Each part is taken in its own type; a node or literal of another kind
    /// is turned into it first by `From` (`.into()`). A generic `impl Into<_>`
    /// parameter would leave the part unstated when it already has its type,
    /// since vstd gives the identity conversion no contract.
    pub fn new(subject: NamedOrBlankNode, predicate: NamedNode, object: Term) -> (r: Triple)
        ensures
            r.subject == subject,
            r.predicate == predicate,
            r.object == object,
    {
        Triple { subject, predicate, object }
    }

    pub fn subject(&self) -> (r: &NamedOrBlankNode)
        ensures
            *r == self.subject,
    {
        &self.subject
    }

    pub fn subject_owned(self) -> (r: NamedOrBlankNode)
        ensures
            r == self.subject,
    {
        self.subject
    }

    pub fn predicate(&self) -> (r: &NamedNode)
        ensures
            *r == self.predicate,
    {
        &self.predicate
    }

    pub fn predicate_owned(self) -> (r: NamedNode)
        ensures
            r == self.predicate,
    {
        self.predicate
    }

    pub fn object(&self) -> (r: &Term)
        ensures
            *r == self.object,
    {
        &self.object
    }

    pub fn object_owned(self) -> (r: Term)
        ensures
            r == self.object,
    {
        self.object
    }

    /// Places this triple in the given graph of a dataset.
    pub fn in_graph(self, graph_name: GraphName) -> (r: Quad)
        ensures
            r.subject == self.subject,
            r.predicate == self.predicate,
            r.object == self.object,
            r.graph_name == graph_name,
            r@ == triple_in_graph(self@, graph_name@),
    {
        Quad {
            subject: self.subject,
            predicate: self.predicate,
            object: self.object,
            graph_name,
        }
    }

    pub fn as_ref(&self) -> (r: TripleRef<'_>)
        ensures
            r@ == self@,
    {
        TripleRef {
            subject: self.subject.as_ref(),
            predicate: self.predicate.as_ref(),
            object: self.object.as_ref(),
        }
    }

    /// The N-Triples line of this triple, as rio_api writes it.
    pub fn to_string(&self) -> (r: String)
        ensures
            r@ == triple_text(self@),
    {
        self.as_ref().to_string()
    }
}

impl<'a> TripleRef<'a> {
    /// Builds a triple view from its three parts.
    ///
    /// Each part is taken in its own type; a node or literal of another kind
    /// is turned into it first by `From` (`.into()`). A generic `impl Into<_>`
    /// parameter would leave the part unstated when it already has its type,
    /// since vstd gives the identity conversion no contract.
    pub fn new(
        subject: NamedOrBlankNodeRef<'a>,
        predicate: NamedNodeRef<'a>,
        object: TermRef<'a>,
    ) -> (r: TripleRef<'a>)
        ensures
            r.subject == subject,
            r.predicate == predicate,
            r.object == object,
    {
        TripleRef { subject, predicate, object }
    }

    /// Places this triple in the given graph of a dataset.
    pub fn in_graph(self, graph_name: GraphNameRef<'a>) -> (r: QuadRef<'a>)
        ensures
            r.subject == self.subject,
            r.predicate == self.predicate,
            r.object == self.object,
            r.graph_name == graph_name,
            r@ == triple_in_graph(self@, graph_name@),
    {
        QuadRef {
            subject: self.subject,
            predicate: self.predicate,
            object: self.object,
            graph_name,
        }
    }

    pub fn into_owned(self) -> (r: Triple)
        ensures
            r@ == self@,
    {
        Triple {
            subject: self.subject.into_owned(),
            predicate: self.predicate.into_owned(),
            object: self.object.into_owned(),
        }
    }

    /// The N-Triples line of this triple, as rio_api writes it.
    pub fn to_string(&self) -> (r: String)
        ensures
            r@ == triple_text(self@),
    {
        rio_triple_string(&rio::Triple::from(*self))
    }
}

/// An owned triple in a graph of an RDF dataset.
///
/// The owned and borrowed forms are converted by `as_ref` and `into_owned`.
/// There is no `From` impl between them: an owned value holds `String`s, which
/// cannot be built from borrowed text in a spec function, so the `from_spec`
/// that such an impl needs could not be written exactly.
#[derive(Eq, Debug, Clone, Hash)]
pub struct Quad {
    pub subject: NamedOrBlankNode,
    pub predicate: NamedNode,
    pub object: Term,
    pub graph_name: GraphName,
}

/// A borrowed triple in a graph of an RDF dataset.
#[derive(Eq, Debug, Clone, Copy, Hash)]
pub struct QuadRef<'a> {
    pub subject: NamedOrBlankNodeRef<'a>,
    pub predicate: NamedNodeRef<'a>,
    pub object: TermRef<'a>,
    pub graph_name: GraphNameRef<'a>,
}

impl View for Quad {
    type V = QuadModel;

    open spec fn view(&self) -> QuadModel {
        QuadModel {
            subject: self.subject@,
            predicate: self.predicate@,
            object: self.object@,
            graph_name: self.graph_name@,
        }
    }
}

impl<'a> View for QuadRef<'a> {
    type V = QuadModel;

    open spec fn view(&self) -> QuadModel {
        QuadModel {
            subject: self.subject@,
            predicate: self.predicate@,
            object: self.object@,
            graph_name: self.graph_name@,
        }
    }
}

impl PartialEq for Quad {
    fn eq(&self, other: &Quad) -> (r: bool) {
        self.subject == other.subject && self.predicate == other.predicate && self.object
            == other.object && self.graph_name == other.graph_name
    }
}

impl vstd::std_specs::cmp::PartialEqSpecImpl for Quad {
    open spec fn obeys_eq_spec() -> bool {
        true
    }

    open spec fn eq_spec(&self, other: &Quad) -> bool {
        self@ == other@
    }
}

impl<'a> PartialEq for QuadRef<'a> {
    fn eq(&self, other: &QuadRef<'a>) -> (r: bool) {
        self.subject == other.subject && self.predicate == other.predicate && self.object
            == other.object && self.graph_name == other.graph_name
    }
}

impl<'a> vstd::std_specs::cmp::PartialEqSpecImpl for QuadRef<'a> {
    open spec fn obeys_eq_spec() -> bool {
        true
    }

    open spec fn eq_spec(&self, other: &QuadRef<'a>) -> bool {
        self@ == other@
    }
}

impl Quad {
    /// Builds a quad from its four parts.
    ///
    /// Each part is taken in its own type; a node or literal of another kind
    /// is turned into it first by `From` (`.into()`). A generic `impl Into<_>`
    /// parameter would leave the part unstated when it already has its type,
    /// since vstd gives the identity conversion no contract.
    pub fn new(
        subject: NamedOrBlankNode,
        predicate: NamedNode,
        object: Term,
        graph_name: GraphName,
    ) -> (r: Quad)
        ensures
            r.subject == subject,
            r.predicate == predicate,
            r.object == object,
            r.graph_name == graph_name,
    {
        Quad { subject, predicate, object, graph_name }
    }

    pub fn subject(&self) -> (r: &NamedOrBlankNode)
        ensures
            *r == self.subject,
    {
        &self.subject
    }

    pub fn subject_owned(self) -> (r: NamedOrBlankNode)
        ensures
            r == self.subject,
    {
        self.subject
    }

    pub fn predicate(&self) -> (r: &NamedNode)
        ensures
            *r == self.predicate,
    {
        &self.predicate
    }

    pub fn predicate_owned(self) -> (r: NamedNode)
        ensures
            r == self.predicate,
    {
        self.predicate
    }

    pub fn object(&self) -> (r: &Term)
        ensures
            *r == self.object,
    {
        &self.object
    }

    pub fn object_owned(self) -> (r: Term)
        ensures
            r == self.object,
    {
        self.object
    }

    pub fn graph_name(&self) -> (r: &GraphName)
        ensures
            *r == self.graph_name,
    {
        &self.graph_name
    }

    pub fn graph_name_owned(self) -> (r: GraphName)
        ensures
            r == self.graph_name,
    {
        self.graph_name
    }

    /// The triple of this quad; the graph name is dropped.
    pub fn into_triple(self) -> (r: Triple)
        ensures
            r.subject == self.subject,
            r.predicate == self.predicate,
            r.object == self.object,
            r@ == quad_triple(self@),
    {
        Triple::new(self.subject, self.predicate, self.object)
    }

    /// The four parts of this quad, in order.
    pub fn destruct(self) -> (r: (NamedOrBlankNode, NamedNode, Term, GraphName))
        ensures
            r == (self.subject, self.predicate, self.object, self.graph_name),
    {
        (self.subject, self.predicate, self.object, self.graph_name)
    }

    pub fn as_ref(&self) -> (r: QuadRef<'_>)
        ensures
            r@ == self@,
    {
        QuadRef {
            subject: self.subject.as_ref(),
            predicate: self.predicate.as_ref(),
            object: self.object.as_ref(),
            graph_name: self.graph_name.as_ref(),
        }
    }

    /// The N-Quads line of this quad, as rio_api writes it.
    pub fn to_string(&self) -> (r: String)
        ensures
            r@ == quad_text(self@),
    {
        self.as_ref().to_string()
    }
}

impl<'a> QuadRef<'a> {
    /// Builds a quad view from its four parts.
    ///
    /// Each part is taken in its own type; a node or literal of another kind
    /// is turned into it first by `From` (`.into()`). A generic `impl Into<_>`
    /// parameter would leave the part unstated when it already has its type,
    /// since vstd gives the identity conversion no contract.
    pub fn new(
        subject: NamedOrBlankNodeRef<'a>,
        predicate: NamedNodeRef<'a>,
        object: TermRef<'a>,
        graph_name: GraphNameRef<'a>,
    ) -> (r: QuadRef<'a>)
        ensures
            r.subject == subject,
            r.predicate == predicate,
            r.object == object,
            r.graph_name == graph_name,
    {
        QuadRef { subject, predicate, object, graph_name }
    }

    pub fn into_owned(self) -> (r: Quad)
        ensures
            r@ == self@,
    {
        Quad {
            subject: self.subject.into_owned(),
            predicate: self.predicate.into_owned(),
            object: self.object.into_owned(),
            graph_name: self.graph_name.into_owned(),
        }
    }

    /// The N-Quads line of this quad, as rio_api writes it.
    pub fn to_string(&self) -> (r: String)
        ensures
            r@ == quad_text(self@),
    {
        rio_quad_string(&rio::Quad::from(*self))
    }
}

impl From<Quad> for Triple {
    fn from(quad: Quad) -> Self {
        Triple { subject: quad.subject, predicate: quad.predicate, object: quad.object }
    }
}

impl vstd::std_specs::convert::FromSpecImpl<Quad> for Triple {
    open spec fn obeys_from_spec() -> bool {
        true
    }

    open spec fn from_spec(quad: Quad) -> Self {
        Triple { subject: quad.subject, predicate: quad.predicate, object: quad.object }
    }
}

impl<'a> From<QuadRef<'a>> for TripleRef<'a> {
    fn from(quad: QuadRef<'a>) -> Self {
        TripleRef { subject: quad.subject, predicate: quad.predicate, object: quad.object }
    }
}

impl<'a> vstd::std_specs::convert::FromSpecImpl<QuadRef<'a>> for TripleRef<'a> {
    open spec fn obeys_from_spec() -> bool {
        true
    }

    open spec fn from_spec(quad: QuadRef<'a>) -> Self {
        TripleRef { subject: quad.subject, predicate: quad.predicate, object: quad.object }
    }
}

} // verus!
