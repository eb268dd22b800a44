//! Laws that relate the operations of the model to one another.
//!
//! Each is stated over the contracts of the functions that it names: it holds
//! of whatever those functions may return.
use vstd::prelude::*;

use rio_api::model as rio;
use vstd::std_specs::cmp::PartialEqSpec;

use crate::primitives::{BlankNode, BlankNodeRef, Literal, LiteralRef, NamedNode, NamedNodeRef};
use crate::terms::{
    node_as_term, GraphName, GraphNameRef, NamedOrBlankNode, NamedOrBlankNodeRef, Term, TermRef,
};
use crate::interchange::{
    rio_graph_name_model, rio_node_model, rio_quad_model, rio_term_model, rio_triple_model,
};
use crate::text::{node_text, quad_text, term_text, triple_text};
use crate::triple::{quad_triple, Quad, QuadRef, Triple, TripleRef};

verus! {

/// Borrowing an IRI and taking ownership of the view gives back the same IRI;
/// owning a borrowed IRI and borrowing it again writes the same text.
pub proof fn lemma_named_node_round_trip(x: NamedNode, v: NamedNodeRef)
    ensures
        forall|w: NamedNodeRef, y: NamedNode|
            call_ensures(NamedNode::as_ref, (&x,), w) && call_ensures(
                NamedNodeRef::into_owned,
                (w,),
                y,
            ) ==> y@ == x@,
        forall|y: NamedNode, w: NamedNodeRef, s: String, t: String|
            call_ensures(NamedNodeRef::into_owned, (v,), y) && call_ensures(
                NamedNode::as_ref,
                (&y,),
                w,
            ) && call_ensures(NamedNodeRef::to_string, (&w,), s) && call_ensures(
                NamedNodeRef::to_string,
                (&v,),
                t,
            ) ==> w@ == v@ && s@ == t@,
{
}

/// Borrowing a blank node and taking ownership of the view gives back the
/// same blank node; owning a borrowed one and borrowing it again writes the
/// same text.
pub proof fn lemma_blank_node_round_trip(x: BlankNode, v: BlankNodeRef)
    ensures
        forall|w: BlankNodeRef, y: BlankNode|
            call_ensures(BlankNode::as_ref, (&x,), w) && call_ensures(
                BlankNodeRef::into_owned,
                (w,),
                y,
            ) ==> y@ == x@,
        forall|y: BlankNode, w: BlankNodeRef, s: String, t: String|
            call_ensures(BlankNodeRef::into_owned, (v,), y) && call_ensures(
                BlankNode::as_ref,
                (&y,),
                w,
            ) && call_ensures(BlankNodeRef::to_string, (&w,), s) && call_ensures(
                BlankNodeRef::to_string,
                (&v,),
                t,
            ) ==> w@ == v@ && s@ == t@,
{
}

/// Borrowing a literal and taking ownership of the view gives back the same
/// literal; owning a borrowed one and borrowing it again writes the same text.
pub proof fn lemma_literal_round_trip(x: Literal, v: LiteralRef)
    ensures
        forall|w: LiteralRef, y: Literal|
            call_ensures(Literal::as_ref, (&x,), w) && call_ensures(
                LiteralRef::into_owned,
                (w,),
                y,
            ) ==> y@ == x@,
        forall|y: Literal, w: LiteralRef, s: String, t: String|
            call_ensures(LiteralRef::into_owned, (v,), y) && call_ensures(
                Literal::as_ref,
                (&y,),
                w,
            ) && call_ensures(LiteralRef::to_string, (&w,), s) && call_ensures(
                LiteralRef::to_string,
                (&v,),
                t,
            ) ==> w@ == v@ && s@ == t@,
{
}

/// Borrowing an IRI-or-blank-node and taking ownership of the view gives back
/// a node of the same kind and text; owning a borrowed one and borrowing it
/// again writes the same text.
pub proof fn lemma_node_round_trip(x: NamedOrBlankNode, v: NamedOrBlankNodeRef)
    ensures
        forall|w: NamedOrBlankNodeRef, y: NamedOrBlankNode|
            call_ensures(NamedOrBlankNode::as_ref, (&x,), w) && call_ensures(
                NamedOrBlankNodeRef::into_owned,
                (w,),
                y,
            ) ==> y@ == x@,
        forall|y: NamedOrBlankNode, w: NamedOrBlankNodeRef, s: String, t: String|
            call_ensures(NamedOrBlankNodeRef::into_owned, (v,), y) && call_ensures(
                NamedOrBlankNode::as_ref,
                (&y,),
                w,
            ) && call_ensures(NamedOrBlankNodeRef::to_string, (&w,), s) && call_ensures(
                NamedOrBlankNodeRef::to_string,
                (&v,),
                t,
            ) ==> w@ == v@ && s@ == t@,
{
}

/// Borrowing a term and taking ownership of the view gives back a term of the
/// same kind and content; owning a borrowed one and borrowing it again writes
/// the same text.
pub proof fn lemma_term_round_trip(x: Term, v: TermRef)
    ensures
        forall|w: TermRef, y: Term|
            call_ensures(Term::as_ref, (&x,), w) && call_ensures(TermRef::into_owned, (w,), y)
                ==> y@ == x@,
        forall|y: Term, w: TermRef, s: String, t: String|
            call_ensures(TermRef::into_owned, (v,), y) && call_ensures(Term::as_ref, (&y,), w)
                && call_ensures(TermRef::to_string, (&w,), s) && call_ensures(
                TermRef::to_string,
                (&v,),
                t,
            ) ==> w@ == v@ && s@ == t@,
{
}

/// Borrowing a graph name and taking ownership of the view gives back the
/// same graph name; owning a borrowed one and borrowing it again writes the
/// same text.
pub proof fn lemma_graph_name_round_trip(x: GraphName, v: GraphNameRef)
    ensures
        forall|w: GraphNameRef, y: GraphName|
            call_ensures(GraphName::as_ref, (&x,), w) && call_ensures(
                GraphNameRef::into_owned,
                (w,),
                y,
            ) ==> y@ == x@,
        forall|y: GraphName, w: GraphNameRef, s: String, t: String|
            call_ensures(GraphNameRef::into_owned, (v,), y) && call_ensures(
                GraphName::as_ref,
                (&y,),
                w,
            ) && call_ensures(GraphNameRef::to_string, (&w,), s) && call_ensures(
                GraphNameRef::to_string,
                (&v,),
                t,
            ) ==> w@ == v@ && s@ == t@,
{
}

/// Borrowing a triple and taking ownership of the view gives back the same
/// triple; owning a borrowed one and borrowing it again writes the same line.
pub proof fn lemma_triple_round_trip(x: Triple, v: TripleRef)
    ensures
        forall|w: TripleRef, y: Triple|
            call_ensures(Triple::as_ref, (&x,), w) && call_ensures(
                TripleRef::into_owned,
                (w,),
                y,
            ) ==> y@ == x@,
        forall|y: Triple, w: TripleRef, s: String, t: String|
            call_ensures(TripleRef::into_owned, (v,), y) && call_ensures(
                Triple::as_ref,
                (&y,),
                w,
            ) && call_ensures(TripleRef::to_string, (&w,), s) && call_ensures(
                TripleRef::to_string,
                (&v,),
                t,
            ) ==> w@ == v@ && s@ == t@,
{
}

/// Borrowing a quad and taking ownership of the view gives back the same
/// quad; owning a borrowed one and borrowing it again writes the same line.
pub proof fn lemma_quad_round_trip(x: Quad, v: QuadRef)
    ensures
        forall|w: QuadRef, y: Quad|
            call_ensures(Quad::as_ref, (&x,), w) && call_ensures(QuadRef::into_owned, (w,), y)
                ==> y@ == x@,
        forall|y: Quad, w: QuadRef, s: String, t: String|
            call_ensures(QuadRef::into_owned, (v,), y) && call_ensures(Quad::as_ref, (&y,), w)
                && call_ensures(QuadRef::to_string, (&w,), s) && call_ensures(
                QuadRef::to_string,
                (&v,),
                t,
            ) ==> w@ == v@ && s@ == t@,
{
}

/// Placing a triple in a graph and then dropping the graph gives back the
/// very same triple.
pub proof fn lemma_in_graph_then_triple(t: Triple, g: GraphName)
    ensures
        forall|q: Quad, r: Triple|
            call_ensures(Triple::in_graph, (t, g), q) && call_ensures(
                <Triple as From<Quad>>::from,
                (q,),
                r,
            ) ==> r == t,
{
}

/// The same law on borrowed triples.
pub proof fn lemma_ref_in_graph_then_triple<'a>(t: TripleRef<'a>, g: GraphNameRef<'a>)
    ensures
        forall|q: QuadRef<'a>, r: TripleRef<'a>|
            call_ensures(TripleRef::<'a>::in_graph, (t, g), q) && call_ensures(
                <TripleRef<'a> as From<QuadRef<'a>>>::from,
                (q,),
                r,
            ) ==> r == t,
{
}

/// A graph name built from an optional node gives that option back, and an
/// option built from a graph name gives that graph name back.
pub proof fn lemma_graph_name_option_iso(o: Option<NamedOrBlankNode>, g: GraphName)
    ensures
        forall|h: GraphName, p: Option<NamedOrBlankNode>|
            call_ensures(<GraphName as From<Option<NamedOrBlankNode>>>::from, (o,), h)
                && call_ensures(<Option<NamedOrBlankNode> as From<GraphName>>::from, (h,), p)
                ==> p == o,
        forall|p: Option<NamedOrBlankNode>, h: GraphName|
            call_ensures(<Option<NamedOrBlankNode> as From<GraphName>>::from, (g,), p)
                && call_ensures(<GraphName as From<Option<NamedOrBlankNode>>>::from, (p,), h)
                ==> h == g,
{
}

/// The same isomorphism on borrowed graph names.
pub proof fn lemma_graph_name_ref_option_iso<'a>(
    o: Option<NamedOrBlankNodeRef<'a>>,
    g: GraphNameRef<'a>,
)
    ensures
        forall|h: GraphNameRef<'a>, p: Option<NamedOrBlankNodeRef<'a>>|
            call_ensures(<GraphNameRef<'a> as From<Option<NamedOrBlankNodeRef<'a>>>>::from, (o,), h)
                && call_ensures(
                <Option<NamedOrBlankNodeRef<'a>> as From<GraphNameRef<'a>>>::from,
                (h,),
                p,
            ) ==> p == o,
        forall|p: Option<NamedOrBlankNodeRef<'a>>, h: GraphNameRef<'a>|
            call_ensures(<Option<NamedOrBlankNodeRef<'a>> as From<GraphNameRef<'a>>>::from, (g,), p)
                && call_ensures(
                <GraphNameRef<'a> as From<Option<NamedOrBlankNodeRef<'a>>>>::from,
                (p,),
                h,
            ) ==> h == g,
{
}

/// Widening an IRI-or-blank-node into a term keeps its kind and its text, and
/// never gives a literal.
pub proof fn lemma_node_into_term(n: NamedOrBlankNode)
    ensures
        forall|t: Term|
            call_ensures(<Term as From<NamedOrBlankNode>>::from, (n,), t) ==> t@ == node_as_term(
                n@,
            ) && !(t@ is Literal),
{
}

/// Two owned values are `==` exactly when their borrowed views are `==`, and
/// `==` is equality of kind and text.
pub proof fn lemma_node_eq_both_flavors(a: NamedOrBlankNode, b: NamedOrBlankNode)
    ensures
        a.eq_spec(&b) <==> a@ == b@,
        forall|wa: NamedOrBlankNodeRef, wb: NamedOrBlankNodeRef|
            call_ensures(NamedOrBlankNode::as_ref, (&a,), wa) && call_ensures(NamedOrBlankNode::as_ref, (&b,), wb)
                ==> (wa.eq_spec(&wb) <==> a.eq_spec(&b)),
{
}

/// Two owned values are `==` exactly when their borrowed views are `==`, and
/// `==` is equality of kind and text.
pub proof fn lemma_term_eq_both_flavors(a: Term, b: Term)
    ensures
        a.eq_spec(&b) <==> a@ == b@,
        forall|wa: TermRef, wb: TermRef|
            call_ensures(Term::as_ref, (&a,), wa) && call_ensures(Term::as_ref, (&b,), wb)
                ==> (wa.eq_spec(&wb) <==> a.eq_spec(&b)),
{
}

/// Two owned values are `==` exactly when their borrowed views are `==`, and
/// `==` is equality of kind and text.
pub proof fn lemma_graph_name_eq_both_flavors(a: GraphName, b: GraphName)
    ensures
        a.eq_spec(&b) <==> a@ == b@,
        forall|wa: GraphNameRef, wb: GraphNameRef|
            call_ensures(GraphName::as_ref, (&a,), wa) && call_ensures(GraphName::as_ref, (&b,), wb)
                ==> (wa.eq_spec(&wb) <==> a.eq_spec(&b)),
{
}

/// Two owned values are `==` exactly when their borrowed views are `==`, and
/// `==` is equality of kind and text.
pub proof fn lemma_triple_eq_both_flavors(a: Triple, b: Triple)
    ensures
        a.eq_spec(&b) <==> a@ == b@,
        forall|wa: TripleRef, wb: TripleRef|
            call_ensures(Triple::as_ref, (&a,), wa) && call_ensures(Triple::as_ref, (&b,), wb)
                ==> (wa.eq_spec(&wb) <==> a.eq_spec(&b)),
{
}

/// Two owned values are `==` exactly when their borrowed views are `==`, and
/// `==` is equality of kind and text.
pub proof fn lemma_quad_eq_both_flavors(a: Quad, b: Quad)
    ensures
        a.eq_spec(&b) <==> a@ == b@,
        forall|wa: QuadRef, wb: QuadRef|
            call_ensures(Quad::as_ref, (&a,), wa) && call_ensures(Quad::as_ref, (&b,), wb)
                ==> (wa.eq_spec(&wb) <==> a.eq_spec(&b)),
{
}

/// A borrowed node writes exactly what rio_api's `Display` writes for its
/// rio_api counterpart (the text that `rio_node_string` promises), which is
/// of the same kind on the same text; and it
/// writes what the node inside it writes, with nothing added.
pub proof fn lemma_node_text_is_rio_text<'a>(n: NamedOrBlankNodeRef<'a>)
    ensures
        forall|r: rio::NamedOrBlankNode<'a>|
            call_ensures(<rio::NamedOrBlankNode<'a> as From<NamedOrBlankNodeRef<'a>>>::from, (n,), r)
                ==> rio_node_model(r) == n@,
        forall|s: String, r: rio::NamedOrBlankNode<'a>|
            call_ensures(NamedOrBlankNodeRef::<'a>::to_string, (&n,), s) && call_ensures(
                <rio::NamedOrBlankNode<'a> as From<NamedOrBlankNodeRef<'a>>>::from,
                (n,),
                r,
            ) ==> s@ == node_text(rio_node_model(r)),
        forall|x: NamedNodeRef<'a>, s: String, u: String|
            n == NamedOrBlankNodeRef::NamedNode(x) && call_ensures(
                NamedOrBlankNodeRef::<'a>::to_string,
                (&n,),
                s,
            ) && call_ensures(NamedNodeRef::<'a>::to_string, (&x,), u) ==> s@ == u@,
        forall|x: BlankNodeRef<'a>, s: String, u: String|
            n == NamedOrBlankNodeRef::BlankNode(x) && call_ensures(
                NamedOrBlankNodeRef::<'a>::to_string,
                (&n,),
                s,
            ) && call_ensures(BlankNodeRef::<'a>::to_string, (&x,), u) ==> s@ == u@,
{
}

/// A borrowed term writes exactly what rio_api's `Display` writes for its
/// rio_api counterpart (the text that `rio_term_string` promises), which is
/// of the same kind on the same text; and it
/// writes what the node or literal inside it writes, with nothing added.
pub proof fn lemma_term_text_is_rio_text<'a>(t: TermRef<'a>)
    ensures
        forall|r: rio::Term<'a>|
            call_ensures(<rio::Term<'a> as From<TermRef<'a>>>::from, (t,), r) ==> rio_term_model(r)
                == t@,
        forall|s: String, r: rio::Term<'a>|
            call_ensures(TermRef::<'a>::to_string, (&t,), s) && call_ensures(
                <rio::Term<'a> as From<TermRef<'a>>>::from,
                (t,),
                r,
            ) ==> s@ == term_text(rio_term_model(r)),
        forall|x: NamedNodeRef<'a>, s: String, u: String|
            t == TermRef::NamedNode(x) && call_ensures(TermRef::<'a>::to_string, (&t,), s)
                && call_ensures(NamedNodeRef::<'a>::to_string, (&x,), u) ==> s@ == u@,
        forall|x: BlankNodeRef<'a>, s: String, u: String|
            t == TermRef::BlankNode(x) && call_ensures(TermRef::<'a>::to_string, (&t,), s)
                && call_ensures(BlankNodeRef::<'a>::to_string, (&x,), u) ==> s@ == u@,
        forall|x: LiteralRef<'a>, s: String, u: String|
            t == TermRef::Literal(x) && call_ensures(TermRef::<'a>::to_string, (&t,), s)
                && call_ensures(LiteralRef::<'a>::to_string, (&x,), u) ==> s@ == u@,
{
}

/// A borrowed triple writes, byte for byte, what rio_api's `Display` writes
/// for its rio_api counterpart (the text that `rio_triple_string` promises),
/// which holds the same three parts.
pub proof fn lemma_triple_text_is_rio_text<'a>(t: TripleRef<'a>)
    ensures
        forall|r: rio::Triple<'a>|
            call_ensures(<rio::Triple<'a> as From<TripleRef<'a>>>::from, (t,), r)
                ==> rio_triple_model(r) == t@,
        forall|s: String, r: rio::Triple<'a>|
            call_ensures(TripleRef::<'a>::to_string, (&t,), s) && call_ensures(
                <rio::Triple<'a> as From<TripleRef<'a>>>::from,
                (t,),
                r,
            ) ==> s@ == triple_text(rio_triple_model(r)),
{
}

/// A borrowed quad writes, byte for byte, what rio_api's `Display` writes for
/// its rio_api counterpart (the text that `rio_quad_string` promises), which
/// holds the same four parts.
pub proof fn lemma_quad_text_is_rio_text<'a>(q: QuadRef<'a>)
    ensures
        forall|r: rio::Quad<'a>|
            call_ensures(<rio::Quad<'a> as From<QuadRef<'a>>>::from, (q,), r) ==> rio_quad_model(r)
                == q@,
        forall|s: String, r: rio::Quad<'a>|
            call_ensures(QuadRef::<'a>::to_string, (&q,), s) && call_ensures(
                <rio::Quad<'a> as From<QuadRef<'a>>>::from,
                (q,),
                r,
            ) ==> s@ == quad_text(rio_quad_model(r)),
{
}

/// A borrowed graph name becomes rio_api's `None` exactly when it is the
/// default graph, which is also when `is_default_graph` holds; otherwise it
/// becomes the rio_api node of the same kind on the same text.
pub proof fn lemma_graph_name_to_rio<'a>(g: GraphNameRef<'a>)
    ensures
        forall|o: Option<rio::NamedOrBlankNode<'a>>|
            call_ensures(<Option<rio::NamedOrBlankNode<'a>> as From<GraphNameRef<'a>>>::from, (g,), o)
                ==> (o is None <==> g@ is DefaultGraph) && rio_graph_name_model(o) == g@,
        forall|o: Option<rio::NamedOrBlankNode<'a>>, d: bool|
            call_ensures(<Option<rio::NamedOrBlankNode<'a>> as From<GraphNameRef<'a>>>::from, (g,), o)
                && call_ensures(GraphNameRef::<'a>::is_default_graph, (&g,), d) ==> (d <==> o is None),
{
}

/// Dropping the graph of a quad keeps exactly its subject, predicate and object.
pub proof fn lemma_quad_into_triple(q: Quad)
    ensures
        forall|r: Triple| call_ensures(<Triple as From<Quad>>::from, (q,), r) ==> r@ == quad_triple(q@),
{
}

} // verus!
