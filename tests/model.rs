use std::collections::hash_map::DefaultHasher;
use std::hash::{Hash, Hasher};

use rdf_model::{
    BlankNode, BlankNodeRef, GraphName, GraphNameRef, Literal, LiteralRef, NamedNode,
    NamedNodeRef, NamedOrBlankNode, NamedOrBlankNodeRef, Quad, QuadRef, Term, TermRef, Triple,
    TripleRef,
};

fn iri(s: &str) -> NamedNode {
    NamedNode::new(s.to_string())
}

fn bnode(s: &str) -> BlankNode {
    BlankNode::new(s.to_string())
}

fn simple(s: &str) -> Literal {
    Literal::new_simple_literal(s.to_string())
}

fn hash_of<T: Hash>(t: &T) -> u64 {
    let mut h = DefaultHasher::new();
    t.hash(&mut h);
    h.finish()
}

fn sample_triple() -> Triple {
    Triple::new(
        NamedOrBlankNode::from(bnode("b1")),
        iri("http://ex/p"),
        Term::from(simple("v")),
    )
}

#[test]
fn quad_scenario_text_and_back_to_triple() {
    let t = sample_triple();
    let q = t.clone().in_graph(GraphName::from(iri("http://ex/g")));
    assert_eq!(q.to_string(), "_:b1 <http://ex/p> \"v\" <http://ex/g> .");
    assert_eq!(Triple::from(q), t);
}

#[test]
fn default_graph_and_none() {
    let none: Option<NamedOrBlankNode> = GraphName::DefaultGraph.into();
    assert_eq!(none, None);
    assert_eq!(GraphName::from(None::<NamedOrBlankNode>), GraphName::DefaultGraph);
    assert_eq!(GraphName::DefaultGraph.to_string(), "DEFAULT");
    assert_eq!(GraphNameRef::DefaultGraph.to_string(), "DEFAULT");
    assert!(GraphName::DefaultGraph.is_default_graph());
}

#[test]
fn widening_blank_node_into_term() {
    let b = bnode("x");
    let t = Term::from(NamedOrBlankNode::BlankNode(b.clone()));
    assert_eq!(t, Term::BlankNode(b.clone()));
    assert!(!t.is_literal());
    assert!(t.is_blank_node());
    assert!(!t.is_named_node());
    let r = TermRef::from(NamedOrBlankNodeRef::BlankNode(b.as_ref()));
    assert_eq!(r, TermRef::BlankNode(b.as_ref()));
}

#[test]
fn round_trips_owned_borrowed() {
    let n = NamedOrBlankNode::from(iri("http://ex/s"));
    assert_eq!(n.as_ref().into_owned(), n);
    let lit = Literal::new_language_tagged_literal("chat".to_string(), "fr".to_string());
    let term = Term::from(lit.clone());
    assert_eq!(term.as_ref().into_owned(), term);
    assert_eq!(lit.as_ref().into_owned(), lit);
    let g = GraphName::from(bnode("g"));
    assert_eq!(g.as_ref().into_owned(), g);
    let t = sample_triple();
    assert_eq!(t.as_ref().into_owned(), t);
    let q = Quad::new(
        NamedOrBlankNode::from(iri("http://ex/s")),
        iri("http://ex/p"),
        Term::from(iri("http://ex/o")),
        GraphName::DefaultGraph,
    );
    assert_eq!(q.as_ref().into_owned(), q);
    let v = NamedNodeRef::new("http://ex/v");
    assert_eq!(v.into_owned().as_ref(), v);
    assert_eq!(v.into_owned().to_string(), v.to_string());
    let tr = TripleRef::new(
        NamedOrBlankNodeRef::from(BlankNodeRef::new("a")),
        v,
        TermRef::from(LiteralRef::Simple { value: "x" }),
    );
    assert_eq!(tr.into_owned().as_ref(), tr);
    assert_eq!(tr.into_owned().to_string(), tr.to_string());
}

#[test]
fn in_graph_then_strip_is_identity() {
    let t = sample_triple();
    assert_eq!(Triple::from(t.clone().in_graph(GraphName::DefaultGraph)), t);
    let tr = t.as_ref();
    let qr = tr.in_graph(GraphNameRef::from(BlankNodeRef::new("g")));
    assert_eq!(TripleRef::from(qr), tr);
    assert!(qr.graph_name.is_blank_node());
}

#[test]
fn graph_name_option_isomorphism() {
    let cases = vec![
        None,
        Some(NamedOrBlankNode::from(iri("http://ex/g"))),
        Some(NamedOrBlankNode::from(bnode("g"))),
    ];
    for o in cases {
        let g = GraphName::from(o.clone());
        let back: Option<NamedOrBlankNode> = g.clone().into();
        assert_eq!(back, o);
        assert_eq!(GraphName::from(back), g);
    }
    let r: Option<NamedOrBlankNodeRef> = GraphNameRef::from(NamedNodeRef::new("http://ex/g")).into();
    assert_eq!(r, Some(NamedOrBlankNodeRef::NamedNode(NamedNodeRef::new("http://ex/g"))));
    assert_eq!(GraphNameRef::from(None::<NamedOrBlankNodeRef>), GraphNameRef::DefaultGraph);
}

#[test]
fn text_matches_rio_api() {
    let t = sample_triple();
    assert_eq!(t.to_string(), rio_api::model::Triple::from(t.as_ref()).to_string());
    let q = Quad::new(
        NamedOrBlankNode::from(iri("http://ex/s")),
        iri("http://ex/p"),
        Term::from(Literal::new_typed_literal("1".to_string(), iri("http://ex/int"))),
        GraphName::from(bnode("g")),
    );
    assert_eq!(q.to_string(), rio_api::model::Quad::from(q.as_ref()).to_string());
    let d = Quad::new(
        NamedOrBlankNode::from(bnode("s")),
        iri("http://ex/p"),
        Term::from(bnode("o")),
        GraphName::DefaultGraph,
    );
    assert_eq!(d.to_string(), rio_api::model::Quad::from(d.as_ref()).to_string());
}

#[test]
fn triple_and_quad_lines() {
    let t = Triple::new(
        NamedOrBlankNode::from(iri("http://ex/s")),
        iri("http://ex/p"),
        Term::from(iri("http://ex/o")),
    );
    assert_eq!(t.to_string(), "<http://ex/s> <http://ex/p> <http://ex/o> .");
    let d = t.clone().in_graph(GraphName::DefaultGraph);
    assert_eq!(d.to_string(), "<http://ex/s> <http://ex/p> <http://ex/o> .");
    let b = t.in_graph(GraphName::from(bnode("g1")));
    assert_eq!(b.to_string(), "<http://ex/s> <http://ex/p> <http://ex/o> _:g1 .");
}

#[test]
fn node_and_literal_text() {
    assert_eq!(iri("http://ex/a").as_ref().to_string(), "<http://ex/a>");
    assert_eq!(bnode("a1").as_ref().to_string(), "_:a1");
    assert_eq!(NamedOrBlankNode::from(bnode("a1")).to_string(), "_:a1");
    assert_eq!(NamedOrBlankNode::from(iri("http://ex/a")).to_string(), "<http://ex/a>");
    assert_eq!(GraphName::from(iri("http://ex/a")).to_string(), "<http://ex/a>");
    assert_eq!(Term::from(simple("foo\nbar")).to_string(), "\"foo\\nbar\"");
    assert_eq!(
        Term::from(simple("a\"b\\c\rd")).to_string(),
        "\"a\\\"b\\\\c\\rd\""
    );
    let lang = Literal::new_language_tagged_literal("foo".to_string(), "en".to_string());
    assert_eq!(lang.as_ref().to_string(), "\"foo\"@en");
    let typed = Literal::new_typed_literal(
        "1999-01-01".to_string(),
        iri("http://www.w3.org/2001/XMLSchema#date"),
    );
    assert_eq!(
        Term::from(typed).to_string(),
        "\"1999-01-01\"^^<http://www.w3.org/2001/XMLSchema#date>"
    );
    assert_eq!(Term::from(simple("")).to_string(), "\"\"");
}

#[test]
fn kind_queries() {
    let n = NamedOrBlankNode::from(iri("http://ex/a"));
    assert!(n.is_named_node() && !n.is_blank_node());
    let b = NamedOrBlankNode::from(bnode("a"));
    assert!(!b.is_named_node() && b.is_blank_node());
    let l = Term::from(simple("x"));
    assert!(l.is_literal() && !l.is_named_node() && !l.is_blank_node());
    assert!(l.as_ref().is_literal());
    let g = GraphName::from(iri("http://ex/g"));
    assert!(g.is_named_node() && !g.is_blank_node() && !g.is_default_graph());
    let gr = GraphNameRef::from(BlankNodeRef::new("g"));
    assert!(gr.is_blank_node() && !gr.is_named_node() && !gr.is_default_graph());
    assert!(NamedOrBlankNodeRef::from(NamedNodeRef::new("http://ex/a")).is_named_node());
}

#[test]
fn equal_values_hash_equally() {
    let a = sample_triple();
    let b = sample_triple();
    assert_eq!(a, b);
    assert_eq!(hash_of(&a), hash_of(&b));
    assert_eq!(hash_of(&a.as_ref()), hash_of(&b.as_ref()));
    let qa = a.clone().in_graph(GraphName::DefaultGraph);
    let qb = b.clone().in_graph(GraphName::DefaultGraph);
    assert_eq!(hash_of(&qa), hash_of(&qb));
    assert_eq!(hash_of(&qa.as_ref()), hash_of(&qb.as_ref()));
    assert_eq!(hash_of(&a.subject), hash_of(&b.subject));
    assert_eq!(hash_of(&a.object.as_ref()), hash_of(&b.object.as_ref()));
    assert_eq!(hash_of(&qa.graph_name), hash_of(&qb.graph_name));
    assert_ne!(NamedOrBlankNode::from(iri("x")), NamedOrBlankNode::from(bnode("x")));
}

#[test]
fn quad_getters_and_parts() {
    let q = Quad::new(
        NamedOrBlankNode::from(iri("http://ex/s")),
        iri("http://ex/p"),
        Term::from(simple("o")),
        GraphName::from(iri("http://ex/g")),
    );
    assert_eq!(q.subject(), &NamedOrBlankNode::from(iri("http://ex/s")));
    assert_eq!(q.predicate(), &iri("http://ex/p"));
    assert_eq!(q.object(), &Term::from(simple("o")));
    assert_eq!(q.graph_name(), &GraphName::from(iri("http://ex/g")));
    let (s, p, o, g) = q.clone().destruct();
    assert_eq!(Quad::new(s, p, o, g), q);
    let t = q.clone().into_triple();
    assert_eq!(t, Triple::from(q.clone()));
    assert_eq!(q.clone().graph_name_owned(), GraphName::from(iri("http://ex/g")));
    assert_eq!(t.clone().subject_owned(), q.subject);
    assert_eq!(t.clone().predicate_owned(), q.predicate);
    assert_eq!(t.object_owned(), q.object);
    let qr = QuadRef::new(
        NamedOrBlankNodeRef::from(BlankNodeRef::new("s")),
        NamedNodeRef::new("http://ex/p"),
        TermRef::from(BlankNodeRef::new("o")),
        GraphNameRef::DefaultGraph,
    );
    assert_eq!(qr.into_owned().as_ref(), qr);
    assert_eq!(qr.to_string(), "_:s <http://ex/p> _:o .");
}

#[test]
fn equality_tells_kinds_and_fields_apart() {
    let plain = simple("chat");
    let tagged = Literal::new_language_tagged_literal("chat".to_string(), "fr".to_string());
    let other_tag = Literal::new_language_tagged_literal("chat".to_string(), "en".to_string());
    assert_ne!(plain, tagged);
    assert_ne!(tagged, other_tag);
    assert_eq!(tagged.as_ref(), LiteralRef::LanguageTaggedString { value: "chat", language: "fr" });
    assert_ne!(Term::from(iri("x")), Term::from(bnode("x")));
    assert_ne!(GraphName::DefaultGraph, GraphName::from(bnode("g")));
    assert_eq!(GraphNameRef::DefaultGraph, GraphName::DefaultGraph.as_ref());
    let t = sample_triple();
    let mut u = sample_triple();
    u.predicate = iri("http://ex/q");
    assert_ne!(t, u);
    assert_ne!(t.as_ref(), u.as_ref());
    let q1 = t.clone().in_graph(GraphName::DefaultGraph);
    let q2 = t.in_graph(GraphName::from(iri("http://ex/g")));
    assert_ne!(q1, q2);
    assert_ne!(q1.as_ref(), q2.as_ref());
}

#[test]
fn conversions_into_rio_api_keep_kind_and_text() {
    let none: Option<rio_api::model::NamedOrBlankNode> = GraphNameRef::DefaultGraph.into();
    assert!(none.is_none());
    let named: Option<rio_api::model::NamedOrBlankNode> =
        GraphNameRef::from(NamedNodeRef::new("http://ex/g")).into();
    assert_eq!(
        named,
        Some(rio_api::model::NamedOrBlankNode::NamedNode(rio_api::model::NamedNode {
            iri: "http://ex/g"
        }))
    );
    let blank: Option<rio_api::model::NamedOrBlankNode> =
        GraphNameRef::from(BlankNodeRef::new("g")).into();
    assert_eq!(
        blank,
        Some(rio_api::model::NamedOrBlankNode::BlankNode(rio_api::model::BlankNode { id: "g" }))
    );
    let n = NamedOrBlankNodeRef::from(BlankNodeRef::new("b"));
    assert_eq!(n.to_string(), rio_api::model::NamedOrBlankNode::from(n).to_string());
    assert_eq!(n.to_string(), "_:b");
    let lit = Literal::new_language_tagged_literal("a\"b".to_string(), "en".to_string());
    let t = TermRef::from(lit.as_ref());
    assert_eq!(t.to_string(), rio_api::model::Term::from(t).to_string());
    assert_eq!(t.to_string(), "\"a\\\"b\"@en");
    assert_eq!(
        rio_api::model::Term::from(t),
        rio_api::model::Term::Literal(rio_api::model::Literal::LanguageTaggedString {
            value: "a\"b",
            language: "en"
        })
    );
}
