//! The atomic nodes of RDF: IRIs, blank nodes and literals.
//!
//! They are taken as already valid: nothing here checks IRI or language tag syntax.
use vstd::prelude::*;

use rio_api::model as rio;

use crate::interchange::{rio_blank_node_string, rio_literal_string, rio_named_node_string};
use crate::text::{blank_node_text, literal_text, named_node_text};

verus! {

/// An owned IRI node.
///
/// The owned and borrowed forms are converted by `as_ref` and `into_owned`.
/// There is no `From` impl between them: an owned value holds `String`s, which
/// cannot be built from borrowed text in a spec function, so the `from_spec`
/// that such an impl needs could not be written exactly.
#[derive(Eq, Debug, Clone, Hash)]
pub struct NamedNode {
    pub iri: String,
}

/// A borrowed IRI node.
#[derive(Eq, Debug, Clone, Copy, Hash)]
pub struct NamedNodeRef<'a> {
    pub iri: &'a str,
}

impl View for NamedNode {
    type V = Seq<char>;

    open spec fn view(&self) -> Seq<char> {
        self.iri@
    }
}

impl<'a> View for NamedNodeRef<'a> {
    type V = Seq<char>;

    open spec fn view(&self) -> Seq<char> {
        self.iri@
    }
}

/// Relies on `str`'s `==`: two string slices are equal when they hold the
/// same characters.
#[verifier::external_body]
pub(crate) fn str_eq(a: &str, b: &str) -> (r: bool)
    ensures
        r == (a@ == b@),
{
    a == b
}

impl PartialEq for NamedNode {
    fn eq(&self, other: &NamedNode) -> (r: bool) {
        self.iri == other.iri
    }
}

impl vstd::std_specs::cmp::PartialEqSpecImpl for NamedNode {
    open spec fn obeys_eq_spec() -> bool {
        true
    }

    open spec fn eq_spec(&self, other: &NamedNode) -> bool {
        self@ == other@
    }
}

impl<'a> PartialEq for NamedNodeRef<'a> {
    fn eq(&self, other: &NamedNodeRef<'a>) -> (r: bool) {
        str_eq(self.iri, other.iri)
    }
}

impl<'a> vstd::std_specs::cmp::PartialEqSpecImpl for NamedNodeRef<'a> {
    open spec fn obeys_eq_spec() -> bool {
        true
    }

    open spec fn eq_spec(&self, other: &NamedNodeRef<'a>) -> bool {
        self@ == other@
    }
}

impl NamedNode {
    pub fn new(iri: String) -> (r: NamedNode)
        ensures
            r@ == iri@,
    {
        NamedNode { iri }
    }

    pub fn as_str(&self) -> (r: &str)
        ensures
            r@ == self@,
    {
        self.iri.as_str()
    }

    pub fn as_ref(&self) -> (r: NamedNodeRef<'_>)
        ensures
            r@ == self@,
    {
        NamedNodeRef { iri: self.iri.as_str() }
    }

    /// The N-Triples form of this IRI: `<iri>`.
    pub fn to_string(&self) -> (r: String)
        ensures
            r@ == named_node_text(self@),
    {
        self.as_ref().to_string()
    }
}

impl<'a> NamedNodeRef<'a> {
    pub fn new(iri: &'a str) -> (r: NamedNodeRef<'a>)
        ensures
            r@ == iri@,
    {
        NamedNodeRef { iri }
    }

    pub fn into_owned(self) -> (r: NamedNode)
        ensures
            r@ == self@,
    {
        NamedNode { iri: self.iri.to_string() }
    }

    /// The N-Triples form of this IRI: `<iri>`.
    pub fn to_string(&self) -> (r: String)
        ensures
            r@ == named_node_text(self@),
    {
        rio_named_node_string(&rio::NamedNode::from(*self))
    }
}

/// An owned blank node, known by its local identifier.
///
/// The owned and borrowed forms are converted by `as_ref` and `into_owned`.
/// There is no `From` impl between them: an owned value holds `String`s, which
/// cannot be built from borrowed text in a spec function, so the `from_spec`
/// that such an impl needs could not be written exactly.
#[derive(Eq, Debug, Clone, Hash)]
pub struct BlankNode {
    pub id: String,
}

/// A borrowed blank node.
#[derive(Eq, Debug, Clone, Copy, Hash)]
pub struct BlankNodeRef<'a> {
    pub id: &'a str,
}

impl View for BlankNode {
    type V = Seq<char>;

    open spec fn view(&self) -> Seq<char> {
        self.id@
    }
}

impl<'a> View for BlankNodeRef<'a> {
    type V = Seq<char>;

    open spec fn view(&self) -> Seq<char> {
        self.id@
    }
}

impl BlankNode {
    pub fn new(id: String) -> (r: BlankNode)
        ensures
            r@ == id@,
    {
        BlankNode { id }
    }

    pub fn as_str(&self) -> (r: &str)
        ensures
            r@ == self@,
    {
        self.id.as_str()
    }

    pub fn as_ref(&self) -> (r: BlankNodeRef<'_>)
        ensures
            r@ == self@,
    {
        BlankNodeRef { id: self.id.as_str() }
    }

    /// The N-Triples form of this blank node: `_:id`.
    pub fn to_string(&self) -> (r: String)
        ensures
            r@ == blank_node_text(self@),
    {
        self.as_ref().to_string()
    }
}

impl<'a> BlankNodeRef<'a> {
    pub fn new(id: &'a str) -> (r: BlankNodeRef<'a>)
        ensures
            r@ == id@,
    {
        BlankNodeRef { id }
    }

    pub fn into_owned(self) -> (r: BlankNode)
        ensures
            r@ == self@,
    {
        BlankNode { id: self.id.to_string() }
    }

    /// The N-Triples form of this blank node: `_:id`.
    pub fn to_string(&self) -> (r: String)
        ensures
            r@ == blank_node_text(self@),
    {
        rio_blank_node_string(&rio::BlankNode::from(*self))
    }
}

/// What a literal is: its lexical form, with a language tag or a datatype IRI
/// where it has one.
pub enum LiteralModel {
    Simple(Seq<char>),
    LanguageTagged(Seq<char>, Seq<char>),
    Typed(Seq<char>, Seq<char>),
}

/// An owned literal.
///
/// The owned and borrowed forms are converted by `as_ref` and `into_owned`.
/// There is no `From` impl between them: an owned value holds `String`s, which
/// cannot be built from borrowed text in a spec function, so the `from_spec`
/// that such an impl needs could not be written exactly.
#[derive(Eq, Debug, Clone, Hash)]
pub enum Literal {
    Simple { value: String },
    LanguageTaggedString { value: String, language: String },
    Typed { value: String, datatype: NamedNode },
}

/// A borrowed literal.
#[derive(Eq, Debug, Clone, Copy, Hash)]
pub enum LiteralRef<'a> {
    Simple { value: &'a str },
    LanguageTaggedString { value: &'a str, language: &'a str },
    Typed { value: &'a str, datatype: NamedNodeRef<'a> },
}

impl View for Literal {
    type V = LiteralModel;

    open spec fn view(&self) -> LiteralModel {
        match self {
            Literal::Simple { value } => LiteralModel::Simple(value@),
            Literal::LanguageTaggedString { value, language } => LiteralModel::LanguageTagged(
                value@,
                language@,
            ),
            Literal::Typed { value, datatype } => LiteralModel::Typed(value@, datatype@),
        }
    }
}

impl<'a> View for LiteralRef<'a> {
    type V = LiteralModel;

    open spec fn view(&self) -> LiteralModel {
        match self {
            LiteralRef::Simple { value } => LiteralModel::Simple(value@),
            LiteralRef::LanguageTaggedString { value, language } => LiteralModel::LanguageTagged(
                value@,
                language@,
            ),
            LiteralRef::Typed { value, datatype } => LiteralModel::Typed(value@, datatype@),
        }
    }
}

impl PartialEq for BlankNode {
    fn eq(&self, other: &BlankNode) -> (r: bool) {
        self.id == other.id
    }
}

impl vstd::std_specs::cmp::PartialEqSpecImpl for BlankNode {
    open spec fn obeys_eq_spec() -> bool {
        true
    }

    open spec fn eq_spec(&self, other: &BlankNode) -> bool {
        self@ == other@
    }
}

impl<'a> PartialEq for BlankNodeRef<'a> {
    fn eq(&self, other: &BlankNodeRef<'a>) -> (r: bool) {
        str_eq(self.id, other.id)
    }
}

impl<'a> vstd::std_specs::cmp::PartialEqSpecImpl for BlankNodeRef<'a> {
    open spec fn obeys_eq_spec() -> bool {
        true
    }

    open spec fn eq_spec(&self, other: &BlankNodeRef<'a>) -> bool {
        self@ == other@
    }
}

impl PartialEq for Literal {
    fn eq(&self, other: &Literal) -> (r: bool) {
        match (self, other) {
            (Literal::Simple { value: a }, Literal::Simple { value: b }) => *a == *b,
            (
                Literal::LanguageTaggedString { value: a, language: la },
                Literal::LanguageTaggedString { value: b, language: lb },
            ) => *a == *b && *la == *lb,
            (Literal::Typed { value: a, datatype: da }, Literal::Typed { value: b, datatype: db }) => {
                *a == *b && *da == *db
            },
            _ => false,
        }
    }
}

impl vstd::std_specs::cmp::PartialEqSpecImpl for Literal {
    open spec fn obeys_eq_spec() -> bool {
        true
    }

    open spec fn eq_spec(&self, other: &Literal) -> bool {
        self@ == other@
    }
}

impl<'a> PartialEq for LiteralRef<'a> {
    fn eq(&self, other: &LiteralRef<'a>) -> (r: bool) {
        match (self, other) {
            (LiteralRef::Simple { value: a }, LiteralRef::Simple { value: b }) => str_eq(a, b),
            (
                LiteralRef::LanguageTaggedString { value: a, language: la },
                LiteralRef::LanguageTaggedString { value: b, language: lb },
            ) => str_eq(a, b) && str_eq(la, lb),
            (
                LiteralRef::Typed { value: a, datatype: da },
                LiteralRef::Typed { value: b, datatype: db },
            ) => str_eq(a, b) && *da == *db,
            _ => false,
        }
    }
}

impl<'a> vstd::std_specs::cmp::PartialEqSpecImpl for LiteralRef<'a> {
    open spec fn obeys_eq_spec() -> bool {
        true
    }

    open spec fn eq_spec(&self, other: &LiteralRef<'a>) -> bool {
        self@ == other@
    }
}

impl Literal {
    /// A literal with a lexical form only.
    pub fn new_simple_literal(value: String) -> (r: Literal)
        ensures
            r@ == LiteralModel::Simple(value@),
    {
        Literal::Simple { value }
    }

    /// A literal with a language tag, taken as it is given.
    pub fn new_language_tagged_literal(value: String, language: String) -> (r: Literal)
        ensures
            r@ == LiteralModel::LanguageTagged(value@, language@),
    {
        Literal::LanguageTaggedString { value, language }
    }

    /// A literal with an explicit datatype.
    pub fn new_typed_literal(value: String, datatype: NamedNode) -> (r: Literal)
        ensures
            r@ == LiteralModel::Typed(value@, datatype@),
    {
        Literal::Typed { value, datatype }
    }

    pub fn as_ref(&self) -> (r: LiteralRef<'_>)
        ensures
            r@ == self@,
    {
        match self {
            Literal::Simple { value } => LiteralRef::Simple { value: value.as_str() },
            Literal::LanguageTaggedString { value, language } => LiteralRef::LanguageTaggedString {
                value: value.as_str(),
                language: language.as_str(),
            },
            Literal::Typed { value, datatype } => LiteralRef::Typed {
                value: value.as_str(),
                datatype: datatype.as_ref(),
            },
        }
    }

    /// The N-Triples form of this literal.
    pub fn to_string(&self) -> (r: String)
        ensures
            r@ == literal_text(self@),
    {
        self.as_ref().to_string()
    }
}

impl<'a> LiteralRef<'a> {
    pub fn into_owned(self) -> (r: Literal)
        ensures
            r@ == self@,
    {
        match self {
            LiteralRef::Simple { value } => Literal::Simple { value: value.to_string() },
            LiteralRef::LanguageTaggedString { value, language } => Literal::LanguageTaggedString {
                value: value.to_string(),
                language: language.to_string(),
            },
            LiteralRef::Typed { value, datatype } => Literal::Typed {
                value: value.to_string(),
                datatype: datatype.into_owned(),
            },
        }
    }

    /// The N-Triples form of this literal: the quoted, escaped lexical form,
    /// then `@tag` or `^^<datatype>` where there is one.
    pub fn to_string(&self) -> (r: String)
        ensures
            r@ == literal_text(self@),
    {
        rio_literal_string(&rio::Literal::from(*self))
    }
}

} // verus!
