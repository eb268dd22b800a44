//! The closed unions of nodes: subjects and graph names (IRI or blank node),
//! terms (IRI, blank node or literal), and graph names with the default graph.
use vstd::prelude::*;
use vstd::string::StringExecFns;

use rio_api::model as rio;

use crate::interchange::{rio_node_string, rio_term_string};

use crate::primitives::{
    BlankNode, BlankNodeRef, Literal, LiteralModel, LiteralRef, NamedNode, NamedNodeRef,
};
use crate::text::{graph_name_text, node_text, term_text};

verus! {

/// What an IRI-or-blank-node is: which of the two, and its text.
pub enum NodeModel {
    Named(Seq<char>),
    Blank(Seq<char>),
}

/// What a term is.
pub enum TermModel {
    Named(Seq<char>),
    Blank(Seq<char>),
    Literal(LiteralModel),
}

/// What a graph name is.
pub enum GraphNameModel {
    Named(Seq<char>),
    Blank(Seq<char>),
    DefaultGraph,
}

/// A term is an IRI-or-blank-node taken as it is.
pub open spec fn node_as_term(n: NodeModel) -> TermModel {
    match n {
        NodeModel::Named(iri) => TermModel::Named(iri),
        NodeModel::Blank(id) => TermModel::Blank(id),
    }
}

/// The owned union of IRIs and blank nodes.
///
/// The owned and borrowed forms are converted by `as_ref` and `into_owned`.
/// There is no `From` impl between them: an owned value holds `String`s, which
/// cannot be built from borrowed text in a spec function, so the `from_spec`
/// that such an impl needs could not be written exactly.
#[derive(Eq, Debug, Clone, Hash)]
pub enum NamedOrBlankNode {
    NamedNode(NamedNode),
    BlankNode(BlankNode),
}

/// The borrowed union of IRIs and blank nodes.
#[derive(Eq, Debug, Clone, Copy, Hash)]
pub enum NamedOrBlankNodeRef<'a> {
    NamedNode(NamedNodeRef<'a>),
    BlankNode(BlankNodeRef<'a>),
}

impl View for NamedOrBlankNode {
    type V = NodeModel;

    open spec fn view(&self) -> NodeModel {
        match self {
            NamedOrBlankNode::NamedNode(n) => NodeModel::Named(n@),
            NamedOrBlankNode::BlankNode(n) => NodeModel::Blank(n@),
        }
    }
}

impl<'a> View for NamedOrBlankNodeRef<'a> {
    type V = NodeModel;

    open spec fn view(&self) -> NodeModel {
        match self {
            NamedOrBlankNodeRef::NamedNode(n) => NodeModel::Named(n@),
            NamedOrBlankNodeRef::BlankNode(n) => NodeModel::Blank(n@),
        }
    }
}

impl PartialEq for NamedOrBlankNode {
    fn eq(&self, other: &NamedOrBlankNode) -> (r: bool) {
        match (self, other) {
            (NamedOrBlankNode::NamedNode(a), NamedOrBlankNode::NamedNode(b)) => a == b,
            (NamedOrBlankNode::BlankNode(a), NamedOrBlankNode::BlankNode(b)) => a == b,
            _ => false,
        }
    }
}

impl vstd::std_specs::cmp::PartialEqSpecImpl for NamedOrBlankNode {
    open spec fn obeys_eq_spec() -> bool {
        true
    }

    open spec fn eq_spec(&self, other: &NamedOrBlankNode) -> bool {
        self@ == other@
    }
}

impl<'a> PartialEq for NamedOrBlankNodeRef<'a> {
    fn eq(&self, other: &NamedOrBlankNodeRef<'a>) -> (r: bool) {
        match (self, other) {
            (NamedOrBlankNodeRef::NamedNode(a), NamedOrBlankNodeRef::NamedNode(b)) => a == b,
            (NamedOrBlankNodeRef::BlankNode(a), NamedOrBlankNodeRef::BlankNode(b)) => a == b,
            _ => false,
        }
    }
}

impl<'a> vstd::std_specs::cmp::PartialEqSpecImpl for NamedOrBlankNodeRef<'a> {
    open spec fn obeys_eq_spec() -> bool {
        true
    }

    open spec fn eq_spec(&self, other: &NamedOrBlankNodeRef<'a>) -> bool {
        self@ == other@
    }
}

impl NamedOrBlankNode {
    pub fn is_named_node(&self) -> (r: bool)
        ensures
            r == self@ is Named,
    {
        self.as_ref().is_named_node()
    }

    pub fn is_blank_node(&self) -> (r: bool)
        ensures
            r == self@ is Blank,
    {
        self.as_ref().is_blank_node()
    }

    pub fn as_ref(&self) -> (r: NamedOrBlankNodeRef<'_>)
        ensures
            r@ == self@,
    {
        match self {
            NamedOrBlankNode::NamedNode(node) => NamedOrBlankNodeRef::NamedNode(node.as_ref()),
            NamedOrBlankNode::BlankNode(node) => NamedOrBlankNodeRef::BlankNode(node.as_ref()),
        }
    }

    /// The text of the node itself, with nothing added.
    pub fn to_string(&self) -> (r: String)
        ensures
            r@ == node_text(self@),
    {
        self.as_ref().to_string()
    }
}

impl<'a> NamedOrBlankNodeRef<'a> {
    pub fn is_named_node(&self) -> (r: bool)
        ensures
            r == self@ is Named,
    {
        match self {
            NamedOrBlankNodeRef::NamedNode(_) => true,
            NamedOrBlankNodeRef::BlankNode(_) => false,
        }
    }

    pub fn is_blank_node(&self) -> (r: bool)
        ensures
            r == self@ is Blank,
    {
        match self {
            NamedOrBlankNodeRef::NamedNode(_) => false,
            NamedOrBlankNodeRef::BlankNode(_) => true,
        }
    }

    pub fn into_owned(self) -> (r: NamedOrBlankNode)
        ensures
            r@ == self@,
    {
        match self {
            NamedOrBlankNodeRef::NamedNode(node) => NamedOrBlankNode::NamedNode(node.into_owned()),
            NamedOrBlankNodeRef::BlankNode(node) => NamedOrBlankNode::BlankNode(node.into_owned()),
        }
    }

    /// The text of the node itself, with nothing added.
    pub fn to_string(&self) -> (r: String)
        ensures
            r@ == node_text(self@),
    {
        rio_node_string(&rio::NamedOrBlankNode::from(*self))
    }
}

impl From<NamedNode> for NamedOrBlankNode {
    fn from(node: NamedNode) -> Self {
        NamedOrBlankNode::NamedNode(node)
    }
}

impl vstd::std_specs::convert::FromSpecImpl<NamedNode> for NamedOrBlankNode {
    open spec fn obeys_from_spec() -> bool {
        true
    }

    open spec fn from_spec(node: NamedNode) -> Self {
        NamedOrBlankNode::NamedNode(node)
    }
}

impl From<BlankNode> for NamedOrBlankNode {
    fn from(node: BlankNode) -> Self {
        NamedOrBlankNode::BlankNode(node)
    }
}

impl vstd::std_specs::convert::FromSpecImpl<BlankNode> for NamedOrBlankNode {
    open spec fn obeys_from_spec() -> bool {
        true
    }

    open spec fn from_spec(node: BlankNode) -> Self {
        NamedOrBlankNode::BlankNode(node)
    }
}

impl<'a> From<NamedNodeRef<'a>> for NamedOrBlankNodeRef<'a> {
    fn from(node: NamedNodeRef<'a>) -> Self {
        NamedOrBlankNodeRef::NamedNode(node)
    }
}

impl<'a> vstd::std_specs::convert::FromSpecImpl<NamedNodeRef<'a>> for NamedOrBlankNodeRef<'a> {
    open spec fn obeys_from_spec() -> bool {
        true
    }

    open spec fn from_spec(node: NamedNodeRef<'a>) -> Self {
        NamedOrBlankNodeRef::NamedNode(node)
    }
}

impl<'a> From<BlankNodeRef<'a>> for NamedOrBlankNodeRef<'a> {
    fn from(node: BlankNodeRef<'a>) -> Self {
        NamedOrBlankNodeRef::BlankNode(node)
    }
}

impl<'a> vstd::std_specs::convert::FromSpecImpl<BlankNodeRef<'a>> for NamedOrBlankNodeRef<'a> {
    open spec fn obeys_from_spec() -> bool {
        true
    }

    open spec fn from_spec(node: BlankNodeRef<'a>) -> Self {
        NamedOrBlankNodeRef::BlankNode(node)
    }
}

/// The owned union of IRIs, blank nodes and literals.
///
/// The owned and borrowed forms are converted by `as_ref` and `into_owned`.
/// There is no `From` impl between them: an owned value holds `String`s, which
/// cannot be built from borrowed text in a spec function, so the `from_spec`
/// that such an impl needs could not be written exactly.
#[derive(Eq, Debug, Clone, Hash)]
pub enum Term {
    NamedNode(NamedNode),
    BlankNode(BlankNode),
    Literal(Literal),
}

/// The borrowed union of IRIs, blank nodes and literals.
#[derive(Eq, Debug, Clone, Copy, Hash)]
pub enum TermRef<'a> {
    NamedNode(NamedNodeRef<'a>),
    BlankNode(BlankNodeRef<'a>),
    Literal(LiteralRef<'a>),
}

impl View for Term {
    type V = TermModel;

    open spec fn view(&self) -> TermModel {
        match self {
            Term::NamedNode(n) => TermModel::Named(n@),
            Term::BlankNode(n) => TermModel::Blank(n@),
            Term::Literal(l) => TermModel::Literal(l@),
        }
    }
}

impl<'a> View for TermRef<'a> {
    type V = TermModel;

    open spec fn view(&self) -> TermModel {
        match self {
            TermRef::NamedNode(n) => TermModel::Named(n@),
            TermRef::BlankNode(n) => TermModel::Blank(n@),
            TermRef::Literal(l) => TermModel::Literal(l@),
        }
    }
}

impl PartialEq for Term {
    fn eq(&self, other: &Term) -> (r: bool) {
        match (self, other) {
            (Term::NamedNode(a), Term::NamedNode(b)) => a == b,
            (Term::BlankNode(a), Term::BlankNode(b)) => a == b,
            (Term::Literal(a), Term::Literal(b)) => a == b,
            _ => false,
        }
    }
}

impl vstd::std_specs::cmp::PartialEqSpecImpl for Term {
    open spec fn obeys_eq_spec() -> bool {
        true
    }

    open spec fn eq_spec(&self, other: &Term) -> bool {
        self@ == other@
    }
}

impl<'a> PartialEq for TermRef<'a> {
    fn eq(&self, other: &TermRef<'a>) -> (r: bool) {
        match (self, other) {
            (TermRef::NamedNode(a), TermRef::NamedNode(b)) => a == b,
            (TermRef::BlankNode(a), TermRef::BlankNode(b)) => a == b,
            (TermRef::Literal(a), TermRef::Literal(b)) => a == b,
            _ => false,
        }
    }
}

impl<'a> vstd::std_specs::cmp::PartialEqSpecImpl for TermRef<'a> {
    open spec fn obeys_eq_spec() -> bool {
        true
    }

    open spec fn eq_spec(&self, other: &TermRef<'a>) -> bool {
        self@ == other@
    }
}

impl Term {
    pub fn is_named_node(&self) -> (r: bool)
        ensures
            r == self@ is Named,
    {
        self.as_ref().is_named_node()
    }

    pub fn is_blank_node(&self) -> (r: bool)
        ensures
            r == self@ is Blank,
    {
        self.as_ref().is_blank_node()
    }

    pub fn is_literal(&self) -> (r: bool)
        ensures
            r == self@ is Literal,
    {
        self.as_ref().is_literal()
    }

    pub fn as_ref(&self) -> (r: TermRef<'_>)
        ensures
            r@ == self@,
    {
        match self {
            Term::NamedNode(node) => TermRef::NamedNode(node.as_ref()),
            Term::BlankNode(node) => TermRef::BlankNode(node.as_ref()),
            Term::Literal(literal) => TermRef::Literal(literal.as_ref()),
        }
    }

    /// The text of the term itself, with nothing added.
    pub fn to_string(&self) -> (r: String)
        ensures
            r@ == term_text(self@),
    {
        self.as_ref().to_string()
    }
}

impl<'a> TermRef<'a> {
    pub fn is_named_node(&self) -> (r: bool)
        ensures
            r == self@ is Named,
    {
        match self {
            TermRef::NamedNode(_) => true,
            _ => false,
        }
    }

    pub fn is_blank_node(&self) -> (r: bool)
        ensures
            r == self@ is Blank,
    {
        match self {
            TermRef::BlankNode(_) => true,
            _ => false,
        }
    }

    pub fn is_literal(&self) -> (r: bool)
        ensures
            r == self@ is Literal,
    {
        match self {
            TermRef::Literal(_) => true,
            _ => false,
        }
    }

    pub fn into_owned(self) -> (r: Term)
        ensures
            r@ == self@,
    {
        match self {
            TermRef::NamedNode(node) => Term::NamedNode(node.into_owned()),
            TermRef::BlankNode(node) => Term::BlankNode(node.into_owned()),
            TermRef::Literal(literal) => Term::Literal(literal.into_owned()),
        }
    }

    /// The text of the term itself, with nothing added.
    pub fn to_string(&self) -> (r: String)
        ensures
            r@ == term_text(self@),
    {
        rio_term_string(&rio::Term::from(*self))
    }
}

impl From<NamedNode> for Term {
    fn from(node: NamedNode) -> Self {
        Term::NamedNode(node)
    }
}

impl vstd::std_specs::convert::FromSpecImpl<NamedNode> for Term {
    open spec fn obeys_from_spec() -> bool {
        true
    }

    open spec fn from_spec(node: NamedNode) -> Self {
        Term::NamedNode(node)
    }
}

impl From<BlankNode> for Term {
    fn from(node: BlankNode) -> Self {
        Term::BlankNode(node)
    }
}

impl vstd::std_specs::convert::FromSpecImpl<BlankNode> for Term {
    open spec fn obeys_from_spec() -> bool {
        true
    }

    open spec fn from_spec(node: BlankNode) -> Self {
        Term::BlankNode(node)
    }
}

impl From<Literal> for Term {
    fn from(literal: Literal) -> Self {
        Term::Literal(literal)
    }
}

impl vstd::std_specs::convert::FromSpecImpl<Literal> for Term {
    open spec fn obeys_from_spec() -> bool {
        true
    }

    open spec fn from_spec(literal: Literal) -> Self {
        Term::Literal(literal)
    }
}

impl From<NamedOrBlankNode> for Term {
    fn from(node: NamedOrBlankNode) -> Self {
        match node {
            NamedOrBlankNode::NamedNode(node) => Term::NamedNode(node),
            NamedOrBlankNode::BlankNode(node) => Term::BlankNode(node),
        }
    }
}

impl vstd::std_specs::convert::FromSpecImpl<NamedOrBlankNode> for Term {
    open spec fn obeys_from_spec() -> bool {
        true
    }

    open spec fn from_spec(node: NamedOrBlankNode) -> Self {
        match node {
            NamedOrBlankNode::NamedNode(node) => Term::NamedNode(node),
            NamedOrBlankNode::BlankNode(node) => Term::BlankNode(node),
        }
    }
}

impl<'a> From<NamedNodeRef<'a>> for TermRef<'a> {
    fn from(node: NamedNodeRef<'a>) -> Self {
        TermRef::NamedNode(node)
    }
}

impl<'a> vstd::std_specs::convert::FromSpecImpl<NamedNodeRef<'a>> for TermRef<'a> {
    open spec fn obeys_from_spec() -> bool {
        true
    }

    open spec fn from_spec(node: NamedNodeRef<'a>) -> Self {
        TermRef::NamedNode(node)
    }
}

impl<'a> From<BlankNodeRef<'a>> for TermRef<'a> {
    fn from(node: BlankNodeRef<'a>) -> Self {
        TermRef::BlankNode(node)
    }
}

impl<'a> vstd::std_specs::convert::FromSpecImpl<BlankNodeRef<'a>> for TermRef<'a> {
    open spec fn obeys_from_spec() -> bool {
        true
    }

    open spec fn from_spec(node: BlankNodeRef<'a>) -> Self {
        TermRef::BlankNode(node)
    }
}

impl<'a> From<LiteralRef<'a>> for TermRef<'a> {
    fn from(literal: LiteralRef<'a>) -> Self {
        TermRef::Literal(literal)
    }
}

impl<'a> vstd::std_specs::convert::FromSpecImpl<LiteralRef<'a>> for TermRef<'a> {
    open spec fn obeys_from_spec() -> bool {
        true
    }

    open spec fn from_spec(literal: LiteralRef<'a>) -> Self {
        TermRef::Literal(literal)
    }
}

impl<'a> From<NamedOrBlankNodeRef<'a>> for TermRef<'a> {
    fn from(node: NamedOrBlankNodeRef<'a>) -> Self {
        match node {
            NamedOrBlankNodeRef::NamedNode(node) => TermRef::NamedNode(node),
            NamedOrBlankNodeRef::BlankNode(node) => TermRef::BlankNode(node),
        }
    }
}

impl<'a> vstd::std_specs::convert::FromSpecImpl<NamedOrBlankNodeRef<'a>> for TermRef<'a> {
    open spec fn obeys_from_spec() -> bool {
        true
    }

    open spec fn from_spec(node: NamedOrBlankNodeRef<'a>) -> Self {
        match node {
            NamedOrBlankNodeRef::NamedNode(node) => TermRef::NamedNode(node),
            NamedOrBlankNodeRef::BlankNode(node) => TermRef::BlankNode(node),
        }
    }
}

/// A possible owned graph name: an IRI, a blank node, or the default graph.
///
/// The owned and borrowed forms are converted by `as_ref` and `into_owned`.
/// There is no `From` impl between them: an owned value holds `String`s, which
/// cannot be built from borrowed text in a spec function, so the `from_spec`
/// that such an impl needs could not be written exactly.
#[derive(Eq, Debug, Clone, Hash)]
pub enum GraphName {
    NamedNode(NamedNode),
    BlankNode(BlankNode),
    DefaultGraph,
}

/// A possible borrowed graph name: an IRI, a blank node, or the default graph.
#[derive(Eq, Debug, Clone, Copy, Hash)]
pub enum GraphNameRef<'a> {
    NamedNode(NamedNodeRef<'a>),
    BlankNode(BlankNodeRef<'a>),
    DefaultGraph,
}

impl View for GraphName {
    type V = GraphNameModel;

    open spec fn view(&self) -> GraphNameModel {
        match self {
            GraphName::NamedNode(n) => GraphNameModel::Named(n@),
            GraphName::BlankNode(n) => GraphNameModel::Blank(n@),
            GraphName::DefaultGraph => GraphNameModel::DefaultGraph,
        }
    }
}

impl<'a> View for GraphNameRef<'a> {
    type V = GraphNameModel;

    open spec fn view(&self) -> GraphNameModel {
        match self {
            GraphNameRef::NamedNode(n) => GraphNameModel::Named(n@),
            GraphNameRef::BlankNode(n) => GraphNameModel::Blank(n@),
            GraphNameRef::DefaultGraph => GraphNameModel::DefaultGraph,
        }
    }
}

impl PartialEq for GraphName {
    fn eq(&self, other: &GraphName) -> (r: bool) {
        match (self, other) {
            (GraphName::NamedNode(a), GraphName::NamedNode(b)) => a == b,
            (GraphName::BlankNode(a), GraphName::BlankNode(b)) => a == b,
            (GraphName::DefaultGraph, GraphName::DefaultGraph) => true,
            _ => false,
        }
    }
}

impl vstd::std_specs::cmp::PartialEqSpecImpl for GraphName {
    open spec fn obeys_eq_spec() -> bool {
        true
    }

    open spec fn eq_spec(&self, other: &GraphName) -> bool {
        self@ == other@
    }
}

impl<'a> PartialEq for GraphNameRef<'a> {
    fn eq(&self, other: &GraphNameRef<'a>) -> (r: bool) {
        match (self, other) {
            (GraphNameRef::NamedNode(a), GraphNameRef::NamedNode(b)) => a == b,
            (GraphNameRef::BlankNode(a), GraphNameRef::BlankNode(b)) => a == b,
            (GraphNameRef::DefaultGraph, GraphNameRef::DefaultGraph) => true,
            _ => false,
        }
    }
}

impl<'a> vstd::std_specs::cmp::PartialEqSpecImpl for GraphNameRef<'a> {
    open spec fn obeys_eq_spec() -> bool {
        true
    }

    open spec fn eq_spec(&self, other: &GraphNameRef<'a>) -> bool {
        self@ == other@
    }
}

impl GraphName {
    pub fn is_named_node(&self) -> (r: bool)
        ensures
            r == self@ is Named,
    {
        self.as_ref().is_named_node()
    }

    pub fn is_blank_node(&self) -> (r: bool)
        ensures
            r == self@ is Blank,
    {
        self.as_ref().is_blank_node()
    }

    pub fn is_default_graph(&self) -> (r: bool)
        ensures
            r == self@ is DefaultGraph,
    {
        self.as_ref().is_default_graph()
    }

    pub fn as_ref(&self) -> (r: GraphNameRef<'_>)
        ensures
            r@ == self@,
    {
        match self {
            GraphName::NamedNode(node) => GraphNameRef::NamedNode(node.as_ref()),
            GraphName::BlankNode(node) => GraphNameRef::BlankNode(node.as_ref()),
            GraphName::DefaultGraph => GraphNameRef::DefaultGraph,
        }
    }

    /// The text of the graph name; the default graph writes `DEFAULT`.
    pub fn to_string(&self) -> (r: String)
        ensures
            r@ == graph_name_text(self@),
    {
        self.as_ref().to_string()
    }
}

impl<'a> GraphNameRef<'a> {
    pub fn is_named_node(&self) -> (r: bool)
        ensures
            r == self@ is Named,
    {
        match self {
            GraphNameRef::NamedNode(_) => true,
            _ => false,
        }
    }

    pub fn is_blank_node(&self) -> (r: bool)
        ensures
            r == self@ is Blank,
    {
        match self {
            GraphNameRef::BlankNode(_) => true,
            _ => false,
        }
    }

    pub fn is_default_graph(&self) -> (r: bool)
        ensures
            r == self@ is DefaultGraph,
    {
        match self {
            GraphNameRef::DefaultGraph => true,
            _ => false,
        }
    }

    pub fn into_owned(self) -> (r: GraphName)
        ensures
            r@ == self@,
    {
        match self {
            GraphNameRef::NamedNode(node) => GraphName::NamedNode(node.into_owned()),
            GraphNameRef::BlankNode(node) => GraphName::BlankNode(node.into_owned()),
            GraphNameRef::DefaultGraph => GraphName::DefaultGraph,
        }
    }

    /// The text of the graph name; the default graph writes `DEFAULT`.
    pub fn to_string(&self) -> (r: String)
        ensures
            r@ == graph_name_text(self@),
    {
        match self {
            GraphNameRef::NamedNode(node) => node.to_string(),
            GraphNameRef::BlankNode(node) => node.to_string(),
            GraphNameRef::DefaultGraph => {
                proof {
                    reveal_strlit("DEFAULT");
                }
                String::from_str("DEFAULT")
            },
        }
    }
}

impl From<NamedNode> for GraphName {
    fn from(node: NamedNode) -> Self {
        GraphName::NamedNode(node)
    }
}

impl vstd::std_specs::convert::FromSpecImpl<NamedNode> for GraphName {
    open spec fn obeys_from_spec() -> bool {
        true
    }

    open spec fn from_spec(node: NamedNode) -> Self {
        GraphName::NamedNode(node)
    }
}

impl From<BlankNode> for GraphName {
    fn from(node: BlankNode) -> Self {
        GraphName::BlankNode(node)
    }
}

impl vstd::std_specs::convert::FromSpecImpl<BlankNode> for GraphName {
    open spec fn obeys_from_spec() -> bool {
        true
    }

    open spec fn from_spec(node: BlankNode) -> Self {
        GraphName::BlankNode(node)
    }
}

impl From<NamedOrBlankNode> for GraphName {
    fn from(node: NamedOrBlankNode) -> Self {
        match node {
            NamedOrBlankNode::NamedNode(node) => GraphName::NamedNode(node),
            NamedOrBlankNode::BlankNode(node) => GraphName::BlankNode(node),
        }
    }
}

impl vstd::std_specs::convert::FromSpecImpl<NamedOrBlankNode> for GraphName {
    open spec fn obeys_from_spec() -> bool {
        true
    }

    open spec fn from_spec(node: NamedOrBlankNode) -> Self {
        match node {
            NamedOrBlankNode::NamedNode(node) => GraphName::NamedNode(node),
            NamedOrBlankNode::BlankNode(node) => GraphName::BlankNode(node),
        }
    }
}

impl From<Option<NamedOrBlankNode>> for GraphName {
    fn from(name: Option<NamedOrBlankNode>) -> Self {
        match name {
            Some(NamedOrBlankNode::NamedNode(node)) => GraphName::NamedNode(node),
            Some(NamedOrBlankNode::BlankNode(node)) => GraphName::BlankNode(node),
            None => GraphName::DefaultGraph,
        }
    }
}

impl vstd::std_specs::convert::FromSpecImpl<Option<NamedOrBlankNode>> for GraphName {
    open spec fn obeys_from_spec() -> bool {
        true
    }

    open spec fn from_spec(name: Option<NamedOrBlankNode>) -> Self {
        match name {
            Some(NamedOrBlankNode::NamedNode(node)) => GraphName::NamedNode(node),
            Some(NamedOrBlankNode::BlankNode(node)) => GraphName::BlankNode(node),
            None => GraphName::DefaultGraph,
        }
    }
}

impl From<GraphName> for Option<NamedOrBlankNode> {
    fn from(name: GraphName) -> Self {
        match name {
            GraphName::NamedNode(node) => Some(NamedOrBlankNode::NamedNode(node)),
            GraphName::BlankNode(node) => Some(NamedOrBlankNode::BlankNode(node)),
            GraphName::DefaultGraph => None,
        }
    }
}

impl vstd::std_specs::convert::FromSpecImpl<GraphName> for Option<NamedOrBlankNode> {
    open spec fn obeys_from_spec() -> bool {
        true
    }

    open spec fn from_spec(name: GraphName) -> Self {
        match name {
            GraphName::NamedNode(node) => Some(NamedOrBlankNode::NamedNode(node)),
            GraphName::BlankNode(node) => Some(NamedOrBlankNode::BlankNode(node)),
            GraphName::DefaultGraph => None,
        }
    }
}

impl<'a> From<NamedNodeRef<'a>> for GraphNameRef<'a> {
    fn from(node: NamedNodeRef<'a>) -> Self {
        GraphNameRef::NamedNode(node)
    }
}

impl<'a> vstd::std_specs::convert::FromSpecImpl<NamedNodeRef<'a>> for GraphNameRef<'a> {
    open spec fn obeys_from_spec() -> bool {
        true
    }

    open spec fn from_spec(node: NamedNodeRef<'a>) -> Self {
        GraphNameRef::NamedNode(node)
    }
}

impl<'a> From<BlankNodeRef<'a>> for GraphNameRef<'a> {
    fn from(node: BlankNodeRef<'a>) -> Self {
        GraphNameRef::BlankNode(node)
    }
}

impl<'a> vstd::std_specs::convert::FromSpecImpl<BlankNodeRef<'a>> for GraphNameRef<'a> {
    open spec fn obeys_from_spec() -> bool {
        true
    }

    open spec fn from_spec(node: BlankNodeRef<'a>) -> Self {
        GraphNameRef::BlankNode(node)
    }
}

impl<'a> From<NamedOrBlankNodeRef<'a>> for GraphNameRef<'a> {
    fn from(node: NamedOrBlankNodeRef<'a>) -> Self {
        match node {
            NamedOrBlankNodeRef::NamedNode(node) => GraphNameRef::NamedNode(node),
            NamedOrBlankNodeRef::BlankNode(node) => GraphNameRef::BlankNode(node),
        }
    }
}

impl<'a> vstd::std_specs::convert::FromSpecImpl<NamedOrBlankNodeRef<'a>> for GraphNameRef<'a> {
    open spec fn obeys_from_spec() -> bool {
        true
    }

    open spec fn from_spec(node: NamedOrBlankNodeRef<'a>) -> Self {
        match node {
            NamedOrBlankNodeRef::NamedNode(node) => GraphNameRef::NamedNode(node),
            NamedOrBlankNodeRef::BlankNode(node) => GraphNameRef::BlankNode(node),
        }
    }
}

impl<'a> From<Option<NamedOrBlankNodeRef<'a>>> for GraphNameRef<'a> {
    fn from(name: Option<NamedOrBlankNodeRef<'a>>) -> Self {
        match name {
            Some(NamedOrBlankNodeRef::NamedNode(node)) => GraphNameRef::NamedNode(node),
            Some(NamedOrBlankNodeRef::BlankNode(node)) => GraphNameRef::BlankNode(node),
            None => GraphNameRef::DefaultGraph,
        }
    }
}

impl<'a> vstd::std_specs::convert::FromSpecImpl<Option<NamedOrBlankNodeRef<'a>>> for GraphNameRef<'a> {
    open spec fn obeys_from_spec() -> bool {
        true
    }

    open spec fn from_spec(name: Option<NamedOrBlankNodeRef<'a>>) -> Self {
        match name {
            Some(NamedOrBlankNodeRef::NamedNode(node)) => GraphNameRef::NamedNode(node),
            Some(NamedOrBlankNodeRef::BlankNode(node)) => GraphNameRef::BlankNode(node),
            None => GraphNameRef::DefaultGraph,
        }
    }
}

impl<'a> From<GraphNameRef<'a>> for Option<NamedOrBlankNodeRef<'a>> {
    fn from(name: GraphNameRef<'a>) -> Self {
        match name {
            GraphNameRef::NamedNode(node) => Some(NamedOrBlankNodeRef::NamedNode(node)),
            GraphNameRef::BlankNode(node) => Some(NamedOrBlankNodeRef::BlankNode(node)),
            GraphNameRef::DefaultGraph => None,
        }
    }
}

impl<'a> vstd::std_specs::convert::FromSpecImpl<GraphNameRef<'a>> for Option<NamedOrBlankNodeRef<'a>> {
    open spec fn obeys_from_spec() -> bool {
        true
    }

    open spec fn from_spec(name: GraphNameRef<'a>) -> Self {
        match name {
            GraphNameRef::NamedNode(node) => Some(NamedOrBlankNodeRef::NamedNode(node)),
            GraphNameRef::BlankNode(node) => Some(NamedOrBlankNodeRef::BlankNode(node)),
            GraphNameRef::DefaultGraph => None,
        }
    }
}

} // verus!
