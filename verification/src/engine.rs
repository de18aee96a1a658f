//! The boundary to the external collaborators: the document parser and
//! the query engine.
//!
//! Everything the rest of the crate knows of the collaborators is
//! stated here, as contracts on small trusted wrappers around their
//! calls.  Each wrapped value is carried in a type of this crate that
//! pairs the opaque engine value with the plain data the contracts
//! speak of: a node with its captured string-value, a compiled query
//! with its source text, a context with the bindings made through it.

use crate::prefix::{pairs_model, prefixes_bound};
use vstd::prelude::*;

verus! {

#[verifier::external_type_specification]
#[verifier::external_body]
pub struct ExPackage(sxd_document::Package);

#[verifier::external_type_specification]
#[verifier::external_body]
pub struct ExNode<'d>(sxd_xpath::nodeset::Node<'d>);

#[verifier::external_type_specification]
#[verifier::external_body]
pub struct ExContext<'d>(sxd_xpath::Context<'d>);

#[verifier::external_type_specification]
#[verifier::external_body]
pub struct ExXPath(sxd_xpath::XPath);

/// A node of a parsed document, paired with its string-value.
///
/// The string-value (the node's concatenated text content) is captured
/// once, when the node is taken out of the engine, and every
/// conversion reads that captured value.
pub struct XmlNode<'d> {
    node: sxd_xpath::nodeset::Node<'d>,
    text: String,
}

impl<'d> XmlNode<'d> {
    /// The model of this node: its captured string-value.
    pub closed spec fn model(self) -> Seq<char> {
        self.text@
    }

    /// The captured string-value of this node.
    pub fn text(&self) -> (r: &String)
        ensures
            r@ == self.model(),
    {
        &self.text
    }

    /// A copy of this node, with the same model.
    pub fn duplicate(&self) -> (r: Self)
        ensures
            r.model() == self.model(),
    {
        XmlNode { node: self.node, text: self.text.clone() }
    }
}

/// Whether the document parser accepts `text` as well-formed markup.
pub uninterp spec fn xml_parses(text: Seq<char>) -> bool;

/// The string-value of the root node of the document parsed from
/// `text`.
pub uninterp spec fn xml_root_text(text: Seq<char>) -> Seq<char>;

/// A parsed document, owned, together with the text it was parsed
/// from.
pub(crate) struct XmlPackage {
    package: sxd_document::Package,
    text: String,
}

impl XmlPackage {
    /// The text this document was parsed from.
    pub closed spec fn text_model(self) -> Seq<char> {
        self.text@
    }

    /// The model of the root node of this document.
    pub open spec fn root_model(self) -> Seq<char> {
        xml_root_text(self.text_model())
    }
}

/// Relies on sxd_document::parser::parse: it returns a document
/// exactly when the text is well-formed markup, and its error carries
/// the parser's positioned diagnostics.
#[verifier::external_body]
pub(crate) fn parse_document(text: &str) -> (r: Result<XmlPackage, String>)
    ensures
        r is Ok <==> xml_parses(text@),
        r matches Ok(p) ==> p.text_model() == text@,
{
    match sxd_document::parser::parse(text) {
        Ok(package) => Ok(XmlPackage { package, text: text.to_owned() }),
        Err(e) => Err(format!("{}", e)),
    }
}

/// Relies on sxd_document::Package::as_document and dom::Document::root:
/// a document always has a root node, its string-value is a function of
/// the parsed text alone, and it stays unchanged while the package is
/// owned here.
#[verifier::external_body]
pub(crate) fn package_root<'d>(p: &'d XmlPackage) -> (r: XmlNode<'d>)
    ensures
        r.model() == xml_root_text(p.text_model()),
{
    let node: sxd_xpath::nodeset::Node = p.package.as_document().root().into();
    let text = node.string_value();
    XmlNode { node, text }
}

/// Whether the query engine compiles `text` to a non-empty program.
pub uninterp spec fn xpath_compile_ok(text: Seq<char>) -> bool;

/// A compiled query, together with the source text it was compiled
/// from.
#[derive(Debug)]
pub struct CompiledQuery {
    inner: sxd_xpath::XPath,
    source: String,
}

impl CompiledQuery {
    /// The source text this query was compiled from.
    pub closed spec fn source_model(self) -> Seq<char> {
        self.source@
    }

    /// The source text this query was compiled from.
    pub fn source(&self) -> (r: &String)
        ensures
            r@ == self.source_model(),
    {
        &self.source
    }
}

/// Relies on sxd_xpath::Factory::build: compilation is a function of
/// the source text alone; it yields a program exactly when the text is
/// a syntactically valid, non-empty expression, and its error carries
/// the engine's diagnostic.
#[verifier::external_body]
pub(crate) fn build_xpath(text: &str) -> (r: Result<Option<CompiledQuery>, String>)
    ensures
        (r matches Ok(q) && q is Some) <==> xpath_compile_ok(text@),
        r matches Ok(q) && q matches Some(c) ==> c.source_model() == text@,
{
    match sxd_xpath::Factory::new().build(text) {
        Ok(Some(x)) => Ok(Some(CompiledQuery { inner: x, source: text.to_owned() })),
        Ok(None) => Ok(None),
        Err(e) => Err(format!("{}", e)),
    }
}

/// The evaluation context: namespace prefixes and variable bindings,
/// consulted by the query engine on every evaluation.
///
/// The bindings made through this type are mirrored in plain data, and
/// the contracts of this crate speak of that mirror.  Only namespace
/// prefixes and string-valued variables can be bound: registering
/// custom functions, or binding numbers or node-sets, would put the
/// engine's behaviour beyond what the contracts here can state, so
/// neither is offered.
pub struct ReaderContext<'d> {
    inner: sxd_xpath::Context<'d>,
    namespaces: Vec<(String, String)>,
    variables: Vec<(String, String)>,
}

impl<'d> ReaderContext<'d> {
    /// The namespace bindings made through this context, oldest first.
    pub closed spec fn namespaces_model(self) -> Seq<(Seq<char>, Seq<char>)> {
        pairs_model(self.namespaces@)
    }

    /// The variable bindings made through this context, oldest first.
    pub closed spec fn variables_model(self) -> Seq<(Seq<char>, Seq<char>)> {
        pairs_model(self.variables@)
    }

    /// The namespace bindings, as plain prefix and URI pairs.
    pub fn namespace_bindings(&self) -> (r: &Vec<(String, String)>)
        ensures
            pairs_model(r@) == self.namespaces_model(),
    {
        &self.namespaces
    }

    /// A fresh context with no namespaces and no variables bound.
    pub fn new() -> (r: Self)
        ensures
            r.namespaces_model() == Seq::<(Seq<char>, Seq<char>)>::empty(),
            r.variables_model() == Seq::<(Seq<char>, Seq<char>)>::empty(),
    {
        let r = ReaderContext { inner: raw_context(), namespaces: Vec::new(), variables: Vec::new() };
        proof {
            assert(r.namespaces_model() =~= Seq::<(Seq<char>, Seq<char>)>::empty());
            assert(r.variables_model() =~= Seq::<(Seq<char>, Seq<char>)>::empty());
        }
        r
    }

    /// Bind the namespace `uri` to `prefix`; a later binding of the
    /// same prefix takes precedence.
    pub fn set_namespace(&mut self, prefix: &str, uri: &str)
        ensures
            final(self).namespaces_model() == old(self).namespaces_model().push(
                (prefix@, uri@),
            ),
            final(self).variables_model() == old(self).variables_model(),
    {
        raw_set_namespace(&mut self.inner, prefix, uri);
        self.namespaces.push((prefix.to_owned(), uri.to_owned()));
        proof {
            assert(self.namespaces_model() =~= old(self).namespaces_model().push((prefix@, uri@)));
            assert(self.variables_model() =~= old(self).variables_model());
        }
    }

    /// Bind the string `value` to the variable `name`; a later binding
    /// of the same name takes precedence.
    pub fn set_variable(&mut self, name: &str, value: String)
        ensures
            final(self).variables_model() == old(self).variables_model().push((name@, value@)),
            final(self).namespaces_model() == old(self).namespaces_model(),
    {
        raw_set_variable(&mut self.inner, name, value.clone());
        self.variables.push((name.to_owned(), value));
        proof {
            assert(self.variables_model() =~= old(self).variables_model().push((name@, value@)));
            assert(self.namespaces_model() =~= old(self).namespaces_model());
        }
    }
}

/// Relies on sxd_xpath::Context::new for a context with the core
/// functions registered and nothing else bound.
#[verifier::external_body]
fn raw_context<'d>() -> sxd_xpath::Context<'d> {
    sxd_xpath::Context::new()
}

/// Relies on sxd_xpath::Context::set_namespace; keeps the engine's
/// bindings in step with the mirror held beside it.
#[verifier::external_body]
fn raw_set_namespace<'d>(c: &mut sxd_xpath::Context<'d>, prefix: &str, uri: &str) {
    c.set_namespace(prefix, uri);
}

/// Relies on sxd_xpath::Context::set_variable; keeps the engine's
/// bindings in step with the mirror held beside it.
#[verifier::external_body]
fn raw_set_variable<'d>(c: &mut sxd_xpath::Context<'d>, name: &str, value: String) {
    c.set_variable(name, value);
}

/// What one evaluation of a query returned.
pub(crate) enum EvalOutcome<'d> {
    /// A node-set, handed out as the engine's document-order sequence
    /// (a pre-order traversal of the document).
    Nodes(Vec<sxd_xpath::nodeset::Node<'d>>),
    /// A string, number or boolean.
    NotNodeset,
    /// The engine reported an error; its diagnostic.
    EngineFailure(String),
}

/// Relies on sxd_xpath::XPath::evaluate and Nodeset::document_order:
/// a node-set result is handed out sorted in document order, and the
/// error carries the engine's diagnostic.  The engine resolves the
/// namespace prefix of a name test only during evaluation and does not
/// return on an unbound one, so every prefix the query text names must
/// be bound in the context.
#[verifier::external_body]
pub(crate) fn evaluate_query<'d>(
    query: &CompiledQuery,
    context: &ReaderContext<'d>,
    anchor: &XmlNode<'d>,
) -> EvalOutcome<'d>
    requires
        prefixes_bound(query.source_model(), context.namespaces_model()),
{
    match query.inner.evaluate(&context.inner, anchor.node) {
        Ok(sxd_xpath::Value::Nodeset(ns)) => EvalOutcome::Nodes(ns.document_order()),
        Ok(_) => EvalOutcome::NotNodeset,
        Err(e) => EvalOutcome::EngineFailure(format!("{}", e)),
    }
}

/// Relies on sxd_xpath::nodeset::Node::string_value to capture the
/// node's concatenated text content, which becomes the node's model.
#[verifier::external_body]
pub(crate) fn capture_node<'d>(node: sxd_xpath::nodeset::Node<'d>) -> XmlNode<'d> {
    let text = node.string_value();
    XmlNode { node, text }
}

} // verus!
