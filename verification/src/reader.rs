//! XPath based document reading.
//!
//! A [`Reader`] holds an evaluation context and an anchor — either a
//! whole parsed document or a node-set obtained from a previous query —
//! and exposes query evaluation, relative-reader derivation, and the
//! entry point for typed reads.

use crate::engine::{
    capture_node, evaluate_query, package_root, parse_document, xml_parses, xml_root_text,
    xpath_compile_ok, EvalOutcome, ReaderContext, XmlNode, XmlPackage,
};
use crate::errors::{Error, ErrorKind};
use crate::expression::XPathExpression;
use crate::prefix::{find_unbound_prefix, prefixes_bound};
use crate::scalar::{bool_text_value, int_text_in_range, int_text_value};
use crate::scalar::{uint_text_in_range, uint_text_value};
use crate::scalar::{
    text_to_bool, text_to_i16, text_to_i32, text_to_i64, text_to_i8, text_to_u16, text_to_u32,
    text_to_u64, text_to_u8,
};
use crate::util::Refable;
use vstd::prelude::*;

verus! {

/// Convenience redefinition of the FromXml result type.
pub type FromXmlResult<T> = Result<T, Error>;

/// The models of a sequence of nodes: each node's string-value, in the
/// order the nodes are held.
pub open spec fn node_models<'d>(v: Seq<XmlNode<'d>>) -> Seq<Seq<char>> {
    Seq::new(v.len(), |i: int| v[i].model())
}

/// Some value of `T` decodes from a single node with string-value
/// `text`.
pub open spec fn element_decodable<T: FromXml>(text: Seq<char>) -> bool {
    exists|v: T| #[trigger] T::accepts(seq![text], Result::<T, Error>::Ok(v))
}

/// The decoding of a sequence fails at position `i` of `anchor`: the
/// element there yields this error, and every element before it is
/// decodable.
pub open spec fn sequence_fails_at<T: FromXml>(anchor: Seq<Seq<char>>, e: Error, i: int) -> bool {
    &&& 0 <= i < anchor.len()
    &&& T::accepts(seq![anchor[i]], Result::<T, Error>::Err(e))
    &&& forall|j: int| #![trigger anchor[j]] 0 <= j < i ==> element_decodable::<T>(anchor[j])
}

/// A value that can be deserialized from an XML reader.
///
/// `accepts` is the decoding relation of the type: which results it
/// may hand back from a reader whose anchor nodes carry the given
/// string-values.  Every implementation's `from_xml` is held to it.
/// The exact semantics are implementor defined; an implementation that
/// reads further, engine-dependent values is free to accept anything.
/// However for `Option<T>` a best effort approach should be followed,
/// returning `Ok(None)` in absence of a value instead of an error.
pub trait FromXml: Sized {
    /// The decoding relation of this type.  The default accepts
    /// anything; every built-in implementation replaces it with an
    /// exact relation.
    open spec fn accepts(anchor: Seq<Seq<char>>, r: FromXmlResult<Self>) -> bool {
        true
    }

    /// Read an instance of `Self` from the provided `reader`.
    fn from_xml<'d>(reader: &'d Reader<'d>) -> (r: FromXmlResult<Self>)
        ensures
            Self::accepts(reader.anchor_model(), r),
    ;
}

/// A helper trait to define two `FromXml` implementations at once.
///
/// In general you want to implement `FromXml` directly, however
/// sometimes you want to implement it for `T` and `Option<T>`.
/// In this case you can implement `FromXmlOptional` for `T` and
/// `FromXml` will be implemented for both types, where `FromXml`
/// for `T` fails if your implementation returns `None`.
pub trait FromXmlOptional: Sized {
    /// The decoding relation of this type.  The default accepts
    /// anything.
    open spec fn accepts_opt(anchor: Seq<Seq<char>>, r: FromXmlResult<Option<Self>>) -> bool {
        true
    }

    /// `FromXml::from_xml` impl for `Option<T>`.
    fn from_xml_optional<'d>(reader: &'d Reader<'d>) -> (r: FromXmlResult<Option<Self>>)
        ensures
            Self::accepts_opt(reader.anchor_model(), r),
    ;
}

impl<T: FromXmlOptional> FromXml for T {
    open spec fn accepts(anchor: Seq<Seq<char>>, r: FromXmlResult<T>) -> bool {
        match r {
            Ok(v) => T::accepts_opt(anchor, Ok(Some(v))),
            Err(e) => T::accepts_opt(anchor, Err(e)) || (e.spec_kind() == ErrorKind::Custom
                && T::accepts_opt(anchor, Ok(None))),
        }
    }

    fn from_xml<'d>(reader: &'d Reader<'d>) -> (r: FromXmlResult<Self>) {
        match T::from_xml_optional(reader) {
            Ok(Some(v)) => Ok(v),
            Ok(None) => Err(Error::custom_msg("Missing value.".to_owned())),
            Err(e) => Err(e),
        }
    }
}

impl<T: FromXmlOptional> FromXml for Option<T> {
    open spec fn accepts(anchor: Seq<Seq<char>>, r: FromXmlResult<Option<T>>) -> bool {
        T::accepts_opt(anchor, r)
    }

    fn from_xml<'d>(reader: &'d Reader<'d>) -> (r: FromXmlResult<Self>) {
        T::from_xml_optional(reader)
    }
}

enum Anchor<'d> {
    Nodes(Vec<XmlNode<'d>>),
    Root(XmlPackage),
}

/// XML element tree reader using XPath expressions.
///
/// # Anchor
///
/// An instance of `Reader` either contains a complete document, or
/// references an anchor node-set (a "relative" reader).  There are two
/// aspects for which this distinction is relevant:
///
/// 1) Relative expressions: if there is an anchor node-set, relative
///    XPath expressions are evaluated relative to its first node.
/// 2) `FromXml` implementors can query the anchor node-set to convert
///    multiple nodes into a single target value.
pub struct Reader<'d> {
    context: Refable<'d, ReaderContext<'d>>,
    anchor: Anchor<'d>,
}

impl<'d> Reader<'d> {
    /// The models of the anchor nodes: each node's string-value, in
    /// the order the reader holds them.  A document anchor stands for
    /// the singleton holding the root node.
    pub closed spec fn anchor_model(self) -> Seq<Seq<char>> {
        match self.anchor {
            Anchor::Nodes(v) => node_models(v@),
            Anchor::Root(p) => seq![p.root_model()],
        }
    }

    /// Whether this reader owns a whole document.
    pub closed spec fn is_root(self) -> bool {
        self.anchor is Root
    }

    /// The evaluation context this reader consults.
    pub closed spec fn context_model(self) -> ReaderContext<'d> {
        self.context.value()
    }

    /// Whether this reader's context is borrowed from outside.
    pub closed spec fn context_borrowed(self) -> bool {
        self.context is Borrowed
    }

    /// Read the result of the XPath expression into a value of type
    /// `V`: evaluate the expression relative to the anchor, then let
    /// `V` decode itself from the derived reader.
    pub fn read<'a, V, X>(&'d self, xpath_expr: X) -> (r: Result<V, Error>)
        where
            V: FromXml,
            X: Into<XPathExpression<'a>>,
            XPathExpression<'a>: From<X>,
        ensures
            r is Ok ==> self.anchor_model().len() > 0,
            r is Ok ==> exists|m: Seq<Seq<char>>| V::accepts(m, r),
            r matches Err(e) ==> e.spec_kind() == ErrorKind::CompileQuery || e.spec_kind()
                == ErrorKind::EvaluateQuery || exists|m: Seq<Seq<char>>|
                V::accepts(m, Result::<V, Error>::Err(e)),
            ({
                let qe = <XPathExpression<'a> as vstd::std_specs::convert::FromSpec<
                    X,
                >>::from_spec(xpath_expr);
                let compilable = qe.is_parsed() || xpath_compile_ok(qe.query_text());
                <XPathExpression<'a> as vstd::std_specs::convert::FromSpec<
                    X,
                >>::obeys_from_spec() ==> {
                    &&& !compilable ==> (r matches Err(e) && e.spec_kind()
                        == ErrorKind::CompileQuery)
                    &&& compilable && self.anchor_model().len() == 0 ==> (r matches Err(e)
                        && e.spec_kind() == ErrorKind::EvaluateQuery)
                    &&& compilable && !prefixes_bound(
                        qe.query_text(),
                        self.context_model().namespaces_model(),
                    ) ==> (r matches Err(e) && e.spec_kind() == ErrorKind::EvaluateQuery)
                    &&& r matches Err(e) ==> (e.spec_kind() == ErrorKind::CompileQuery
                        ==> !compilable || exists|m: Seq<Seq<char>>|
                        V::accepts(m, Result::<V, Error>::Err(e)))
                }
            }),
    {
        let expr: XPathExpression<'a> = xpath_expr.into();
        proof {
            if <XPathExpression<'a> as vstd::std_specs::convert::FromSpec<
                X,
            >>::obeys_from_spec() {
                assert(expr == <XPathExpression<'a> as vstd::std_specs::convert::FromSpec<
                    X,
                >>::from_spec(xpath_expr));
            }
        }
        let reader = match self.with_nodeset_eval(&expr) {
            Ok(rd) => rd,
            Err(e) => {
                return Err(e);
            },
        };
        let r = V::from_xml(&reader);
        proof {
            assert(V::accepts(reader.anchor_model(), r));
        }
        r
    }

    /// Construct a new reader for the specified XML document.
    ///
    /// A context can be specified to define custom variables and
    /// namespaces; without one, a fresh context with nothing bound is
    /// created and owned by the reader.
    pub fn from_str(xml: &str, context: Option<&'d ReaderContext<'d>>) -> (r: Result<Self, Error>)
        ensures
            r is Ok <==> xml_parses(xml@),
            r matches Ok(rd) ==> {
                &&& rd.is_root()
                &&& rd.anchor_model() == seq![xml_root_text(xml@)]
                &&& match context {
                    Some(c) => rd.context_borrowed() && rd.context_model() == *c,
                    None => !rd.context_borrowed() && rd.context_model().namespaces_model().len()
                        == 0 && rd.context_model().variables_model().len() == 0,
                }
            },
            r matches Err(e) ==> e.spec_kind() == ErrorKind::ParseXml,
    {
        let package = match parse_document(xml) {
            Ok(p) => p,
            Err(msg) => {
                return Err(Error::internal(msg, ErrorKind::ParseXml));
            },
        };
        let context_refable = match context {
            Some(c) => Refable::Borrowed(c),
            None => Refable::Owned(ReaderContext::new()),
        };
        let rd = Reader { context: context_refable, anchor: Anchor::Root(package) };
        proof {
            assert(rd.anchor_model() =~= seq![xml_root_text(xml@)]);
        }
        Ok(rd)
    }

    /// Construct a new reader for the specified nodes.
    ///
    /// Relative XPath expressions will then resolve to the first node
    /// held.  The nodes can be obtained from a `Reader<'d>` with the
    /// `anchor_nodeset` and `anchor_node` methods; a node-set obtained
    /// that way comes in document order and keeps that order here.
    ///
    /// Note: the node-set can even be empty, which can be used by
    /// `FromXml` implementors to cover the absence of a value in some
    /// cases.
    pub fn from_nodeset(nodeset: Vec<XmlNode<'d>>, context: Option<&'d ReaderContext<'d>>) -> (r:
        Self)
        ensures
            !r.is_root(),
            r.anchor_model() == node_models(nodeset@),
            match context {
                Some(c) => r.context_borrowed() && r.context_model() == *c,
                None => !r.context_borrowed() && r.context_model().namespaces_model().len() == 0
                    && r.context_model().variables_model().len() == 0,
            },
    {
        let context_refable = match context {
            Some(c) => Refable::Borrowed(c),
            None => Refable::Owned(ReaderContext::new()),
        };
        Reader { context: context_refable, anchor: Anchor::Nodes(nodeset) }
    }

    /// Convenience method over `from_nodeset` when there is only one
    /// node for the node-set.
    pub fn from_node(node: XmlNode<'d>, context: Option<&'d ReaderContext<'d>>) -> (r: Self)
        ensures
            !r.is_root(),
            r.anchor_model() == seq![node.model()],
            match context {
                Some(c) => r.context_borrowed() && r.context_model() == *c,
                None => !r.context_borrowed() && r.context_model().namespaces_model().len() == 0
                    && r.context_model().variables_model().len() == 0,
            },
    {
        let ghost nm = node.model();
        let nodeset = vec![node];
        let r = Self::from_nodeset(nodeset, context);
        proof {
            assert(r.anchor_model() =~= seq![nm]);
        }
        r
    }

    /// Creates a new `Reader` instance by evaluating an XPath
    /// expression and using the resulting node-set as anchor.
    ///
    /// The current context is re-borrowed — never cloned — so the new
    /// reader consults the same context as this one.  The expression
    /// must evaluate to a node-set; a string, number or boolean result
    /// is an evaluation error, as is an empty anchor to evaluate
    /// against, or a namespace prefix in the expression that the
    /// context does not bind.
    pub fn with_nodeset_eval<'a>(&'d self, xpath_expr: &XPathExpression<'a>) -> (r: Result<
        Self,
        Error,
    >)
        ensures
            r matches Ok(rd) ==> {
                &&& rd.context_borrowed()
                &&& rd.context_model() == self.context_model()
                &&& !rd.is_root()
            },
            !(xpath_expr.is_parsed() || xpath_compile_ok(xpath_expr.query_text())) <==> (
            r matches Err(e) && e.spec_kind() == ErrorKind::CompileQuery),
            (xpath_expr.is_parsed() || xpath_compile_ok(xpath_expr.query_text()))
                && self.anchor_model().len() == 0 ==> (r matches Err(e) && e.spec_kind()
                == ErrorKind::EvaluateQuery),
            (xpath_expr.is_parsed() || xpath_compile_ok(xpath_expr.query_text()))
                && !prefixes_bound(
                xpath_expr.query_text(),
                self.context_model().namespaces_model(),
            ) ==> (r matches Err(e) && e.spec_kind() == ErrorKind::EvaluateQuery),
            r matches Err(e) ==> e.spec_kind() == ErrorKind::CompileQuery || e.spec_kind()
                == ErrorKind::EvaluateQuery,
            r is Ok ==> self.anchor_model().len() > 0,
    {
        match self.evaluate(xpath_expr) {
            Ok(nodes) => Ok(
                Reader { context: self.context.clone_ref(), anchor: Anchor::Nodes(nodes) },
            ),
            Err(e) => Err(e),
        }
    }

    /// References the evaluation context of this reader.
    pub fn context(&'d self) -> (r: &'d ReaderContext<'d>)
        ensures
            *r == self.context_model(),
    {
        self.context.borrow()
    }

    /// Returns the anchor nodes of the current reader, in the order it
    /// holds them: by reference for a node-set anchor, synthesized and
    /// owned for a document anchor.
    pub fn anchor_nodeset(&'d self) -> (r: Refable<'d, Vec<XmlNode<'d>>>)
        ensures
            node_models(r.value()@) == self.anchor_model(),
            !self.is_root() ==> r is Borrowed,
    {
        match &self.anchor {
            Anchor::Nodes(v) => Refable::Borrowed(v),
            Anchor::Root(p) => {
                let root = package_root(p);
                let out = vec![root];
                proof {
                    assert(node_models(out@) =~= seq![p.root_model()]);
                }
                Refable::Owned(out)
            },
        }
    }

    /// Returns the first node of the anchor: the root node of an owned
    /// document, or the first node held — which is the
    /// document-order-first node whenever the anchor came from an
    /// evaluation, and the first of the given nodes for a
    /// caller-assembled list.
    ///
    /// If the anchor node-set is empty, `None` will be returned.
    pub fn anchor_node(&'d self) -> (r: Option<XmlNode<'d>>)
        ensures
            r is Some <==> self.anchor_model().len() > 0,
            r matches Some(n) ==> n.model() == self.anchor_model()[0],
    {
        match &self.anchor {
            Anchor::Nodes(v) => {
                if v.len() > 0 {
                    Some(v[0].duplicate())
                } else {
                    None
                }
            },
            Anchor::Root(p) => Some(package_root(p)),
        }
    }

    /// Evaluate the expression against the anchor's first node: the
    /// resulting nodes in document order, or the error of whichever
    /// stage failed.  An expression naming a namespace prefix that the
    /// context does not bind is refused here, before the engine sees
    /// it, whether or not evaluation would consult that name; the
    /// candidate prefixes are determined conservatively from the
    /// expression text, as the prefix module describes.
    fn evaluate<'a>(&'d self, xpath_expr: &XPathExpression<'a>) -> (r: Result<
        Vec<XmlNode<'d>>,
        Error,
    >)
        ensures
            !(xpath_expr.is_parsed() || xpath_compile_ok(xpath_expr.query_text())) <==> (
            r matches Err(e) && e.spec_kind() == ErrorKind::CompileQuery),
            (xpath_expr.is_parsed() || xpath_compile_ok(xpath_expr.query_text()))
                && self.anchor_model().len() == 0 ==> (r matches Err(e) && e.spec_kind()
                == ErrorKind::EvaluateQuery),
            (xpath_expr.is_parsed() || xpath_compile_ok(xpath_expr.query_text()))
                && !prefixes_bound(
                xpath_expr.query_text(),
                self.context_model().namespaces_model(),
            ) ==> (r matches Err(e) && e.spec_kind() == ErrorKind::EvaluateQuery),
            r matches Err(e) ==> e.spec_kind() == ErrorKind::CompileQuery || e.spec_kind()
                == ErrorKind::EvaluateQuery,
            r is Ok ==> self.anchor_model().len() > 0,
    {
        let query_cell = match xpath_expr.parsed() {
            Ok(q) => q,
            Err(e) => {
                return Err(e);
            },
        };
        let anchor = match self.anchor_node() {
            Some(n) => n,
            None => {
                let mut msg: String = "Anchor node not found when evaluating: '".to_owned();
                msg.append(xpath_expr.to_string().as_str());
                msg.append("'");
                return Err(Error::internal(msg, ErrorKind::EvaluateQuery));
            },
        };
        let query = query_cell.borrow();
        match find_unbound_prefix(query.source().as_str(), self.context.borrow().namespace_bindings()) {
            Some(p) => {
                let mut msg: String = "Unknown namespace prefix: '".to_owned();
                msg.append(p.as_str());
                msg.append("'");
                return Err(Error::internal(msg, ErrorKind::EvaluateQuery));
            },
            None => {},
        }
        match evaluate_query(query, self.context.borrow(), &anchor) {
            EvalOutcome::Nodes(raw) => {
                let mut nodes: Vec<XmlNode<'d>> = Vec::new();
                let mut i: usize = 0;
                while i < raw.len()
                    invariant
                        i <= raw@.len(),
                        nodes@.len() == i,
                    decreases raw@.len() - i,
                {
                    nodes.push(capture_node(raw[i]));
                    i += 1;
                }
                Ok(nodes)
            },
            EvalOutcome::NotNodeset => {
                let mut msg: String =
                    "XPath expression did not evaluate to nodeset: '".to_owned();
                msg.append(xpath_expr.to_string().as_str());
                msg.append("'");
                Err(Error::internal(msg, ErrorKind::EvaluateQuery))
            },
            EvalOutcome::EngineFailure(diag) => Err(Error::internal(diag, ErrorKind::EvaluateQuery)),
        }
    }
}

impl FromXml for String {
    /// A string accepts the string-value of the anchor's first node;
    /// an empty anchor is an error, not an empty string.
    open spec fn accepts(anchor: Seq<Seq<char>>, r: FromXmlResult<String>) -> bool {
        match r {
            Ok(s) => anchor.len() > 0 && s@ == anchor[0],
            Err(e) => anchor.len() == 0 && e.spec_kind() == ErrorKind::Custom,
        }
    }

    fn from_xml<'d>(reader: &'d Reader<'d>) -> (r: FromXmlResult<Self>) {
        match reader.anchor_node() {
            Some(n) => Ok(n.text().clone()),
            None => Err(Error::custom_msg("Missing (anchor) node.".to_owned())),
        }
    }
}

impl FromXml for Option<String> {
    /// An optional string accepts `None` exactly when the anchor is
    /// empty or its first node's string-value is the empty string.
    open spec fn accepts(anchor: Seq<Seq<char>>, r: FromXmlResult<Option<String>>) -> bool {
        match r {
            Ok(v) => match v {
                Some(s) => anchor.len() > 0 && s@ == anchor[0] && s@.len() > 0,
                None => anchor.len() == 0 || anchor[0].len() == 0,
            },
            Err(_) => false,
        }
    }

    fn from_xml<'d>(reader: &'d Reader<'d>) -> (r: FromXmlResult<Self>) {
        match reader.anchor_node() {
            Some(n) => {
                let s = n.text().clone();
                if s.as_str().is_empty() {
                    Ok(None)
                } else {
                    Ok(Some(s))
                }
            },
            None => Ok(None),
        }
    }
}

impl<T: FromXml> FromXml for Vec<T> {
    /// A sequence accepts the elementwise decoding of the anchor
    /// nodes, in the order the reader holds them — document order for
    /// a reader derived by evaluation; it fails fast with the error of
    /// the first failing element, every element before it being
    /// decodable, and an empty anchor yields an empty sequence.
    open spec fn accepts(anchor: Seq<Seq<char>>, r: FromXmlResult<Vec<T>>) -> bool {
        match r {
            Ok(v) => v@.len() == anchor.len() && (forall|i: int|
                0 <= i < anchor.len() ==> T::accepts(
                    seq![anchor[i]],
                    Ok(#[trigger] v@[i]),
                )),
            Err(e) => exists|i: int| #[trigger] sequence_fails_at::<T>(anchor, e, i),
        }
    }

    fn from_xml<'d>(reader: &'d Reader<'d>) -> (r: FromXmlResult<Self>) {
        let nodes_cell = reader.anchor_nodeset();
        let nodes = nodes_cell.borrow();
        let context = reader.context();
        let mut out: Vec<T> = Vec::new();
        let mut i: usize = 0;
        while i < nodes.len()
            invariant
                i <= nodes@.len(),
                out@.len() == i,
                node_models(nodes@) == reader.anchor_model(),
                forall|j: int|
                    0 <= j < i ==> T::accepts(
                        seq![reader.anchor_model()[j]],
                        Ok(#[trigger] out@[j]),
                    ),
            decreases nodes@.len() - i,
        {
            let sub = Reader::from_node(nodes[i].duplicate(), Some(context));
            match T::from_xml(&sub) {
                Ok(v) => {
                    out.push(v);
                },
                Err(e) => {
                    proof {
                        let m = reader.anchor_model();
                        assert(T::accepts(seq![m[i as int]], Result::<T, Error>::Err(e)));
                        assert forall|j: int| #![trigger m[j]] 0 <= j < i implies
                            element_decodable::<T>(m[j]) by {
                            assert(T::accepts(seq![m[j]], Result::<T, Error>::Ok(out@[j])));
                        }
                        assert(sequence_fails_at::<T>(m, e, i as int));
                    }
                    return Err(e);
                },
            }
            i += 1;
        }
        Ok(out)
    }
}

impl FromXml for u8 {
    /// An integer accepts the standard textual parse of the anchor's
    /// first node's string-value; a parse failure carries that exact
    /// text, and an empty anchor is a distinct, custom error.
    open spec fn accepts(anchor: Seq<Seq<char>>, r: FromXmlResult<u8>) -> bool {
        match r {
            Ok(v) => anchor.len() > 0 && uint_text_in_range(anchor[0], u8::MAX as int)
                && v as int == uint_text_value(anchor[0]),
            Err(e) => (anchor.len() == 0 && e.spec_kind() == ErrorKind::Custom) || (anchor.len()
                > 0 && !uint_text_in_range(anchor[0], u8::MAX as int) && e.is_value_error(
                anchor[0],
            )),
        }
    }

    fn from_xml<'d>(reader: &'d Reader<'d>) -> (r: FromXmlResult<Self>) {
        let s = match String::from_xml(reader) {
            Ok(s) => s,
            Err(e) => {
                return Err(e);
            },
        };
        match text_to_u8(s.as_str()) {
            Some(v) => Ok(v),
            None => Err(Error::value_failure(s)),
        }
    }
}

impl FromXml for Option<u8> {
    /// An optional integer accepts `None` exactly when the anchor is
    /// empty or its first node's string-value is the empty string;
    /// otherwise it parses like the plain integer.
    open spec fn accepts(anchor: Seq<Seq<char>>, r: FromXmlResult<Option<u8>>) -> bool {
        match r {
            Ok(v) => match v {
                Some(x) => anchor.len() > 0 && anchor[0].len() > 0 && uint_text_in_range(
                    anchor[0],
                    u8::MAX as int,
                ) && x as int == uint_text_value(anchor[0]),
                None => anchor.len() == 0 || anchor[0].len() == 0,
            },
            Err(e) => anchor.len() > 0 && anchor[0].len() > 0 && !uint_text_in_range(
                anchor[0],
                u8::MAX as int,
            ) && e.is_value_error(anchor[0]),
        }
    }

    fn from_xml<'d>(reader: &'d Reader<'d>) -> (r: FromXmlResult<Self>) {
        match Option::<String>::from_xml(reader) {
            Ok(Some(s)) => match text_to_u8(s.as_str()) {
                Some(v) => Ok(Some(v)),
                None => Err(Error::value_failure(s)),
            },
            Ok(None) => Ok(None),
            Err(e) => Err(e),
        }
    }
}

impl FromXml for u16 {
    /// An integer accepts the standard textual parse of the anchor's
    /// first node's string-value; a parse failure carries that exact
    /// text, and an empty anchor is a distinct, custom error.
    open spec fn accepts(anchor: Seq<Seq<char>>, r: FromXmlResult<u16>) -> bool {
        match r {
            Ok(v) => anchor.len() > 0 && uint_text_in_range(anchor[0], u16::MAX as int)
                && v as int == uint_text_value(anchor[0]),
            Err(e) => (anchor.len() == 0 && e.spec_kind() == ErrorKind::Custom) || (anchor.len()
                > 0 && !uint_text_in_range(anchor[0], u16::MAX as int) && e.is_value_error(
                anchor[0],
            )),
        }
    }

    fn from_xml<'d>(reader: &'d Reader<'d>) -> (r: FromXmlResult<Self>) {
        let s = match String::from_xml(reader) {
            Ok(s) => s,
            Err(e) => {
                return Err(e);
            },
        };
        match text_to_u16(s.as_str()) {
            Some(v) => Ok(v),
            None => Err(Error::value_failure(s)),
        }
    }
}

impl FromXml for Option<u16> {
    /// An optional integer accepts `None` exactly when the anchor is
    /// empty or its first node's string-value is the empty string;
    /// otherwise it parses like the plain integer.
    open spec fn accepts(anchor: Seq<Seq<char>>, r: FromXmlResult<Option<u16>>) -> bool {
        match r {
            Ok(v) => match v {
                Some(x) => anchor.len() > 0 && anchor[0].len() > 0 && uint_text_in_range(
                    anchor[0],
                    u16::MAX as int,
                ) && x as int == uint_text_value(anchor[0]),
                None => anchor.len() == 0 || anchor[0].len() == 0,
            },
            Err(e) => anchor.len() > 0 && anchor[0].len() > 0 && !uint_text_in_range(
                anchor[0],
                u16::MAX as int,
            ) && e.is_value_error(anchor[0]),
        }
    }

    fn from_xml<'d>(reader: &'d Reader<'d>) -> (r: FromXmlResult<Self>) {
        match Option::<String>::from_xml(reader) {
            Ok(Some(s)) => match text_to_u16(s.as_str()) {
                Some(v) => Ok(Some(v)),
                None => Err(Error::value_failure(s)),
            },
            Ok(None) => Ok(None),
            Err(e) => Err(e),
        }
    }
}

impl FromXml for u32 {
    /// An integer accepts the standard textual parse of the anchor's
    /// first node's string-value; a parse failure carries that exact
    /// text, and an empty anchor is a distinct, custom error.
    open spec fn accepts(anchor: Seq<Seq<char>>, r: FromXmlResult<u32>) -> bool {
        match r {
            Ok(v) => anchor.len() > 0 && uint_text_in_range(anchor[0], u32::MAX as int)
                && v as int == uint_text_value(anchor[0]),
            Err(e) => (anchor.len() == 0 && e.spec_kind() == ErrorKind::Custom) || (anchor.len()
                > 0 && !uint_text_in_range(anchor[0], u32::MAX as int) && e.is_value_error(
                anchor[0],
            )),
        }
    }

    fn from_xml<'d>(reader: &'d Reader<'d>) -> (r: FromXmlResult<Self>) {
        let s = match String::from_xml(reader) {
            Ok(s) => s,
            Err(e) => {
                return Err(e);
            },
        };
        match text_to_u32(s.as_str()) {
            Some(v) => Ok(v),
            None => Err(Error::value_failure(s)),
        }
    }
}

impl FromXml for Option<u32> {
    /// An optional integer accepts `None` exactly when the anchor is
    /// empty or its first node's string-value is the empty string;
    /// otherwise it parses like the plain integer.
    open spec fn accepts(anchor: Seq<Seq<char>>, r: FromXmlResult<Option<u32>>) -> bool {
        match r {
            Ok(v) => match v {
                Some(x) => anchor.len() > 0 && anchor[0].len() > 0 && uint_text_in_range(
                    anchor[0],
                    u32::MAX as int,
                ) && x as int == uint_text_value(anchor[0]),
                None => anchor.len() == 0 || anchor[0].len() == 0,
            },
            Err(e) => anchor.len() > 0 && anchor[0].len() > 0 && !uint_text_in_range(
                anchor[0],
                u32::MAX as int,
            ) && e.is_value_error(anchor[0]),
        }
    }

    fn from_xml<'d>(reader: &'d Reader<'d>) -> (r: FromXmlResult<Self>) {
        match Option::<String>::from_xml(reader) {
            Ok(Some(s)) => match text_to_u32(s.as_str()) {
                Some(v) => Ok(Some(v)),
                None => Err(Error::value_failure(s)),
            },
            Ok(None) => Ok(None),
            Err(e) => Err(e),
        }
    }
}

impl FromXml for u64 {
    /// An integer accepts the standard textual parse of the anchor's
    /// first node's string-value; a parse failure carries that exact
    /// text, and an empty anchor is a distinct, custom error.
    open spec fn accepts(anchor: Seq<Seq<char>>, r: FromXmlResult<u64>) -> bool {
        match r {
            Ok(v) => anchor.len() > 0 && uint_text_in_range(anchor[0], u64::MAX as int)
                && v as int == uint_text_value(anchor[0]),
            Err(e) => (anchor.len() == 0 && e.spec_kind() == ErrorKind::Custom) || (anchor.len()
                > 0 && !uint_text_in_range(anchor[0], u64::MAX as int) && e.is_value_error(
                anchor[0],
            )),
        }
    }

    fn from_xml<'d>(reader: &'d Reader<'d>) -> (r: FromXmlResult<Self>) {
        let s = match String::from_xml(reader) {
            Ok(s) => s,
            Err(e) => {
                return Err(e);
            },
        };
        match text_to_u64(s.as_str()) {
            Some(v) => Ok(v),
            None => Err(Error::value_failure(s)),
        }
    }
}

impl FromXml for Option<u64> {
    /// An optional integer accepts `None` exactly when the anchor is
    /// empty or its first node's string-value is the empty string;
    /// otherwise it parses like the plain integer.
    open spec fn accepts(anchor: Seq<Seq<char>>, r: FromXmlResult<Option<u64>>) -> bool {
        match r {
            Ok(v) => match v {
                Some(x) => anchor.len() > 0 && anchor[0].len() > 0 && uint_text_in_range(
                    anchor[0],
                    u64::MAX as int,
                ) && x as int == uint_text_value(anchor[0]),
                None => anchor.len() == 0 || anchor[0].len() == 0,
            },
            Err(e) => anchor.len() > 0 && anchor[0].len() > 0 && !uint_text_in_range(
                anchor[0],
                u64::MAX as int,
            ) && e.is_value_error(anchor[0]),
        }
    }

    fn from_xml<'d>(reader: &'d Reader<'d>) -> (r: FromXmlResult<Self>) {
        match Option::<String>::from_xml(reader) {
            Ok(Some(s)) => match text_to_u64(s.as_str()) {
                Some(v) => Ok(Some(v)),
                None => Err(Error::value_failure(s)),
            },
            Ok(None) => Ok(None),
            Err(e) => Err(e),
        }
    }
}

impl FromXml for i8 {
    /// An integer accepts the standard textual parse of the anchor's
    /// first node's string-value; a parse failure carries that exact
    /// text, and an empty anchor is a distinct, custom error.
    open spec fn accepts(anchor: Seq<Seq<char>>, r: FromXmlResult<i8>) -> bool {
        match r {
            Ok(v) => anchor.len() > 0 && int_text_in_range(anchor[0], i8::MIN as int, i8::MAX as int)
                && v as int == int_text_value(anchor[0]),
            Err(e) => (anchor.len() == 0 && e.spec_kind() == ErrorKind::Custom) || (anchor.len()
                > 0 && !int_text_in_range(anchor[0], i8::MIN as int, i8::MAX as int) && e.is_value_error(
                anchor[0],
            )),
        }
    }

    fn from_xml<'d>(reader: &'d Reader<'d>) -> (r: FromXmlResult<Self>) {
        let s = match String::from_xml(reader) {
            Ok(s) => s,
            Err(e) => {
                return Err(e);
            },
        };
        match text_to_i8(s.as_str()) {
            Some(v) => Ok(v),
            None => Err(Error::value_failure(s)),
        }
    }
}

impl FromXml for Option<i8> {
    /// An optional integer accepts `None` exactly when the anchor is
    /// empty or its first node's string-value is the empty string;
    /// otherwise it parses like the plain integer.
    open spec fn accepts(anchor: Seq<Seq<char>>, r: FromXmlResult<Option<i8>>) -> bool {
        match r {
            Ok(v) => match v {
                Some(x) => anchor.len() > 0 && anchor[0].len() > 0 && int_text_in_range(
                    anchor[0],
                    i8::MIN as int,
                    i8::MAX as int,
                ) && x as int == int_text_value(anchor[0]),
                None => anchor.len() == 0 || anchor[0].len() == 0,
            },
            Err(e) => anchor.len() > 0 && anchor[0].len() > 0 && !int_text_in_range(
                anchor[0],
                i8::MIN as int,
                i8::MAX as int,
            ) && e.is_value_error(anchor[0]),
        }
    }

    fn from_xml<'d>(reader: &'d Reader<'d>) -> (r: FromXmlResult<Self>) {
        match Option::<String>::from_xml(reader) {
            Ok(Some(s)) => match text_to_i8(s.as_str()) {
                Some(v) => Ok(Some(v)),
                None => Err(Error::value_failure(s)),
            },
            Ok(None) => Ok(None),
            Err(e) => Err(e),
        }
    }
}

impl FromXml for i16 {
    /// An integer accepts the standard textual parse of the anchor's
    /// first node's string-value; a parse failure carries that exact
    /// text, and an empty anchor is a distinct, custom error.
    open spec fn accepts(anchor: Seq<Seq<char>>, r: FromXmlResult<i16>) -> bool {
        match r {
            Ok(v) => anchor.len() > 0 && int_text_in_range(anchor[0], i16::MIN as int, i16::MAX as int)
                && v as int == int_text_value(anchor[0]),
            Err(e) => (anchor.len() == 0 && e.spec_kind() == ErrorKind::Custom) || (anchor.len()
                > 0 && !int_text_in_range(anchor[0], i16::MIN as int, i16::MAX as int) && e.is_value_error(
                anchor[0],
            )),
        }
    }

    fn from_xml<'d>(reader: &'d Reader<'d>) -> (r: FromXmlResult<Self>) {
        let s = match String::from_xml(reader) {
            Ok(s) => s,
            Err(e) => {
                return Err(e);
            },
        };
        match text_to_i16(s.as_str()) {
            Some(v) => Ok(v),
            None => Err(Error::value_failure(s)),
        }
    }
}

impl FromXml for Option<i16> {
    /// An optional integer accepts `None` exactly when the anchor is
    /// empty or its first node's string-value is the empty string;
    /// otherwise it parses like the plain integer.
    open spec fn accepts(anchor: Seq<Seq<char>>, r: FromXmlResult<Option<i16>>) -> bool {
        match r {
            Ok(v) => match v {
                Some(x) => anchor.len() > 0 && anchor[0].len() > 0 && int_text_in_range(
                    anchor[0],
                    i16::MIN as int,
                    i16::MAX as int,
                ) && x as int == int_text_value(anchor[0]),
                None => anchor.len() == 0 || anchor[0].len() == 0,
            },
            Err(e) => anchor.len() > 0 && anchor[0].len() > 0 && !int_text_in_range(
                anchor[0],
                i16::MIN as int,
                i16::MAX as int,
            ) && e.is_value_error(anchor[0]),
        }
    }

    fn from_xml<'d>(reader: &'d Reader<'d>) -> (r: FromXmlResult<Self>) {
        match Option::<String>::from_xml(reader) {
            Ok(Some(s)) => match text_to_i16(s.as_str()) {
                Some(v) => Ok(Some(v)),
                None => Err(Error::value_failure(s)),
            },
            Ok(None) => Ok(None),
            Err(e) => Err(e),
        }
    }
}

impl FromXml for i32 {
    /// An integer accepts the standard textual parse of the anchor's
    /// first node's string-value; a parse failure carries that exact
    /// text, and an empty anchor is a distinct, custom error.
    open spec fn accepts(anchor: Seq<Seq<char>>, r: FromXmlResult<i32>) -> bool {
        match r {
            Ok(v) => anchor.len() > 0 && int_text_in_range(anchor[0], i32::MIN as int, i32::MAX as int)
                && v as int == int_text_value(anchor[0]),
            Err(e) => (anchor.len() == 0 && e.spec_kind() == ErrorKind::Custom) || (anchor.len()
                > 0 && !int_text_in_range(anchor[0], i32::MIN as int, i32::MAX as int) && e.is_value_error(
                anchor[0],
            )),
        }
    }

    fn from_xml<'d>(reader: &'d Reader<'d>) -> (r: FromXmlResult<Self>) {
        let s = match String::from_xml(reader) {
            Ok(s) => s,
            Err(e) => {
                return Err(e);
            },
        };
        match text_to_i32(s.as_str()) {
            Some(v) => Ok(v),
            None => Err(Error::value_failure(s)),
        }
    }
}

impl FromXml for Option<i32> {
    /// An optional integer accepts `None` exactly when the anchor is
    /// empty or its first node's string-value is the empty string;
    /// otherwise it parses like the plain integer.
    open spec fn accepts(anchor: Seq<Seq<char>>, r: FromXmlResult<Option<i32>>) -> bool {
        match r {
            Ok(v) => match v {
                Some(x) => anchor.len() > 0 && anchor[0].len() > 0 && int_text_in_range(
                    anchor[0],
                    i32::MIN as int,
                    i32::MAX as int,
                ) && x as int == int_text_value(anchor[0]),
                None => anchor.len() == 0 || anchor[0].len() == 0,
            },
            Err(e) => anchor.len() > 0 && anchor[0].len() > 0 && !int_text_in_range(
                anchor[0],
                i32::MIN as int,
                i32::MAX as int,
            ) && e.is_value_error(anchor[0]),
        }
    }

    fn from_xml<'d>(reader: &'d Reader<'d>) -> (r: FromXmlResult<Self>) {
        match Option::<String>::from_xml(reader) {
            Ok(Some(s)) => match text_to_i32(s.as_str()) {
                Some(v) => Ok(Some(v)),
                None => Err(Error::value_failure(s)),
            },
            Ok(None) => Ok(None),
            Err(e) => Err(e),
        }
    }
}

impl FromXml for i64 {
    /// An integer accepts the standard textual parse of the anchor's
    /// first node's string-value; a parse failure carries that exact
    /// text, and an empty anchor is a distinct, custom error.
    open spec fn accepts(anchor: Seq<Seq<char>>, r: FromXmlResult<i64>) -> bool {
        match r {
            Ok(v) => anchor.len() > 0 && int_text_in_range(anchor[0], i64::MIN as int, i64::MAX as int)
                && v as int == int_text_value(anchor[0]),
            Err(e) => (anchor.len() == 0 && e.spec_kind() == ErrorKind::Custom) || (anchor.len()
                > 0 && !int_text_in_range(anchor[0], i64::MIN as int, i64::MAX as int) && e.is_value_error(
                anchor[0],
            )),
        }
    }

    fn from_xml<'d>(reader: &'d Reader<'d>) -> (r: FromXmlResult<Self>) {
        let s = match String::from_xml(reader) {
            Ok(s) => s,
            Err(e) => {
                return Err(e);
            },
        };
        match text_to_i64(s.as_str()) {
            Some(v) => Ok(v),
            None => Err(Error::value_failure(s)),
        }
    }
}

impl FromXml for Option<i64> {
    /// An optional integer accepts `None` exactly when the anchor is
    /// empty or its first node's string-value is the empty string;
    /// otherwise it parses like the plain integer.
    open spec fn accepts(anchor: Seq<Seq<char>>, r: FromXmlResult<Option<i64>>) -> bool {
        match r {
            Ok(v) => match v {
                Some(x) => anchor.len() > 0 && anchor[0].len() > 0 && int_text_in_range(
                    anchor[0],
                    i64::MIN as int,
                    i64::MAX as int,
                ) && x as int == int_text_value(anchor[0]),
                None => anchor.len() == 0 || anchor[0].len() == 0,
            },
            Err(e) => anchor.len() > 0 && anchor[0].len() > 0 && !int_text_in_range(
                anchor[0],
                i64::MIN as int,
                i64::MAX as int,
            ) && e.is_value_error(anchor[0]),
        }
    }

    fn from_xml<'d>(reader: &'d Reader<'d>) -> (r: FromXmlResult<Self>) {
        match Option::<String>::from_xml(reader) {
            Ok(Some(s)) => match text_to_i64(s.as_str()) {
                Some(v) => Ok(Some(v)),
                None => Err(Error::value_failure(s)),
            },
            Ok(None) => Ok(None),
            Err(e) => Err(e),
        }
    }
}

impl FromXml for bool {
    /// A boolean accepts exactly the texts `true` and `false` as the
    /// anchor's first node's string-value; any other text carries that
    /// exact text in the error, and an empty anchor is a distinct,
    /// custom error.
    open spec fn accepts(anchor: Seq<Seq<char>>, r: FromXmlResult<bool>) -> bool {
        match r {
            Ok(v) => anchor.len() > 0 && bool_text_value(anchor[0]) == Some(v),
            Err(e) => (anchor.len() == 0 && e.spec_kind() == ErrorKind::Custom) || (anchor.len()
                > 0 && bool_text_value(anchor[0]) is None && e.is_value_error(anchor[0])),
        }
    }

    fn from_xml<'d>(reader: &'d Reader<'d>) -> (r: FromXmlResult<Self>) {
        let s = match String::from_xml(reader) {
            Ok(s) => s,
            Err(e) => {
                return Err(e);
            },
        };
        match text_to_bool(s.as_str()) {
            Some(v) => Ok(v),
            None => Err(Error::value_failure(s)),
        }
    }
}

impl FromXml for Option<bool> {
    /// An optional boolean accepts `None` exactly when the anchor is
    /// empty or its first node's string-value is the empty string;
    /// otherwise it parses like the plain boolean.
    open spec fn accepts(anchor: Seq<Seq<char>>, r: FromXmlResult<Option<bool>>) -> bool {
        match r {
            Ok(v) => match v {
                Some(x) => anchor.len() > 0 && anchor[0].len() > 0 && bool_text_value(anchor[0])
                    == Some(x),
                None => anchor.len() == 0 || anchor[0].len() == 0,
            },
            Err(e) => anchor.len() > 0 && anchor[0].len() > 0 && bool_text_value(anchor[0])
                is None && e.is_value_error(anchor[0]),
        }
    }

    fn from_xml<'d>(reader: &'d Reader<'d>) -> (r: FromXmlResult<Self>) {
        match Option::<String>::from_xml(reader) {
            Ok(Some(s)) => match text_to_bool(s.as_str()) {
                Some(v) => Ok(Some(v)),
                None => Err(Error::value_failure(s)),
            },
            Ok(None) => Ok(None),
            Err(e) => Err(e),
        }
    }
}


} // verus!
