//! XPath expression convenience typing.
//!
//! Provides a way to pass both pre-compiled and unparsed expressions
//! as parameter to other methods.  Construction never compiles;
//! callers doing repeated queries with one path should compile once
//! through [`parse`] and reuse the result, while one-off queries can
//! pass a plain string.

use crate::engine::{build_xpath, xpath_compile_ok, CompiledQuery};
use crate::errors::{Error, ErrorKind};
use crate::util::Refable;
use vstd::prelude::*;

verus! {

/// An XPath expression that can be evaluated on documents.
///
/// `From` implementations exist so that strings can be given directly
/// wherever an expression is expected.  For better performance in
/// repeated evaluation of the same expression, use the module level
/// function [`parse`] so it is compiled exactly once.
#[derive(Debug)]
pub struct XPathExpression<'a>(Repr<'a>);

#[derive(Debug)]
enum Repr<'a> {
    Parsed(Refable<'a, CompiledQuery>),
    Unparsed(Text<'a>),
}

#[derive(Debug)]
enum Text<'a> {
    Owned(String),
    Borrowed(&'a str),
}

impl<'a> Text<'a> {
    spec fn model(self) -> Seq<char> {
        match self {
            Text::Owned(s) => s@,
            Text::Borrowed(s) => s@,
        }
    }

    fn as_str(&self) -> (r: &str)
        ensures
            r@ == self.model(),
    {
        match self {
            Text::Owned(s) => s.as_str(),
            Text::Borrowed(s) => s,
        }
    }
}

/// Compile an expression in advance; useful to avoid an expression
/// being compiled anew on every evaluation.
pub fn parse(xpath_expr: &str) -> (r: Result<XPathExpression<'static>, Error>)
    ensures
        r is Ok <==> xpath_compile_ok(xpath_expr@),
        r matches Ok(x) ==> x.is_parsed() && x.query_text() == xpath_expr@,
        r matches Err(e) ==> e.spec_kind() == ErrorKind::CompileQuery,
{
    match parse_xpath(xpath_expr) {
        Ok(q) => Ok(XPathExpression(Repr::Parsed(Refable::Owned(q)))),
        Err(e) => Err(e),
    }
}

impl<'a> XPathExpression<'a> {
    /// The query text this expression denotes: the source text of the
    /// compiled query it holds, or the unparsed text.
    pub closed spec fn query_text(self) -> Seq<char> {
        match self.0 {
            Repr::Parsed(r) => r.value().source_model(),
            Repr::Unparsed(t) => t.model(),
        }
    }

    /// Whether this expression holds an already-compiled query.
    pub closed spec fn is_parsed(self) -> bool {
        self.0 is Parsed
    }

    /// The compiled query this expression denotes: re-borrowed at no
    /// cost when already compiled, compiled now otherwise.
    pub(crate) fn parsed(&self) -> (r: Result<Refable<CompiledQuery>, Error>)
        ensures
            r is Ok <==> self.is_parsed() || xpath_compile_ok(self.query_text()),
            r matches Ok(q) ==> q.value().source_model() == self.query_text(),
            self.is_parsed() ==> (r matches Ok(q) && q is Borrowed),
            r matches Err(e) ==> e.spec_kind() == ErrorKind::CompileQuery,
    {
        match &self.0 {
            Repr::Parsed(refable) => Ok(refable.clone_ref()),
            Repr::Unparsed(t) => match parse_xpath(t.as_str()) {
                Ok(q) => Ok(Refable::Owned(q)),
                Err(e) => Err(e),
            },
        }
    }

    /// The text of this expression, for diagnostics.
    pub(crate) fn to_string(&self) -> (r: String)
        ensures
            r@ == self.query_text(),
    {
        match &self.0 {
            Repr::Parsed(refable) => refable.borrow().source().clone(),
            Repr::Unparsed(t) => t.as_str().to_owned(),
        }
    }
}

impl<'a> From<&'a str> for XPathExpression<'a> {
    fn from(s: &'a str) -> (r: Self)
        ensures
            !r.is_parsed(),
            r.query_text() == s@,
    {
        XPathExpression(Repr::Unparsed(Text::Borrowed(s)))
    }
}

impl<'a> vstd::std_specs::convert::FromSpecImpl<&'a str> for XPathExpression<'a> {
    open spec fn obeys_from_spec() -> bool {
        true
    }

    closed spec fn from_spec(v: &'a str) -> Self {
        XPathExpression(Repr::Unparsed(Text::Borrowed(v)))
    }
}

impl<'a> From<String> for XPathExpression<'a> {
    fn from(s: String) -> (r: Self)
        ensures
            !r.is_parsed(),
            r.query_text() == s@,
    {
        XPathExpression(Repr::Unparsed(Text::Owned(s)))
    }
}

impl<'a> vstd::std_specs::convert::FromSpecImpl<String> for XPathExpression<'a> {
    open spec fn obeys_from_spec() -> bool {
        true
    }

    closed spec fn from_spec(v: String) -> Self {
        XPathExpression(Repr::Unparsed(Text::Owned(v)))
    }
}

impl From<CompiledQuery> for XPathExpression<'static> {
    fn from(q: CompiledQuery) -> (r: Self)
        ensures
            r.is_parsed(),
            r.query_text() == q.source_model(),
    {
        XPathExpression(Repr::Parsed(Refable::Owned(q)))
    }
}

impl vstd::std_specs::convert::FromSpecImpl<CompiledQuery> for XPathExpression<'static> {
    open spec fn obeys_from_spec() -> bool {
        true
    }

    closed spec fn from_spec(v: CompiledQuery) -> Self {
        XPathExpression(Repr::Parsed(Refable::Owned(v)))
    }
}

impl<'a> From<&'a CompiledQuery> for XPathExpression<'a> {
    fn from(q: &'a CompiledQuery) -> (r: Self)
        ensures
            r.is_parsed(),
            r.query_text() == q.source_model(),
    {
        XPathExpression(Repr::Parsed(Refable::Borrowed(q)))
    }
}

impl<'a> vstd::std_specs::convert::FromSpecImpl<&'a CompiledQuery> for XPathExpression<'a> {
    open spec fn obeys_from_spec() -> bool {
        true
    }

    closed spec fn from_spec(v: &'a CompiledQuery) -> Self {
        XPathExpression(Repr::Parsed(Refable::Borrowed(v)))
    }
}

impl<'a> From<&'a XPathExpression<'a>> for XPathExpression<'a> {
    fn from(x: &'a XPathExpression<'a>) -> (r: Self)
        ensures
            r.query_text() == x.query_text(),
            r.is_parsed() == x.is_parsed(),
    {
        match &x.0 {
            Repr::Parsed(refable) => XPathExpression(Repr::Parsed(refable.clone_ref())),
            Repr::Unparsed(t) => XPathExpression(Repr::Unparsed(Text::Borrowed(t.as_str()))),
        }
    }
}

impl<'a> vstd::std_specs::convert::FromSpecImpl<&'a XPathExpression<'a>> for XPathExpression<'a> {
    open spec fn obeys_from_spec() -> bool {
        false
    }

    closed spec fn from_spec(v: &'a XPathExpression<'a>) -> Self {
        arbitrary()
    }
}

/// What `from` builds from a borrowed string: an unparsed expression
/// over exactly that text.
pub broadcast proof fn lemma_from_spec_str<'a>(v: &'a str)
    ensures
        (#[trigger] <XPathExpression<'a> as vstd::std_specs::convert::FromSpec<
            &'a str,
        >>::from_spec(v)).query_text() == v@,
        !<XPathExpression<'a> as vstd::std_specs::convert::FromSpec<&'a str>>::from_spec(
            v,
        ).is_parsed(),
{
}

/// What `from` builds from an owned string: an unparsed expression
/// over exactly that text.
pub broadcast proof fn lemma_from_spec_string<'a>(v: String)
    ensures
        (#[trigger] <XPathExpression<'a> as vstd::std_specs::convert::FromSpec<
            String,
        >>::from_spec(v)).query_text() == v@,
        !<XPathExpression<'a> as vstd::std_specs::convert::FromSpec<String>>::from_spec(
            v,
        ).is_parsed(),
{
}

/// What `from` builds from an owned compiled query: a pre-compiled
/// expression over that query's source text.
pub broadcast proof fn lemma_from_spec_query(v: CompiledQuery)
    ensures
        (#[trigger] <XPathExpression<'static> as vstd::std_specs::convert::FromSpec<
            CompiledQuery,
        >>::from_spec(v)).query_text() == v.source_model(),
        <XPathExpression<'static> as vstd::std_specs::convert::FromSpec<
            CompiledQuery,
        >>::from_spec(v).is_parsed(),
{
}

/// What `from` builds from a borrowed compiled query: a pre-compiled
/// expression over that query's source text.
pub broadcast proof fn lemma_from_spec_query_ref<'a>(v: &'a CompiledQuery)
    ensures
        (#[trigger] <XPathExpression<'a> as vstd::std_specs::convert::FromSpec<
            &'a CompiledQuery,
        >>::from_spec(v)).query_text() == v.source_model(),
        <XPathExpression<'a> as vstd::std_specs::convert::FromSpec<
            &'a CompiledQuery,
        >>::from_spec(v).is_parsed(),
{
}

/// Compile `xpath_expr` with the query engine, mapping both a
/// compilation failure and an empty program to a compile error.
pub(crate) fn parse_xpath(xpath_expr: &str) -> (r: Result<CompiledQuery, Error>)
    ensures
        r is Ok <==> xpath_compile_ok(xpath_expr@),
        r matches Ok(q) ==> q.source_model() == xpath_expr@,
        r matches Err(e) ==> e.spec_kind() == ErrorKind::CompileQuery,
{
    match build_xpath(xpath_expr) {
        Ok(Some(q)) => Ok(q),
        Ok(None) => Err(
            Error::internal("Empty XPath expression.".to_owned(), ErrorKind::CompileQuery),
        ),
        Err(msg) => Err(Error::internal(msg, ErrorKind::CompileQuery)),
    }
}

} // verus!
