//! The decoding contract, stated on its own.
//!
//! These proof functions spell out what the conversion relations of
//! the built-in [`FromXml`](crate::reader::FromXml) implementations
//! promise, so a reader of the crate sees the guarantees in one place:
//! what a single selected node yields, how absence flows through the
//! optional and sequence conversions, and how a numeric failure is
//! reported.

use crate::errors::ErrorKind;
use crate::reader::{FromXml, FromXmlResult};
use crate::scalar::{int_text_in_range, int_text_value, is_digit_char, uint_text_body};
use vstd::prelude::*;

verus! {

/// A reader anchored at exactly one node with string-value `t` decodes
/// a plain string to exactly `t` — never an error, never another
/// value.
pub proof fn lemma_string_of_single_node(t: Seq<char>, r: FromXmlResult<String>)
    requires
        <String as FromXml>::accepts(seq![t], r),
    ensures
        r matches Ok(s) && s@ == t,
{
}

/// Absence of a value: over an empty anchor a plain string read must
/// fail with a custom error, an optional string read must yield
/// `None`, and a sequence read must yield the empty sequence — none of
/// them may yield an empty string or fail in another way.
pub proof fn lemma_absent_value(
    r_str: FromXmlResult<String>,
    r_opt: FromXmlResult<Option<String>>,
    r_seq: FromXmlResult<Vec<String>>,
)
    requires
        <String as FromXml>::accepts(Seq::empty(), r_str),
        <Option<String> as FromXml>::accepts(Seq::empty(), r_opt),
        <Vec<String> as FromXml>::accepts(Seq::empty(), r_seq),
    ensures
        r_str matches Err(e) && e.spec_kind() == ErrorKind::Custom,
        r_opt matches Ok(v) && v is None,
        r_seq matches Ok(v) && v@.len() == 0,
{
}

/// Empty text and absence are unified: over an anchor whose first
/// node's string-value is empty, an optional string read yields `None`
/// exactly as it does over no node at all.
pub proof fn lemma_empty_text_is_none(anchor: Seq<Seq<char>>, r: FromXmlResult<Option<String>>)
    requires
        <Option<String> as FromXml>::accepts(anchor, r),
        anchor.len() == 0 || anchor[0].len() == 0,
    ensures
        r matches Ok(v) && v is None,
{
}

/// Order preservation: a successful sequence read of strings returns
/// exactly the string-values of the anchor nodes, one each, in the
/// order the reader holds them — for a reader derived by evaluation,
/// document order.
pub proof fn lemma_sequence_keeps_order(m: Seq<Seq<char>>, r: FromXmlResult<Vec<String>>)
    requires
        <Vec<String> as FromXml>::accepts(m, r),
        r is Ok,
    ensures
        r matches Ok(v) && v@.len() == m.len(),
        forall|i: int| 0 <= i < m.len() ==> (#[trigger] r->Ok_0@[i])@ == m[i],
{
    let v = r->Ok_0;
    assert forall|i: int| 0 <= i < m.len() implies v@[i]@ == m[i] by {
        assert(<String as FromXml>::accepts(seq![m[i]], Ok(v@[i])));
        assert(seq![m[i]][0] == m[i]);
    }
}

/// A numeric parse failure surfaces the conversion-failure kind and
/// carries the exact offending text: a reader anchored at one node
/// whose string-value does not denote an integer in range must report
/// that string-value itself.
pub proof fn lemma_numeric_failure_reports_text(t: Seq<char>, r: FromXmlResult<i64>)
    requires
        <i64 as FromXml>::accepts(seq![t], r),
        !int_text_in_range(t, i64::MIN as int, i64::MAX as int),
    ensures
        r matches Err(e) && e.is_value_error(t),
        r matches Err(e) && e.spec_kind() == ErrorKind::ConversionValue,
{
    assert(seq![t][0] == t);
}

/// The unsigned types refuse a minus sign even on a value that would
/// fit, exactly as the standard textual parse does: a reader anchored
/// at one node whose string-value starts with `-` reports that text as
/// a conversion failure.
pub proof fn lemma_unsigned_refuses_minus(t: Seq<char>, r: FromXmlResult<u64>)
    requires
        <u64 as FromXml>::accepts(seq![t], r),
        t.len() > 0,
        t[0] == '-',
    ensures
        r matches Err(e) && e.is_value_error(t),
{
    assert(seq![t][0] == t);
    assert(uint_text_body(t) == t);
    assert(!is_digit_char(t[0]));
}

/// A numeric read of a single in-range text is the exact parsed value.
pub proof fn lemma_numeric_value_exact(t: Seq<char>, r: FromXmlResult<i64>)
    requires
        <i64 as FromXml>::accepts(seq![t], r),
        int_text_in_range(t, i64::MIN as int, i64::MAX as int),
    ensures
        r matches Ok(v) && v as int == int_text_value(t),
{
    assert(seq![t][0] == t);
}

} // verus!
