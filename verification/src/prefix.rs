//! Namespace-prefix scanning of path expression texts.
//!
//! The query engine resolves the namespace prefix of a name test only
//! during evaluation, and it does not return on a prefix the context
//! leaves unbound.  Before any evaluation the reader therefore scans
//! the expression text: outside quoted literals (which have no escape
//! sequences), every name-character run that ends at a single colon —
//! never at the `::` of an axis — carries the prefix of a name the
//! engine will resolve.
//!
//! The engine's tokenizer does not stop at the start of such a run: in
//! the right position it first takes a leading operator name (`and`,
//! `or`, `div`, `mod`), a number, a dot or a minus out of it, so the
//! name it resolves may be a suffix of the run.  The scan therefore
//! checks every candidate: walking the run from its start, it demands
//! a binding at each position where a name may begin — skipping the
//! characters that cannot begin one, and following each operator-name
//! split.  This is a sound superset of the prefixes the engine can
//! resolve; the price is that an expression may be refused although
//! the engine would only have resolved a bound prefix (the candidates
//! also cover prefixed variable and function names, which the engine
//! refuses itself, with the same error kind).

use vstd::prelude::*;

verus! {

/// Whether `c` may start an NCName, per the XML name grammar the
/// document parser and the query engine share.
pub open spec fn is_ncname_start_char(c: char) -> bool {
    let u = c as int;
    ||| (65 <= u && u <= 90)  // A-Z
    ||| u == 95  // _
    ||| (97 <= u && u <= 122)  // a-z
    ||| (0xC0 <= u && u <= 0xD6)
    ||| (0xD8 <= u && u <= 0xF6)
    ||| (0xF8 <= u && u <= 0x2FF)
    ||| (0x370 <= u && u <= 0x37D)
    ||| (0x37F <= u && u <= 0x1FFF)
    ||| (0x200C <= u && u <= 0x200D)
    ||| (0x2070 <= u && u <= 0x218F)
    ||| (0x2C00 <= u && u <= 0x2FEF)
    ||| (0x3001 <= u && u <= 0xD7FF)
    ||| (0xF900 <= u && u <= 0xFDCF)
    ||| (0xFDF0 <= u && u <= 0xFFFD)
    ||| (0x10000 <= u && u <= 0xEFFFF)
}

/// Whether `c` may stand anywhere in an NCName.
pub open spec fn is_ncname_char(c: char) -> bool {
    let u = c as int;
    ||| is_ncname_start_char(c)
    ||| u == 45  // -
    ||| u == 46  // .
    ||| (48 <= u && u <= 57)  // 0-9
    ||| u == 0xB7
    ||| (0x300 <= u && u <= 0x36F)
    ||| (0x203F <= u && u <= 0x2040)
}

/// The start of the name-character run that ends just before
/// position `i` of `s`.
pub open spec fn run_start(s: Seq<char>, i: int) -> int
    decreases i,
{
    if 0 < i <= s.len() && is_ncname_char(s[i - 1]) {
        run_start(s, i - 1)
    } else {
        i
    }
}

/// Whether position `i` of `s` holds a colon that is not part of an
/// axis separator `::`.
pub open spec fn single_colon_at(s: Seq<char>, i: int) -> bool {
    &&& 0 <= i < s.len()
    &&& s[i] == ':'
    &&& (i == 0 || s[i - 1] != ':')
    &&& (i + 1 == s.len() || s[i + 1] != ':')
}

/// The length of the operator name (`and`, `or`, `div`, `mod`)
/// standing at position `p` of `s` before the bound `i`, or zero.
pub open spec fn operator_len_at(s: Seq<char>, p: int, i: int) -> int {
    if s[p] == 'a' && p + 3 <= i && s[p + 1] == 'n' && s[p + 2] == 'd' {
        3
    } else if s[p] == 'd' && p + 3 <= i && s[p + 1] == 'i' && s[p + 2] == 'v' {
        3
    } else if s[p] == 'm' && p + 3 <= i && s[p + 1] == 'o' && s[p + 2] == 'd' {
        3
    } else if s[p] == 'o' && p + 2 <= i && s[p + 1] == 'r' {
        2
    } else {
        0
    }
}

/// The view of a list of string pairs.
pub open spec fn pairs_model(v: Seq<(String, String)>) -> Seq<(Seq<char>, Seq<char>)> {
    Seq::new(v.len(), |i: int| (v[i].0@, v[i].1@))
}

/// Whether the bindings `ns` bind the prefix `p`.
pub open spec fn prefix_bound(ns: Seq<(Seq<char>, Seq<char>)>, p: Seq<char>) -> bool {
    exists|k: int| 0 <= k < ns.len() && (#[trigger] ns[k]).0 == p
}

/// Whether every candidate prefix of the run `s[p..i)` is bound in
/// `ns`: at each position where a name may begin, the suffix up to the
/// colon must be bound; characters that cannot begin a name are
/// stepped over, and an operator name is split off to reach the next
/// candidate.
pub open spec fn run_candidates_ok(
    s: Seq<char>,
    ns: Seq<(Seq<char>, Seq<char>)>,
    p: int,
    i: int,
) -> bool
    decreases i - p,
{
    if p < 0 || p >= i || i > s.len() {
        true
    } else if is_ncname_start_char(s[p]) {
        if operator_len_at(s, p, i) > 0 {
            prefix_bound(ns, s.subrange(p, i)) && run_candidates_ok(
                s,
                ns,
                p + operator_len_at(s, p, i),
                i,
            )
        } else {
            prefix_bound(ns, s.subrange(p, i))
        }
    } else {
        run_candidates_ok(s, ns, p + 1, i)
    }
}

/// Whether every candidate prefix of `s` from position `i` on, in
/// quoting state `quote`, is bound in `ns`.
pub open spec fn prefixes_bound_from(
    s: Seq<char>,
    ns: Seq<(Seq<char>, Seq<char>)>,
    i: int,
    quote: Option<char>,
) -> bool
    decreases s.len() - i,
{
    if i < 0 || i >= s.len() {
        true
    } else {
        match quote {
            Some(q) => prefixes_bound_from(
                s,
                ns,
                i + 1,
                if s[i] == q {
                    None
                } else {
                    Some(q)
                },
            ),
            None => {
                if s[i] == '\'' || s[i] == '"' {
                    prefixes_bound_from(s, ns, i + 1, Some(s[i]))
                } else if single_colon_at(s, i) && !run_candidates_ok(s, ns, run_start(s, i), i) {
                    false
                } else {
                    prefixes_bound_from(s, ns, i + 1, None)
                }
            },
        }
    }
}

/// Whether every candidate prefix of `s`, outside quoted literals, is
/// bound in `ns`.
pub open spec fn prefixes_bound(s: Seq<char>, ns: Seq<(Seq<char>, Seq<char>)>) -> bool {
    prefixes_bound_from(s, ns, 0, None)
}

/// Whether `c` may start an NCName.
fn ncname_start_char(c: char) -> (r: bool)
    ensures
        r == is_ncname_start_char(c),
{
    let u = c as u32;
    (65 <= u && u <= 90) || u == 95 || (97 <= u && u <= 122) || (0xC0 <= u && u <= 0xD6) || (0xD8
        <= u && u <= 0xF6) || (0xF8 <= u && u <= 0x2FF) || (0x370 <= u && u <= 0x37D) || (0x37F
        <= u && u <= 0x1FFF) || (0x200C <= u && u <= 0x200D) || (0x2070 <= u && u <= 0x218F) || (
    0x2C00 <= u && u <= 0x2FEF) || (0x3001 <= u && u <= 0xD7FF) || (0xF900 <= u && u <= 0xFDCF) || (
    0xFDF0 <= u && u <= 0xFFFD) || (0x10000 <= u && u <= 0xEFFFF)
}

/// Whether `c` may stand anywhere in an NCName.
fn ncname_char(c: char) -> (r: bool)
    ensures
        r == is_ncname_char(c),
{
    let u = c as u32;
    ncname_start_char(c) || u == 45 || u == 46 || (48 <= u && u <= 57) || u == 0xB7 || (0x300 <= u
        && u <= 0x36F) || (0x203F <= u && u <= 0x2040)
}

/// The length of the operator name standing at position `p` of `text`
/// before the bound `i`, or zero.
fn operator_len(text: &str, p: usize, i: usize) -> (r: usize)
    requires
        p < i,
        i <= text@.len(),
    ensures
        r as int == operator_len_at(text@, p as int, i as int),
{
    let c = text.get_char(p);
    if c == 'a' && i - p >= 3 && text.get_char(p + 1) == 'n' && text.get_char(p + 2) == 'd' {
        3
    } else if c == 'd' && i - p >= 3 && text.get_char(p + 1) == 'i' && text.get_char(p + 2)
        == 'v' {
        3
    } else if c == 'm' && i - p >= 3 && text.get_char(p + 1) == 'o' && text.get_char(p + 2)
        == 'd' {
        3
    } else if c == 'o' && i - p >= 2 && text.get_char(p + 1) == 'r' {
        2
    } else {
        0
    }
}

/// Whether `namespaces` binds the prefix `p`.
fn prefix_is_bound(p: &str, namespaces: &Vec<(String, String)>) -> (r: bool)
    ensures
        r == prefix_bound(pairs_model(namespaces@), p@),
{
    let owned: String = p.to_owned();
    let mut k: usize = 0;
    while k < namespaces.len()
        invariant
            k <= namespaces@.len(),
            owned@ == p@,
            forall|t: int| 0 <= t < k ==> (#[trigger] pairs_model(namespaces@)[t]).0 != p@,
        decreases namespaces@.len() - k,
    {
        if namespaces[k].0 == owned {
            proof {
                assert((pairs_model(namespaces@)[k as int]).0 == p@);
            }
            return true;
        }
        k += 1;
    }
    false
}

/// Check every candidate prefix of the run `text[rs..i)`: the first
/// unbound one, or `None` when all are bound.
fn check_run(text: &str, namespaces: &Vec<(String, String)>, rs: usize, i: usize) -> (r: Option<
    String,
>)
    requires
        rs <= i,
        i <= text@.len(),
    ensures
        r is None <==> run_candidates_ok(text@, pairs_model(namespaces@), rs as int, i as int),
{
    let ghost s = text@;
    let ghost ns = pairs_model(namespaces@);
    let mut p: usize = rs;
    loop
        invariant
            rs <= p <= i,
            i <= s.len(),
            s == text@,
            ns == pairs_model(namespaces@),
            run_candidates_ok(s, ns, rs as int, i as int) == run_candidates_ok(
                s,
                ns,
                p as int,
                i as int,
            ),
        decreases i - p,
    {
        if p >= i {
            return None;
        }
        let c = text.get_char(p);
        if ncname_start_char(c) {
            let cand = text.substring_char(p, i);
            if !prefix_is_bound(cand, namespaces) {
                return Some(cand.to_owned());
            }
            let ol = operator_len(text, p, i);
            if ol > 0 {
                p += ol;
            } else {
                return None;
            }
        } else {
            p += 1;
        }
    }
}

/// Scan `text` outside quoted literals for a candidate prefix — a
/// name that may end at a single colon — that `namespaces` does not
/// bind; the first such prefix, or `None` when every one is bound.
pub(crate) fn find_unbound_prefix(text: &str, namespaces: &Vec<(String, String)>) -> (r: Option<
    String,
>)
    ensures
        r is None <==> prefixes_bound(text@, pairs_model(namespaces@)),
{
    let ghost s = text@;
    let ghost ns = pairs_model(namespaces@);
    let n = text.unicode_len();
    let mut i: usize = 0;
    let mut quote: Option<char> = None;
    let mut rs: usize = 0;
    while i < n
        invariant
            i <= n,
            n == s.len(),
            s == text@,
            ns == pairs_model(namespaces@),
            rs <= i,
            rs as int == run_start(s, i as int),
            prefixes_bound(s, ns) == prefixes_bound_from(s, ns, i as int, quote),
        decreases n - i,
    {
        let c = text.get_char(i);
        match quote {
            Some(q) => {
                if c == q {
                    quote = None;
                } else {
                    proof {
                        assert(prefixes_bound_from(s, ns, i as int, Some(q))
                            == prefixes_bound_from(s, ns, i + 1, Some(q)));
                    }
                }
            },
            None => {
                if c == '\'' || c == '"' {
                    quote = Some(c);
                } else if c == ':' {
                    let prev_colon = i > 0 && text.get_char(i - 1) == ':';
                    let next_colon = i + 1 < n && text.get_char(i + 1) == ':';
                    if !prev_colon && !next_colon {
                        proof {
                            assert(single_colon_at(s, i as int));
                        }
                        match check_run(text, namespaces, rs, i) {
                            Some(p) => {
                                return Some(p);
                            },
                            None => {},
                        }
                    }
                }
            },
        }
        proof {
            if is_ncname_char(s[i as int]) {
                assert(run_start(s, i + 1) == run_start(s, i as int));
            } else {
                assert(run_start(s, i + 1) == i + 1);
            }
        }
        if !ncname_char(c) {
            rs = i + 1;
        }
        i += 1;
    }
    None
}

} // verus!
