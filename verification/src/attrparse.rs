//! The annotation syntax: parsing the text of a function's binding
//! annotation list, `named(ident)` and `maybe_named(ident)` separated by
//! commas, with an optional trailing comma, into [`Annotation`] values. A
//! malformed list is a build-time error.

use vstd::prelude::*;
use vstd::string::StrSliceExecFns;
use crate::bindspec::Annotation;
use crate::bindspec::AnnotationKind;
use crate::error::BuildError;
use crate::strutil::str_eq;

verus! {

/// Whether `c` may continue an identifier: an ASCII letter, a digit or an
/// underscore.
pub open spec fn is_ident_cont(c: char) -> bool {
    (97 <= c as u32 && c as u32 <= 122) || (65 <= c as u32 && c as u32 <= 90) || (48 <= c as u32
        && c as u32 <= 57) || c == '_'
}

/// Whether `c` may start an identifier: an ASCII letter or an underscore.
pub open spec fn is_ident_start(c: char) -> bool {
    (97 <= c as u32 && c as u32 <= 122) || (65 <= c as u32 && c as u32 <= 90) || c == '_'
}

/// The first index at or after `i` that does not hold a space.
pub open spec fn skip_spaces(s: Seq<char>, i: int) -> int
    decreases s.len() - i,
{
    if 0 <= i < s.len() && s[i] == ' ' {
        skip_spaces(s, i + 1)
    } else {
        i
    }
}

/// The first index at or after `i` that cannot continue an identifier.
pub open spec fn ident_end(s: Seq<char>, i: int) -> int
    decreases s.len() - i,
{
    if 0 <= i < s.len() && is_ident_cont(s[i]) {
        ident_end(s, i + 1)
    } else {
        i
    }
}

proof fn lemma_skip_spaces_bounds(s: Seq<char>, i: int)
    requires
        0 <= i <= s.len(),
    ensures
        i <= skip_spaces(s, i) <= s.len(),
    decreases s.len() - i,
{
    if i < s.len() && s[i] == ' ' {
        lemma_skip_spaces_bounds(s, i + 1);
    }
}

proof fn lemma_ident_end_bounds(s: Seq<char>, i: int)
    requires
        0 <= i <= s.len(),
    ensures
        i <= ident_end(s, i) <= s.len(),
    decreases s.len() - i,
{
    if i < s.len() && is_ident_cont(s[i]) {
        lemma_ident_end_bounds(s, i + 1);
    }
}

/// One parsed annotation starting at `i`: its kind, its identifier's
/// characters, and the index just past the closing parenthesis.
pub open spec fn parse_attr(s: Seq<char>, i: int) -> Option<(AnnotationKind, Seq<char>, int)>
    recommends
        0 <= i <= s.len(),
{
    let ke = ident_end(s, i);
    let kw = s.subrange(i, ke);
    if kw == "named"@ || kw == "maybe_named"@ {
        let kind = if kw == "named"@ {
            AnnotationKind::Named
        } else {
            AnnotationKind::MaybeNamed
        };
        let p = skip_spaces(s, ke);
        if p < s.len() && s[p] == '(' {
            let q = skip_spaces(s, p + 1);
            let ie = ident_end(s, q);
            if ie > q && is_ident_start(s[q]) {
                let r2 = skip_spaces(s, ie);
                if r2 < s.len() && s[r2] == ')' {
                    Some((kind, s.subrange(q, ie), r2 + 1))
                } else {
                    None
                }
            } else {
                None
            }
        } else {
            None
        }
    } else {
        None
    }
}

proof fn lemma_parse_attr_bounds(s: Seq<char>, i: int)
    requires
        0 <= i <= s.len(),
    ensures
        parse_attr(s, i) matches Some(t) ==> i < t.2 <= s.len(),
{
    lemma_ident_end_bounds(s, i);
    let ke = ident_end(s, i);
    lemma_skip_spaces_bounds(s, ke);
    let p = skip_spaces(s, ke);
    if p < s.len() {
        lemma_skip_spaces_bounds(s, p + 1);
        let q = skip_spaces(s, p + 1);
        lemma_ident_end_bounds(s, q);
        let ie = ident_end(s, q);
        lemma_skip_spaces_bounds(s, ie);
    }
}

/// The annotation list starting at `i`: a possibly empty, comma-separated
/// sequence of annotations, an optional trailing comma, spaces anywhere
/// between tokens. `None` when the text is malformed.
pub open spec fn parse_list(s: Seq<char>, i: int) -> Option<Seq<(AnnotationKind, Seq<char>)>>
    decreases s.len() - i,
        when 0 <= i <= s.len()
        via parse_list_decreases
{
    let j = skip_spaces(s, i);
    if j >= s.len() {
        Some(Seq::empty())
    } else {
        match parse_attr(s, j) {
            Option::None => None,
            Option::Some(t) => {
                let k = skip_spaces(s, t.2);
                if k >= s.len() {
                    Some(seq![(t.0, t.1)])
                } else if s[k] == ',' {
                    match parse_list(s, k + 1) {
                        Option::None => None,
                        Option::Some(rest) => Some(seq![(t.0, t.1)] + rest),
                    }
                } else {
                    None
                }
            },
        }
    }
}

#[via_fn]
proof fn parse_list_decreases(s: Seq<char>, i: int) {
    lemma_skip_spaces_bounds(s, i);
    let j = skip_spaces(s, i);
    if j < s.len() {
        lemma_parse_attr_bounds(s, j);
        if let Some(t) = parse_attr(s, j) {
            lemma_skip_spaces_bounds(s, t.2);
        }
    }
}

/// The mathematical content of a list of annotations.
pub open spec fn annots_model(annots: Seq<Annotation>) -> Seq<(AnnotationKind, Seq<char>)> {
    annots.map_values(|a: Annotation| (a.kind, a.ident@))
}

/// Whether a parsed option equals `done` followed by what `rest` holds.
pub open spec fn combine(
    done: Seq<(AnnotationKind, Seq<char>)>,
    rest: Option<Seq<(AnnotationKind, Seq<char>)>>,
) -> Option<Seq<(AnnotationKind, Seq<char>)>> {
    match rest {
        Option::None => None,
        Option::Some(r) => Some(done + r),
    }
}

fn ident_cont_exec(c: char) -> (r: bool)
    ensures
        r == is_ident_cont(c),
{
    let u = c as u32;
    (97 <= u && u <= 122) || (65 <= u && u <= 90) || (48 <= u && u <= 57) || c == '_'
}

fn ident_start_exec(c: char) -> (r: bool)
    ensures
        r == is_ident_start(c),
{
    let u = c as u32;
    (97 <= u && u <= 122) || (65 <= u && u <= 90) || c == '_'
}

fn skip_spaces_exec(s: &str, i: usize, n: usize) -> (r: usize)
    requires
        n == s@.len(),
        i <= n,
    ensures
        r == skip_spaces(s@, i as int),
        i <= r <= n,
{
    let mut j = i;
    while j < n
        invariant
            i <= j <= n,
            n == s@.len(),
            skip_spaces(s@, i as int) == skip_spaces(s@, j as int),
        decreases n - j,
    {
        if s.get_char(j) != ' ' {
            return j;
        }
        j += 1;
    }
    j
}

fn ident_end_exec(s: &str, i: usize, n: usize) -> (r: usize)
    requires
        n == s@.len(),
        i <= n,
    ensures
        r == ident_end(s@, i as int),
        i <= r <= n,
{
    let mut j = i;
    while j < n
        invariant
            i <= j <= n,
            n == s@.len(),
            ident_end(s@, i as int) == ident_end(s@, j as int),
        decreases n - j,
    {
        if !ident_cont_exec(s.get_char(j)) {
            return j;
        }
        j += 1;
    }
    j
}

fn parse_attr_exec(s: &str, i: usize, n: usize) -> (r: Option<(AnnotationKind, String, usize)>)
    requires
        n == s@.len(),
        i <= n,
    ensures
        match r {
            Some(t) => parse_attr(s@, i as int) == Some((t.0, t.1@, t.2 as int)) && i < t.2 <= n,
            None => parse_attr(s@, i as int) is None,
        },
{
    proof {
        lemma_parse_attr_bounds(s@, i as int);
    }
    let ke = ident_end_exec(s, i, n);
    let kw = s.substring_char(i, ke);
    let kind: AnnotationKind;
    if str_eq(kw, "named") {
        kind = AnnotationKind::Named;
    } else if str_eq(kw, "maybe_named") {
        kind = AnnotationKind::MaybeNamed;
    } else {
        return None;
    }
    let p = skip_spaces_exec(s, ke, n);
    if p >= n {
        return None;
    }
    if s.get_char(p) != '(' {
        return None;
    }
    let q = skip_spaces_exec(s, p + 1, n);
    let ie = ident_end_exec(s, q, n);
    if ie == q {
        return None;
    }
    if !ident_start_exec(s.get_char(q)) {
        return None;
    }
    let name = s.substring_char(q, ie);
    let r2 = skip_spaces_exec(s, ie, n);
    if r2 >= n {
        return None;
    }
    if s.get_char(r2) != ')' {
        return None;
    }
    Some((kind, name.to_owned(), r2 + 1))
}

/// Parse the text of an annotation list. Succeeds exactly on well-formed
/// text, with the annotations in textual order; any other text is the
/// malformed-annotation build error.
pub fn parse_annotations(s: &str) -> (r: Result<Vec<Annotation>, BuildError>)
    ensures
        match r {
            Ok(annots) => parse_list(s@, 0) == Some(annots_model(annots@)),
            Err(e) => parse_list(s@, 0) is None && e == BuildError::MalformedAnnotationSyntax,
        },
{
    let n = s.unicode_len();
    let mut acc: Vec<Annotation> = Vec::new();
    let mut cur: usize = 0;
    proof {
        if let Some(all) = parse_list(s@, 0) {
            assert(Seq::<(AnnotationKind, Seq<char>)>::empty() + all =~= all);
        }
        assert(annots_model(acc@) =~= Seq::<(AnnotationKind, Seq<char>)>::empty());
    }
    loop
        invariant
            cur <= n,
            n == s@.len(),
            parse_list(s@, 0) == combine(annots_model(acc@), parse_list(s@, cur as int)),
        decreases n - cur,
    {
        let j = skip_spaces_exec(s, cur, n);
        if j >= n {
            proof {
                assert(annots_model(acc@) + Seq::<(AnnotationKind, Seq<char>)>::empty()
                    =~= annots_model(acc@));
            }
            return Ok(acc);
        }
        let t = match parse_attr_exec(s, j, n) {
            Some(t) => t,
            None => {
                return Err(BuildError::MalformedAnnotationSyntax);
            },
        };
        let (kind, name, e) = t;
        let ghost am = (kind, name@);
        let k = skip_spaces_exec(s, e, n);
        if k >= n {
            let a = Annotation { kind, ident: name };
            proof {
                assert(annots_model(acc@.push(a)) =~= annots_model(acc@).push(am));
                assert(annots_model(acc@) + seq![am] =~= annots_model(acc@).push(am));
            }
            acc.push(a);
            return Ok(acc);
        }
        if s.get_char(k) != ',' {
            return Err(BuildError::MalformedAnnotationSyntax);
        }
        let a = Annotation { kind, ident: name };
        proof {
            assert(annots_model(acc@.push(a)) =~= annots_model(acc@).push(am));
            match parse_list(s@, k as int + 1) {
                Option::None => {},
                Option::Some(rest) => {
                    assert(annots_model(acc@) + (seq![am] + rest) =~= annots_model(acc@).push(am)
                        + rest);
                },
            }
        }
        acc.push(a);
        cur = k + 1;
    }
}

} // verus!
