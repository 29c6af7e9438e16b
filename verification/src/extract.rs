//! The Signature Extractor: decomposes raw function-definition text into a
//! [`FunctionSignature`], or fails with `MalformedSignature` when the text
//! does not have the shape of a function definition — missing name,
//! unbalanced delimiters, or an invalid parameter list.
//!
//! The accepted shape is: leading whitespace, any number of `#[...]`
//! attribute annotations, an optional `pub` or `pub(...)` qualifier, `fn`,
//! the name, an optional `<...>` generic parameter list, the `(...)`
//! parameter list of `name: type` pairs, an optional `-> type` return type
//! containing no brace, and the `{...}` body, whose delimiters must balance.

use vstd::prelude::*;
use vstd::string::StrSliceExecFns;
use vstd::string::StringExecFns;

use crate::model::FunctionSignature;
use crate::model::FunctionSignatureV;
use crate::model::Param;
use crate::model::ParamV;
use crate::model::TransformError;
use crate::model::Visibility;
use crate::model::VisibilityV;
use crate::text::is_ident_start_char;
use crate::text::spec_skip_ws;
use crate::text::spec_ident_end;
use crate::text::spec_group_end;
use crate::text::spec_seg_end;
use crate::text::spec_find_char;
use crate::text::spec_rtrim;
use crate::text::is_ident_text;
use crate::text::lemma_ident_text;
use crate::text::lemma_skip_ws_bounds;
use crate::text::lemma_ident_end_bounds;
use crate::text::lemma_group_end;
use crate::text::lemma_seg_end;
use crate::text::skip_ws;
use crate::text::ident_end;
use crate::text::ident_start_char;
use crate::text::group_end;
use crate::text::seg_end;
use crate::text::find_char;
use crate::text::rtrim;
use crate::text::str_eq;

verus! {

// ---------------------------------------------------------------------------
// Attributes
// ---------------------------------------------------------------------------

/// The attribute annotations from `i` on — each a full `#[...]` text — and
/// the position after them, once trailing whitespace is skipped.
pub open spec fn spec_attrs_from(s: Seq<char>, i: int) -> Option<(Seq<Seq<char>>, int)>
    decreases s.len() - i,
    via spec_attrs_from_dec
{
    let j = spec_skip_ws(s, i);
    if j < s.len() && s[j] == '#' {
        if j + 1 < s.len() && s[j + 1] == '[' {
            match spec_group_end(s, '[', ']', j + 2, 1) {
                None => None,
                Some(m) => match spec_attrs_from(s, m + 1) {
                    None => None,
                    Some((rest, ni)) => Some((seq![s.subrange(j, m + 1)] + rest, ni)),
                },
            }
        } else {
            None
        }
    } else {
        Some((Seq::<Seq<char>>::empty(), j))
    }
}

#[via_fn]
proof fn spec_attrs_from_dec(s: Seq<char>, i: int) {
    let j = spec_skip_ws(s, i);
    lemma_skip_ws_bounds(s, i);
    lemma_group_end(s, '[', ']', j + 2, 1);
}

fn parse_attrs(s: &str, i: usize) -> (r: Option<(Vec<String>, usize)>)
    requires
        i <= s@.len(),
    ensures
        (match r {
            Some((attrs, ni)) => spec_attrs_from(s@, i as int) == Some(
                (attrs@.map_values(|a: String| a@), ni as int),
            ) && ni <= s@.len(),
            None => spec_attrs_from(s@, i as int) is None,
        }),
{
    let n: usize = s.unicode_len();
    let mut out: Vec<String> = Vec::new();
    let mut cur: usize = i;
    loop
        invariant
            i <= cur <= n,
            n == s@.len(),
            (match spec_attrs_from(s@, cur as int) {
                Some((rest, ni)) => spec_attrs_from(s@, i as int) == Some(
                    (out@.map_values(|a: String| a@) + rest, ni),
                ),
                None => spec_attrs_from(s@, i as int) is None,
            }),
        decreases n - cur,
    {
        let ghost prev = out@.map_values(|a: String| a@);
        let j = skip_ws(s, cur);
        if j < n && s.get_char(j) == '#' {
            if j + 1 < n && s.get_char(j + 1) == '[' {
                match group_end(s, '[', ']', j + 2) {
                    None => {
                        return None;
                    },
                    Some(m) => {
                        out.push(String::from_str(s.substring_char(j, m + 1)));
                        proof {
                            assert(out@.map_values(|a: String| a@) =~= prev + seq![
                                s@.subrange(j as int, m as int + 1),
                            ]);
                            if let Some((rest, ni)) = spec_attrs_from(s@, m as int + 1) {
                                assert(prev + (seq![s@.subrange(j as int, m + 1)] + rest) =~= (prev
                                    + seq![s@.subrange(j as int, m + 1)]) + rest);
                            }
                        }
                        cur = m + 1;
                    },
                }
            } else {
                return None;
            }
        } else {
            proof {
                assert(spec_attrs_from(s@, cur as int) == Some(
                    (Seq::<Seq<char>>::empty(), j as int),
                ));
                assert(prev + Seq::<Seq<char>>::empty() =~= prev);
            }
            return Some((out, j));
        }
    }
}

// ---------------------------------------------------------------------------
// Visibility and the `fn` keyword
// ---------------------------------------------------------------------------

/// Expects the `fn` keyword at `i`; yields the given visibility and the
/// position after the keyword.
pub open spec fn spec_expect_fn(s: Seq<char>, i: int, v: VisibilityV) -> Option<
    (VisibilityV, int),
> {
    if i < s.len() && is_ident_start_char(s[i]) {
        let e = spec_ident_end(s, i);
        if s.subrange(i, e) == "fn"@ {
            Some((v, e))
        } else {
            None
        }
    } else {
        None
    }
}

/// The visibility qualifier and `fn` keyword at `i`: either `fn` directly,
/// or `pub` or `pub(...)` followed by `fn`.  Yields the position after `fn`.
pub open spec fn spec_vis_fn(s: Seq<char>, i: int) -> Option<(VisibilityV, int)> {
    if i < s.len() && is_ident_start_char(s[i]) {
        let e = spec_ident_end(s, i);
        let w = s.subrange(i, e);
        if w == "fn"@ {
            Some((VisibilityV::Private, e))
        } else if w == "pub"@ {
            let k = spec_skip_ws(s, e);
            if k < s.len() && s[k] == '(' {
                match spec_group_end(s, '(', ')', k + 1, 1) {
                    None => None,
                    Some(m) => spec_expect_fn(
                        s,
                        spec_skip_ws(s, m + 1),
                        VisibilityV::Restricted(s.subrange(k + 1, m)),
                    ),
                }
            } else {
                spec_expect_fn(s, k, VisibilityV::Public)
            }
        } else {
            None
        }
    } else {
        None
    }
}

fn expect_fn(s: &str, i: usize, v: Visibility) -> (r: Option<(Visibility, usize)>)
    requires
        i <= s@.len(),
    ensures
        (match r {
            Some((vr, ni)) => spec_expect_fn(s@, i as int, v@) == Some((vr@, ni as int)) && ni
                <= s@.len(),
            None => spec_expect_fn(s@, i as int, v@) is None,
        }),
{
    let n: usize = s.unicode_len();
    if i < n && ident_start_char(s.get_char(i)) {
        let e = ident_end(s, i);
        if str_eq(s.substring_char(i, e), "fn") {
            Some((v, e))
        } else {
            None
        }
    } else {
        None
    }
}

fn parse_vis_fn(s: &str, i: usize) -> (r: Option<(Visibility, usize)>)
    requires
        i <= s@.len(),
    ensures
        (match r {
            Some((vr, ni)) => spec_vis_fn(s@, i as int) == Some((vr@, ni as int)) && ni
                <= s@.len(),
            None => spec_vis_fn(s@, i as int) is None,
        }),
{
    let n: usize = s.unicode_len();
    if i < n && ident_start_char(s.get_char(i)) {
        let e = ident_end(s, i);
        let w = s.substring_char(i, e);
        if str_eq(w, "fn") {
            Some((Visibility::Private, e))
        } else if str_eq(w, "pub") {
            let k = skip_ws(s, e);
            if k < n && s.get_char(k) == '(' {
                match group_end(s, '(', ')', k + 1) {
                    None => None,
                    Some(m) => {
                        let inner = String::from_str(s.substring_char(k + 1, m));
                        let k2 = skip_ws(s, m + 1);
                        expect_fn(s, k2, Visibility::Restricted(inner))
                    },
                }
            } else {
                expect_fn(s, k, Visibility::Public)
            }
        } else {
            None
        }
    } else {
        None
    }
}

// ---------------------------------------------------------------------------
// Comma-separated lists
// ---------------------------------------------------------------------------

/// A comma-separated list of nonempty items, each taken verbatim with its
/// surrounding whitespace trimmed; commas inside delimiters do not split.
pub open spec fn spec_split_list(s: Seq<char>, i: int) -> Option<Seq<Seq<char>>>
    decreases s.len() - i,
    via spec_split_list_dec
{
    let j = spec_skip_ws(s, i);
    if j >= s.len() {
        Some(Seq::<Seq<char>>::empty())
    } else {
        match spec_seg_end(s, j, 0) {
            None => None,
            Some(m) => {
                let te = spec_rtrim(s, m);
                if te <= j {
                    None
                } else {
                    let item = s.subrange(j, te);
                    if m >= s.len() {
                        Some(seq![item])
                    } else {
                        match spec_split_list(s, m + 1) {
                            None => None,
                            Some(rest) => Some(seq![item] + rest),
                        }
                    }
                }
            },
        }
    }
}

#[via_fn]
proof fn spec_split_list_dec(s: Seq<char>, i: int) {
    let j = spec_skip_ws(s, i);
    lemma_skip_ws_bounds(s, i);
    if j <= s.len() {
        lemma_seg_end(s, j, 0);
    }
}

fn split_list(s: &str) -> (r: Option<Vec<String>>)
    ensures
        (match r {
            Some(items) => spec_split_list(s@, 0) == Some(items@.map_values(|a: String| a@)),
            None => spec_split_list(s@, 0) is None,
        }),
{
    let n: usize = s.unicode_len();
    let mut out: Vec<String> = Vec::new();
    let mut cur: usize = 0;
    loop
        invariant
            cur <= n,
            n == s@.len(),
            (match spec_split_list(s@, cur as int) {
                Some(rest) => spec_split_list(s@, 0) == Some(
                    out@.map_values(|a: String| a@) + rest,
                ),
                None => spec_split_list(s@, 0) is None,
            }),
        decreases n - cur,
    {
        let ghost prev = out@.map_values(|a: String| a@);
        let j = skip_ws(s, cur);
        if j >= n {
            proof {
                assert(prev + Seq::<Seq<char>>::empty() =~= prev);
            }
            return Some(out);
        }
        match seg_end(s, j) {
            None => {
                return None;
            },
            Some(m) => {
                let te = rtrim(s, m);
                if te <= j {
                    return None;
                }
                out.push(String::from_str(s.substring_char(j, te)));
                proof {
                    assert(out@.map_values(|a: String| a@) =~= prev + seq![
                        s@.subrange(j as int, te as int),
                    ]);
                }
                if m >= n {
                    return Some(out);
                }
                proof {
                    if let Some(rest) = spec_split_list(s@, m as int + 1) {
                        assert(prev + (seq![s@.subrange(j as int, te as int)] + rest) =~= (prev
                            + seq![s@.subrange(j as int, te as int)]) + rest);
                    }
                }
                cur = m + 1;
            },
        }
    }
}

// ---------------------------------------------------------------------------
// Parameters
// ---------------------------------------------------------------------------

/// The parameter list: empty, or `name: type` pairs separated by commas.
/// The type text runs to the next comma outside delimiters and must be
/// nonempty once trimmed.
pub open spec fn spec_parse_params(s: Seq<char>, i: int) -> Option<Seq<ParamV>>
    decreases s.len() - i,
    via spec_parse_params_dec
{
    let j = spec_skip_ws(s, i);
    if j >= s.len() {
        Some(Seq::<ParamV>::empty())
    } else if !is_ident_start_char(s[j]) {
        None
    } else {
        let e = spec_ident_end(s, j);
        let name = s.subrange(j, e);
        let k = spec_skip_ws(s, e);
        if k >= s.len() || s[k] != ':' {
            None
        } else {
            let t0 = spec_skip_ws(s, k + 1);
            match spec_seg_end(s, t0, 0) {
                None => None,
                Some(m) => {
                    let te = spec_rtrim(s, m);
                    if te <= t0 {
                        None
                    } else {
                        let p = ParamV { name, ty: s.subrange(t0, te) };
                        if m >= s.len() {
                            Some(seq![p])
                        } else {
                            match spec_parse_params(s, m + 1) {
                                None => None,
                                Some(rest) => Some(seq![p] + rest),
                            }
                        }
                    }
                },
            }
        }
    }
}

#[via_fn]
proof fn spec_parse_params_dec(s: Seq<char>, i: int) {
    let j = spec_skip_ws(s, i);
    lemma_skip_ws_bounds(s, i);
    let e = spec_ident_end(s, j);
    lemma_ident_end_bounds(s, j);
    let k = spec_skip_ws(s, e);
    lemma_skip_ws_bounds(s, e);
    let t0 = spec_skip_ws(s, k + 1);
    lemma_skip_ws_bounds(s, k + 1);
    if t0 <= s.len() {
        lemma_seg_end(s, t0, 0);
    }
}

fn parse_params_inner(s: &str) -> (r: Option<Vec<Param>>)
    ensures
        (match r {
            Some(ps) => spec_parse_params(s@, 0) == Some(ps@.map_values(|p: Param| p@)) && (forall|
                k: int,
            |
                0 <= k < ps@.len() ==> is_ident_text((#[trigger] ps@[k])@.name) && ps@[k]@.ty.len()
                    > 0),
            None => spec_parse_params(s@, 0) is None,
        }),
{
    let n: usize = s.unicode_len();
    let mut out: Vec<Param> = Vec::new();
    let mut cur: usize = 0;
    loop
        invariant
            cur <= n,
            n == s@.len(),
            forall|k: int|
                0 <= k < out@.len() ==> is_ident_text((#[trigger] out@[k])@.name)
                    && out@[k]@.ty.len() > 0,
            (match spec_parse_params(s@, cur as int) {
                Some(rest) => spec_parse_params(s@, 0) == Some(
                    out@.map_values(|p: Param| p@) + rest,
                ),
                None => spec_parse_params(s@, 0) is None,
            }),
        decreases n - cur,
    {
        let ghost prev = out@.map_values(|p: Param| p@);
        let j = skip_ws(s, cur);
        if j >= n {
            proof {
                assert(prev + Seq::<ParamV>::empty() =~= prev);
            }
            return Some(out);
        }
        if !ident_start_char(s.get_char(j)) {
            return None;
        }
        let e = ident_end(s, j);
        let name = String::from_str(s.substring_char(j, e));
        let k = skip_ws(s, e);
        if k >= n {
            return None;
        }
        if s.get_char(k) != ':' {
            return None;
        }
        let t0 = skip_ws(s, k + 1);
        match seg_end(s, t0) {
            None => {
                return None;
            },
            Some(m) => {
                let te = rtrim(s, m);
                if te <= t0 {
                    return None;
                }
                let ty = String::from_str(s.substring_char(t0, te));
                let p = Param { name, ty };
                let ghost pv = p@;
                proof {
                    lemma_ident_text(s@, j as int);
                }
                out.push(p);
                proof {
                    assert(out@.map_values(|p: Param| p@) =~= prev + seq![pv]);
                }
                if m >= n {
                    return Some(out);
                }
                proof {
                    if let Some(rest) = spec_parse_params(s@, m as int + 1) {
                        assert(prev + (seq![pv] + rest) =~= (prev + seq![pv]) + rest);
                    }
                }
                cur = m + 1;
            },
        }
    }
}

// ---------------------------------------------------------------------------
// Generics, parameters, return type and body, in place
// ---------------------------------------------------------------------------

/// The optional `<...>` generic parameter list at `k`, split into its
/// declarations, and the position after it once whitespace is skipped.
pub open spec fn spec_generics_at(s: Seq<char>, k: int) -> Option<(Seq<Seq<char>>, int)> {
    if k < s.len() && s[k] == '<' {
        match spec_group_end(s, '<', '>', k + 1, 1) {
            None => None,
            Some(m) => match spec_split_list(s.subrange(k + 1, m), 0) {
                None => None,
                Some(items) => Some((items, spec_skip_ws(s, m + 1))),
            },
        }
    } else {
        Some((Seq::<Seq<char>>::empty(), k))
    }
}

fn parse_generics_at(s: &str, k: usize) -> (r: Option<(Vec<String>, usize)>)
    requires
        k <= s@.len(),
    ensures
        (match r {
            Some((gens, ni)) => spec_generics_at(s@, k as int) == Some(
                (gens@.map_values(|a: String| a@), ni as int),
            ) && ni <= s@.len(),
            None => spec_generics_at(s@, k as int) is None,
        }),
{
    let n: usize = s.unicode_len();
    if k < n && s.get_char(k) == '<' {
        match group_end(s, '<', '>', k + 1) {
            None => None,
            Some(m) => {
                let inner = s.substring_char(k + 1, m);
                match split_list(inner) {
                    None => None,
                    Some(items) => {
                        let ni = skip_ws(s, m + 1);
                        Some((items, ni))
                    },
                }
            },
        }
    } else {
        Some((Vec::new(), k))
    }
}

/// The `(...)` parameter list at `k`, parsed, and the position after it once
/// whitespace is skipped.
pub open spec fn spec_params_at(s: Seq<char>, k: int) -> Option<(Seq<ParamV>, int)> {
    if k < s.len() && s[k] == '(' {
        match spec_group_end(s, '(', ')', k + 1, 1) {
            None => None,
            Some(m) => match spec_parse_params(s.subrange(k + 1, m), 0) {
                None => None,
                Some(ps) => Some((ps, spec_skip_ws(s, m + 1))),
            },
        }
    } else {
        None
    }
}

fn parse_params_at(s: &str, k: usize) -> (r: Option<(Vec<Param>, usize)>)
    requires
        k <= s@.len(),
    ensures
        (match r {
            Some((ps, ni)) => spec_params_at(s@, k as int) == Some(
                (ps@.map_values(|p: Param| p@), ni as int),
            ) && ni <= s@.len() && (forall|i: int|
                0 <= i < ps@.len() ==> is_ident_text((#[trigger] ps@[i])@.name) && ps@[i]@.ty.len()
                    > 0),
            None => spec_params_at(s@, k as int) is None,
        }),
{
    let n: usize = s.unicode_len();
    if k < n && s.get_char(k) == '(' {
        match group_end(s, '(', ')', k + 1) {
            None => None,
            Some(m) => {
                let inner = s.substring_char(k + 1, m);
                match parse_params_inner(inner) {
                    None => None,
                    Some(ps) => {
                        let ni = skip_ws(s, m + 1);
                        Some((ps, ni))
                    },
                }
            },
        }
    } else {
        None
    }
}

/// The optional `-> type` at `k`: the return type text, if any, and the
/// position of the `{` that opens the body.  The return type text runs to
/// that brace and must be nonempty once trimmed.
pub open spec fn spec_ret_at(s: Seq<char>, k: int) -> Option<(Option<Seq<char>>, int)> {
    if k < s.len() && s[k] == '{' {
        Some((None, k))
    } else if k + 1 < s.len() && s[k] == '-' && s[k + 1] == '>' {
        let t0 = spec_skip_ws(s, k + 2);
        match spec_find_char(s, '{', t0) {
            None => None,
            Some(b) => {
                let te = spec_rtrim(s, b);
                if te <= t0 {
                    None
                } else {
                    Some((Some(s.subrange(t0, te)), b))
                }
            },
        }
    } else {
        None
    }
}

fn parse_ret_at(s: &str, k: usize) -> (r: Option<(Option<String>, usize)>)
    requires
        k <= s@.len(),
    ensures
        (match r {
            Some((ret, b)) => spec_ret_at(s@, k as int) == Some(
                (
                    match ret {
                        Some(t) => Some(t@),
                        None => None,
                    },
                    b as int,
                ),
            ) && b <= s@.len(),
            None => spec_ret_at(s@, k as int) is None,
        }),
{
    let n: usize = s.unicode_len();
    if k < n && s.get_char(k) == '{' {
        Some((None, k))
    } else if k < n && n - k > 1 && s.get_char(k) == '-' && s.get_char(k + 1) == '>' {
        let t0 = skip_ws(s, k + 2);
        match find_char(s, '{', t0) {
            None => None,
            Some(b) => {
                let te = rtrim(s, b);
                if te <= t0 {
                    None
                } else {
                    Some((Some(String::from_str(s.substring_char(t0, te))), b))
                }
            },
        }
    } else {
        None
    }
}

/// The `{...}` body opening at `b`: its inner text, provided its braces
/// balance and nothing but whitespace follows the closing one.
pub open spec fn spec_body_at(s: Seq<char>, b: int) -> Option<Seq<char>> {
    if b < s.len() && s[b] == '{' {
        match spec_group_end(s, '{', '}', b + 1, 1) {
            None => None,
            Some(m) => {
                if spec_skip_ws(s, m + 1) == s.len() {
                    Some(s.subrange(b + 1, m))
                } else {
                    None
                }
            },
        }
    } else {
        None
    }
}

fn parse_body_at(s: &str, b: usize) -> (r: Option<String>)
    requires
        b <= s@.len(),
    ensures
        (match r {
            Some(body) => spec_body_at(s@, b as int) == Some(body@),
            None => spec_body_at(s@, b as int) is None,
        }),
{
    let n: usize = s.unicode_len();
    if b < n && s.get_char(b) == '{' {
        match group_end(s, '{', '}', b + 1) {
            None => None,
            Some(m) => {
                let t = skip_ws(s, m + 1);
                if t == n {
                    Some(String::from_str(s.substring_char(b + 1, m)))
                } else {
                    None
                }
            },
        }
    } else {
        None
    }
}

// ---------------------------------------------------------------------------
// The whole extraction
// ---------------------------------------------------------------------------

/// The decomposition of a whole function-definition text, or nothing when it
/// does not have that shape.
pub open spec fn spec_extract(s: Seq<char>) -> Option<FunctionSignatureV> {
    match spec_attrs_from(s, 0) {
        None => None,
        Some((attrs, i1)) => match spec_vis_fn(s, i1) {
            None => None,
            Some((vis, i2)) => {
                let j = spec_skip_ws(s, i2);
                if j < s.len() && is_ident_start_char(s[j]) {
                    let e = spec_ident_end(s, j);
                    let name = s.subrange(j, e);
                    let k = spec_skip_ws(s, e);
                    match spec_generics_at(s, k) {
                        None => None,
                        Some((gens, k2)) => match spec_params_at(s, k2) {
                            None => None,
                            Some((ps, k3)) => match spec_ret_at(s, k3) {
                                None => None,
                                Some((ret, b)) => match spec_body_at(s, b) {
                                    None => None,
                                    Some(body) => Some(
                                        FunctionSignatureV {
                                            name,
                                            params: ps,
                                            return_type: ret,
                                            generics: gens,
                                            visibility: vis,
                                            attributes: attrs,
                                            body,
                                        },
                                    ),
                                },
                            },
                        },
                    }
                } else {
                    None
                }
            },
        },
    }
}

/// Decomposes raw function-definition text, or fails with
/// `MalformedSignature` exactly when the text does not have the accepted
/// shape.  What comes out is well formed: the function's name and every
/// parameter's name are valid identifiers, and no parameter's type is empty.
pub fn extract_signature(s: &str) -> (r: Result<FunctionSignature, TransformError>)
    ensures
        (match (r, spec_extract(s@)) {
            (Ok(sig), Some(sv)) => sig@ == sv,
            (Err(e), None) => e == TransformError::MalformedSignature,
            _ => false,
        }),
        (match r {
            Ok(sig) => is_ident_text(sig@.name) && (forall|k: int|
                0 <= k < sig@.params.len() ==> is_ident_text(
                    (#[trigger] sig@.params[k]).name,
                ) && sig@.params[k].ty.len() > 0),
            Err(_) => true,
        }),
{
    let n: usize = s.unicode_len();
    let a = parse_attrs(s, 0);
    match a {
        None => Err(TransformError::MalformedSignature),
        Some((attrs, i1)) => {
            match parse_vis_fn(s, i1) {
                None => Err(TransformError::MalformedSignature),
                Some((vis, i2)) => {
                    let j = skip_ws(s, i2);
                    if j < n && ident_start_char(s.get_char(j)) {
                        let e = ident_end(s, j);
                        let name = String::from_str(s.substring_char(j, e));
                        let k = skip_ws(s, e);
                        match parse_generics_at(s, k) {
                            None => Err(TransformError::MalformedSignature),
                            Some((gens, k2)) => {
                                match parse_params_at(s, k2) {
                                    None => Err(TransformError::MalformedSignature),
                                    Some((ps, k3)) => {
                                        match parse_ret_at(s, k3) {
                                            None => Err(TransformError::MalformedSignature),
                                            Some((ret, b)) => {
                                                match parse_body_at(s, b) {
                                                    None => Err(TransformError::MalformedSignature),
                                                    Some(body) => {
                                                        let sig = FunctionSignature {
                                                            name,
                                                            params: ps,
                                                            return_type: ret,
                                                            generics: gens,
                                                            visibility: vis,
                                                            attributes: attrs,
                                                            body,
                                                        };
                                                        proof {
                                                            lemma_ident_text(s@, j as int);
                                                        }
                                                        Ok(sig)
                                                    },
                                                }
                                            },
                                        }
                                    },
                                }
                            },
                        }
                    } else {
                        Err(TransformError::MalformedSignature)
                    }
                },
            }
        },
    }
}

} // verus!
