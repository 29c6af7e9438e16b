//! The Variant Synthesizer: decides the generated variant's name and return
//! type and assembles the pair of definitions.  The original signature is
//! carried over untouched; the variant shares its parameters, generics,
//! visibility, attributes and body text.

use vstd::prelude::*;
use vstd::string::StrSliceExecFns;
use vstd::string::StringExecFns;

use crate::config::spec_effective_error_type;
use crate::config::effective_error_type;
use crate::model::FunctionSignature;
use crate::model::FunctionSignatureV;
use crate::model::GeneratedPair;
use crate::model::GeneratedPairV;
use crate::model::VariantConfig;
use crate::model::VariantConfigV;
use crate::model::copy_params;
use crate::model::copy_signature;
use crate::model::copy_texts;
use crate::model::copy_visibility;
use crate::text::is_ident_start_char;
use crate::text::is_ident_text;
use crate::text::spec_ident_end;
use crate::text::spec_skip_ws;
use crate::text::lemma_ident_end_bounds;
use crate::text::ident_end;
use crate::text::ident_start_char;
use crate::text::skip_ws;
use crate::text::str_eq;

verus! {

// ---------------------------------------------------------------------------
// Result-like return types
// ---------------------------------------------------------------------------

/// Start of the last `::`-separated segment of the path that opens `t` at
/// position `i`.
pub open spec fn spec_last_seg_start(s: Seq<char>, i: int) -> int
    decreases s.len() - i,
    via spec_last_seg_start_dec
{
    let e = spec_ident_end(s, i);
    if e + 2 < s.len() && s[e] == ':' && s[e + 1] == ':' && is_ident_start_char(s[e + 2]) {
        spec_last_seg_start(s, e + 2)
    } else {
        i
    }
}

#[via_fn]
proof fn spec_last_seg_start_dec(s: Seq<char>, i: int) {
    lemma_ident_end_bounds(s, i);
}

/// A return type already expressing a success/failure duality: its head is a
/// path whose last segment is the identifier `Result`, optionally followed by
/// generic arguments.
pub open spec fn is_result_like(t: Seq<char>) -> bool {
    let j = spec_skip_ws(t, 0);
    &&& j < t.len()
    &&& is_ident_start_char(t[j])
    &&& {
        let ls = spec_last_seg_start(t, j);
        let e = spec_ident_end(t, ls);
        &&& t.subrange(ls, e) == "Result"@
        &&& {
            let k = spec_skip_ws(t, e);
            k == t.len() || t[k] == '<'
        }
    }
}

/// Whether a return type text is result-like.
pub fn result_like(t: &str) -> (b: bool)
    ensures
        b == is_result_like(t@),
{
    let n: usize = t.unicode_len();
    let j = skip_ws(t, 0);
    if j >= n {
        return false;
    }
    if !ident_start_char(t.get_char(j)) {
        return false;
    }
    let mut ls: usize = j;
    loop
        invariant
            j <= ls <= n,
            n == t@.len(),
            spec_last_seg_start(t@, j as int) == spec_last_seg_start(t@, ls as int),
        ensures
            j <= ls <= n,
            spec_last_seg_start(t@, j as int) == ls as int,
        decreases n - ls,
    {
        let e = ident_end(t, ls);
        if n - e > 2 && t.get_char(e) == ':' && t.get_char(e + 1) == ':' && ident_start_char(
            t.get_char(e + 2),
        ) {
            ls = e + 2;
        } else {
            proof {
                assert(spec_last_seg_start(t@, ls as int) == ls as int);
            }
            break;
        }
    }
    let e = ident_end(t, ls);
    if !str_eq(t.substring_char(ls, e), "Result") {
        return false;
    }
    let k = skip_ws(t, e);
    if k >= n {
        true
    } else {
        t.get_char(k) == '<'
    }
}

// ---------------------------------------------------------------------------
// The two decisions
// ---------------------------------------------------------------------------

/// The variant's name: the configured override, or the original name with the
/// `_async` suffix.
pub open spec fn spec_variant_name(name: Seq<char>, cfg: VariantConfigV) -> Seq<char> {
    match cfg.variant_name {
        Some(n) => n,
        None => name + "_async"@,
    }
}

pub fn variant_fn_name(name: &str, cfg: &VariantConfig) -> (r: String)
    ensures
        r@ == spec_variant_name(name@, cfg@),
{
    match &cfg.variant_name {
        Some(n) => n.clone(),
        None => {
            let mut s = String::from_str(name);
            s.append("_async");
            s
        },
    }
}

/// The text of `Result<T, E>` wrapping.
pub open spec fn spec_wrapped_type(base: Seq<char>, err: Seq<char>) -> Seq<char> {
    "Result<"@ + base + ", "@ + err + ">"@
}

/// The variant's return type.  A result-like original return type is reused
/// unchanged; anything else — including no return type at all, which stands
/// for the unit type — is wrapped with the effective error type.
pub open spec fn spec_variant_return_type(ret: Option<Seq<char>>, cfg: VariantConfigV) -> Seq<
    char,
> {
    match ret {
        Some(t) => if is_result_like(t) {
            t
        } else {
            spec_wrapped_type(t, spec_effective_error_type(cfg))
        },
        None => spec_wrapped_type("()"@, spec_effective_error_type(cfg)),
    }
}

pub fn variant_return_type(ret: &Option<String>, cfg: &VariantConfig) -> (r: String)
    ensures
        r@ == spec_variant_return_type(
            match *ret {
                Some(t) => Some(t@),
                None => None,
            },
            cfg@,
        ),
{
    let err = effective_error_type(cfg);
    match ret {
        Some(t) => {
            if result_like(t.as_str()) {
                t.clone()
            } else {
                let mut s = String::from_str("Result<");
                s.append(t.as_str());
                s.append(", ");
                s.append(err.as_str());
                s.append(">");
                s
            }
        },
        None => {
            let mut s = String::from_str("Result<");
            s.append("()");
            s.append(", ");
            s.append(err.as_str());
            s.append(">");
            s
        },
    }
}

// ---------------------------------------------------------------------------
// Synthesis
// ---------------------------------------------------------------------------

/// The synthesized pair: the original signature untouched, and the variant
/// differing from it in name and return type alone.
pub open spec fn spec_synthesize(sig: FunctionSignatureV, cfg: VariantConfigV) -> GeneratedPairV {
    GeneratedPairV {
        primary: sig,
        variant: FunctionSignatureV {
            name: spec_variant_name(sig.name, cfg),
            params: sig.params,
            return_type: Some(spec_variant_return_type(sig.return_type, cfg)),
            generics: sig.generics,
            visibility: sig.visibility,
            attributes: sig.attributes,
            body: sig.body,
        },
    }
}

/// Builds the generated pair from a decomposed signature and a resolved
/// configuration.  This never fails: every decision is total.
pub fn synthesize(sig: &FunctionSignature, cfg: &VariantConfig) -> (r: GeneratedPair)
    ensures
        r@ == spec_synthesize(sig@, cfg@),
        r@.primary == sig@,
        r@.variant.params == sig@.params,
        r@.variant.generics == sig@.generics,
        r@.variant.visibility == sig@.visibility,
        r@.variant.attributes == sig@.attributes,
        r@.variant.body == sig@.body,
        r@.variant.name == spec_variant_name(sig@.name, cfg@),
        r@.variant.return_type == Some(spec_variant_return_type(sig@.return_type, cfg@)),
{
    let primary = copy_signature(sig);
    let variant = FunctionSignature {
        name: variant_fn_name(sig.name.as_str(), cfg),
        params: copy_params(&sig.params),
        return_type: Some(variant_return_type(&sig.return_type, cfg)),
        generics: copy_texts(&sig.generics),
        visibility: copy_visibility(&sig.visibility),
        attributes: copy_texts(&sig.attributes),
        body: sig.body.clone(),
    };
    GeneratedPair { primary, variant }
}

// ---------------------------------------------------------------------------
// Laws
// ---------------------------------------------------------------------------

/// The transformer never mutates the original: the primary half of the pair
/// is the input signature, whole and unchanged.
pub proof fn lemma_primary_untouched(sig: FunctionSignatureV, cfg: VariantConfigV)
    ensures
        spec_synthesize(sig, cfg).primary == sig,
{
}

/// A result-like return type is reused unchanged on the variant, whatever
/// the configuration says — an `error_type` override is ignored there.
pub proof fn lemma_result_like_reused(sig: FunctionSignatureV, cfg: VariantConfigV)
    requires
        sig.return_type matches Some(t) && is_result_like(t),
    ensures
        spec_synthesize(sig, cfg).variant.return_type == sig.return_type,
{
}

/// A return type that is not result-like — or absent, standing for the unit
/// type — is wrapped as `Result<T, E>` with the effective error type.
pub proof fn lemma_non_result_like_wrapped(sig: FunctionSignatureV, cfg: VariantConfigV)
    requires
        (match sig.return_type {
            Some(t) => !is_result_like(t),
            None => true,
        }),
    ensures
        spec_synthesize(sig, cfg).variant.return_type == Some(
            spec_wrapped_type(
                match sig.return_type {
                    Some(t) => t,
                    None => "()"@,
                },
                spec_effective_error_type(cfg),
            ),
        ),
{
}

/// The naming decision: an explicit `variant_name` wins; otherwise the
/// variant is the original name with the `_async` suffix.
pub proof fn lemma_variant_naming(sig: FunctionSignatureV, cfg: VariantConfigV)
    ensures
        cfg.variant_name matches Some(n) ==> spec_synthesize(sig, cfg).variant.name == n,
        cfg.variant_name is None ==> spec_synthesize(sig, cfg).variant.name == sig.name
            + "_async"@,
{
}

/// Without an explicit override the variant's name never collides with the
/// original's: the `_async` suffix makes it strictly longer.
pub proof fn lemma_default_name_differs(sig: FunctionSignatureV, cfg: VariantConfigV)
    requires
        cfg.variant_name is None,
    ensures
        spec_synthesize(sig, cfg).variant.name != sig.name,
{
    reveal_strlit("_async");
    assert(spec_variant_name(sig.name, cfg).len() == sig.name.len() + 6);
}

/// The variant's name is a valid identifier whenever the original's name and
/// any configured override are: the `_async` suffix preserves identifierhood.
pub proof fn lemma_variant_name_well_formed(sig: FunctionSignatureV, cfg: VariantConfigV)
    requires
        is_ident_text(sig.name),
        (cfg.variant_name matches Some(n) ==> is_ident_text(n)),
    ensures
        is_ident_text(spec_synthesize(sig, cfg).variant.name),
{
    match cfg.variant_name {
        Some(n) => {
        },
        None => {
            reveal_strlit("_async");
            let full = sig.name + "_async"@;
            assert(full[0] == sig.name[0]);
            assert forall|k: int| 0 <= k < full.len() implies crate::text::is_ident_char(
                #[trigger] full[k],
            ) by {
                if k < sig.name.len() {
                    assert(full[k] == sig.name[k]);
                } else {
                    assert(full[k] == "_async"@[k - sig.name.len()]);
                }
            }
        },
    }
}

/// The variant's call signature is the original's: parameters and generics
/// carry over verbatim, in order.
pub proof fn lemma_shared_interface(sig: FunctionSignatureV, cfg: VariantConfigV)
    ensures
        spec_synthesize(sig, cfg).variant.params == sig.params,
        spec_synthesize(sig, cfg).variant.generics == sig.generics,
        spec_synthesize(sig, cfg).variant.visibility == sig.visibility,
        spec_synthesize(sig, cfg).variant.attributes == sig.attributes,
        spec_synthesize(sig, cfg).variant.body == sig.body,
{
}

} // verus!
