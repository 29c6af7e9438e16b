//! The Configuration Resolver: parses the attribute argument list — a
//! comma-separated sequence of `key = value` pairs — and resolves it into a
//! typed [`VariantConfig`].  Exactly two keys are recognized, `variant_name`
//! and `error_type`; an unknown key is rejected rather than ignored.

use vstd::prelude::*;
use vstd::string::StrSliceExecFns;
use vstd::string::StringExecFns;

use crate::model::ConfigArg;
use crate::model::ConfigArgV;
use crate::model::ConfigValue;
use crate::model::ConfigValueV;
use crate::model::TransformError;
use crate::model::VariantConfig;
use crate::model::VariantConfigV;
use crate::text::is_ident_start_char;
use crate::text::is_ident_text;
use crate::text::is_type_text;
use crate::text::check_ident;
use crate::text::check_type_text;
use crate::text::spec_skip_ws;
use crate::text::spec_ident_end;
use crate::text::spec_find_char;
use crate::text::spec_seg_end;
use crate::text::spec_rtrim;
use crate::text::lemma_skip_ws_bounds;
use crate::text::lemma_ident_end_bounds;
use crate::text::lemma_find_char;
use crate::text::lemma_seg_end;
use crate::text::skip_ws;
use crate::text::ident_end;
use crate::text::find_char;
use crate::text::seg_end;
use crate::text::rtrim;
use crate::text::str_eq;

verus! {

// ---------------------------------------------------------------------------
// The argument-list grammar
// ---------------------------------------------------------------------------

/// The argument list starting at `i`: empty, or `key = value` followed either
/// by the end or by a comma and another list.  A value is a `"..."` string
/// literal (no escapes) or any other nonempty token run up to the next
/// comma outside delimiters.  Nothing if the text does not have that shape.
pub open spec fn spec_args_from(s: Seq<char>, i: int) -> Option<Seq<ConfigArgV>>
    decreases s.len() - i,
    via spec_args_from_dec
{
    let j = spec_skip_ws(s, i);
    if j >= s.len() {
        Some(Seq::<ConfigArgV>::empty())
    } else if !is_ident_start_char(s[j]) {
        None
    } else {
        let e = spec_ident_end(s, j);
        let key = s.subrange(j, e);
        let k = spec_skip_ws(s, e);
        if k >= s.len() || s[k] != '=' {
            None
        } else {
            let v0 = spec_skip_ws(s, k + 1);
            if v0 < s.len() && s[v0] == '"' {
                match spec_find_char(s, '"', v0 + 1) {
                    None => None,
                    Some(q) => {
                        let arg = ConfigArgV { key, value: ConfigValueV::StrLit(s.subrange(v0 + 1, q)) };
                        let c = spec_skip_ws(s, q + 1);
                        if c >= s.len() {
                            Some(seq![arg])
                        } else if s[c] == ',' {
                            match spec_args_from(s, c + 1) {
                                None => None,
                                Some(rest) => Some(seq![arg] + rest),
                            }
                        } else {
                            None
                        }
                    },
                }
            } else {
                match spec_seg_end(s, v0, 0) {
                    None => None,
                    Some(m) => {
                        let te = spec_rtrim(s, m);
                        if te <= v0 {
                            None
                        } else {
                            let arg = ConfigArgV { key, value: ConfigValueV::Raw(s.subrange(v0, te)) };
                            if m >= s.len() {
                                Some(seq![arg])
                            } else {
                                match spec_args_from(s, m + 1) {
                                    None => None,
                                    Some(rest) => Some(seq![arg] + rest),
                                }
                            }
                        }
                    },
                }
            }
        }
    }
}

#[via_fn]
proof fn spec_args_from_dec(s: Seq<char>, i: int) {
    let j = spec_skip_ws(s, i);
    lemma_skip_ws_bounds(s, i);
    let e = spec_ident_end(s, j);
    lemma_ident_end_bounds(s, j);
    let k = spec_skip_ws(s, e);
    lemma_skip_ws_bounds(s, e);
    let v0 = spec_skip_ws(s, k + 1);
    lemma_skip_ws_bounds(s, k + 1);
    if let Some(q) = spec_find_char(s, '"', v0 + 1) {
        lemma_find_char(s, '"', v0 + 1);
        lemma_skip_ws_bounds(s, q + 1);
    }
    if v0 <= s.len() {
        lemma_seg_end(s, v0, 0);
    }
}

/// The whole attribute argument text, parsed.
pub open spec fn spec_parse_args(s: Seq<char>) -> Option<Seq<ConfigArgV>> {
    spec_args_from(s, 0)
}

/// Parses the attribute argument text into its `key = value` pairs.
pub fn parse_config_args(s: &str) -> (r: Option<Vec<ConfigArg>>)
    ensures
        (match r {
            Some(v) => spec_parse_args(s@) == Some(v@.map_values(|a: ConfigArg| a@)),
            None => spec_parse_args(s@) is None,
        }),
{
    let n: usize = s.unicode_len();
    let mut out: Vec<ConfigArg> = Vec::new();
    let mut cur: usize = 0;
    proof {
        if let Some(all) = spec_args_from(s@, 0) {
            assert(out@.map_values(|a: ConfigArg| a@) + all =~= all);
        }
    }
    loop
        invariant
            cur <= n,
            n == s@.len(),
            (match spec_args_from(s@, cur as int) {
                Some(rest) => spec_args_from(s@, 0) == Some(
                    out@.map_values(|a: ConfigArg| a@) + rest,
                ),
                None => spec_args_from(s@, 0) is None,
            }),
        decreases n - cur,
    {
        let ghost prev = out@.map_values(|a: ConfigArg| a@);
        let j = skip_ws(s, cur);
        if j >= n {
            proof {
                assert(prev + Seq::<ConfigArgV>::empty() =~= prev);
            }
            return Some(out);
        }
        if !crate::text::ident_start_char(s.get_char(j)) {
            return None;
        }
        let e = ident_end(s, j);
        let key = String::from_str(s.substring_char(j, e));
        let k = skip_ws(s, e);
        if k >= n {
            return None;
        }
        if s.get_char(k) != '=' {
            return None;
        }
        let v0 = skip_ws(s, k + 1);
        if v0 < n && s.get_char(v0) == '"' {
            let qo = find_char(s, '"', v0 + 1);
            match qo {
                None => {
                    return None;
                },
                Some(q) => {
                    let lit = String::from_str(s.substring_char(v0 + 1, q));
                    let arg = ConfigArg { key, value: ConfigValue::StrLit(lit) };
                    let ghost argv = arg@;
                    let cpos = skip_ws(s, q + 1);
                    if cpos >= n {
                        out.push(arg);
                        proof {
                            assert(spec_args_from(s@, cur as int) == Some(seq![argv]));
                            assert(out@.map_values(|a: ConfigArg| a@) =~= prev + seq![argv]);
                        }
                        return Some(out);
                    }
                    if s.get_char(cpos) == ',' {
                        out.push(arg);
                        proof {
                            assert(out@.map_values(|a: ConfigArg| a@) =~= prev + seq![argv]);
                            if let Some(rest) = spec_args_from(s@, cpos + 1) {
                                assert(spec_args_from(s@, cur as int) == Some(seq![argv] + rest));
                                assert(prev + (seq![argv] + rest) =~= (prev + seq![argv]) + rest);
                            }
                        }
                        cur = cpos + 1;
                    } else {
                        return None;
                    }
                },
            }
        } else {
            let mo = seg_end(s, v0);
            match mo {
                None => {
                    return None;
                },
                Some(m) => {
                    let te = rtrim(s, m);
                    if te <= v0 {
                        return None;
                    }
                    let raw = String::from_str(s.substring_char(v0, te));
                    let arg = ConfigArg { key, value: ConfigValue::Raw(raw) };
                    let ghost argv = arg@;
                    if m >= n {
                        out.push(arg);
                        proof {
                            assert(spec_args_from(s@, cur as int) == Some(seq![argv]));
                            assert(out@.map_values(|a: ConfigArg| a@) =~= prev + seq![argv]);
                        }
                        return Some(out);
                    }
                    out.push(arg);
                    proof {
                        assert(out@.map_values(|a: ConfigArg| a@) =~= prev + seq![argv]);
                        if let Some(rest) = spec_args_from(s@, m + 1) {
                            assert(spec_args_from(s@, cur as int) == Some(seq![argv] + rest));
                            assert(prev + (seq![argv] + rest) =~= (prev + seq![argv]) + rest);
                        }
                    }
                    cur = m + 1;
                },
            }
        }
    }
}

// ---------------------------------------------------------------------------
// Resolution
// ---------------------------------------------------------------------------

/// One resolution step.  A recognized key demands a string-literal value of
/// the right shape (an identifier for `variant_name`, a type text for
/// `error_type`); the first binding of a key wins; an unknown key fails.
pub open spec fn spec_resolve_step(acc: VariantConfigV, a: ConfigArgV) -> Result<
    VariantConfigV,
    TransformError,
> {
    if a.key == "variant_name"@ {
        match a.value {
            ConfigValueV::StrLit(v) => if is_ident_text(v) {
                Ok(
                    VariantConfigV {
                        variant_name: if acc.variant_name is Some {
                            acc.variant_name
                        } else {
                            Some(v)
                        },
                        error_type: acc.error_type,
                    },
                )
            } else {
                Err(TransformError::InvalidConfigValue)
            },
            ConfigValueV::Raw(_) => Err(TransformError::InvalidConfigValue),
        }
    } else if a.key == "error_type"@ {
        match a.value {
            ConfigValueV::StrLit(v) => if is_type_text(v) {
                Ok(
                    VariantConfigV {
                        variant_name: acc.variant_name,
                        error_type: if acc.error_type is Some {
                            acc.error_type
                        } else {
                            Some(v)
                        },
                    },
                )
            } else {
                Err(TransformError::InvalidConfigValue)
            },
            ConfigValueV::Raw(_) => Err(TransformError::InvalidConfigValue),
        }
    } else {
        Err(TransformError::UnknownConfigKey)
    }
}

pub open spec fn spec_resolve_from(args: Seq<ConfigArgV>, i: int, acc: VariantConfigV) -> Result<
    VariantConfigV,
    TransformError,
>
    decreases args.len() - i,
{
    if i < 0 || i >= args.len() {
        Ok(acc)
    } else {
        match spec_resolve_step(acc, args[i]) {
            Err(e) => Err(e),
            Ok(acc2) => spec_resolve_from(args, i + 1, acc2),
        }
    }
}

/// The configuration an argument list resolves to, or the first failure.
pub open spec fn spec_resolve(args: Seq<ConfigArgV>) -> Result<VariantConfigV, TransformError> {
    spec_resolve_from(args, 0, VariantConfigV { variant_name: None, error_type: None })
}

/// Resolves parsed `key = value` arguments into a configuration, strictly:
/// the first unknown key or ill-shaped value makes it fail.
pub fn resolve_config(args: &Vec<ConfigArg>) -> (r: Result<VariantConfig, TransformError>)
    ensures
        (match r {
            Ok(c) => spec_resolve(args@.map_values(|a: ConfigArg| a@)) == Ok::<
                VariantConfigV,
                TransformError,
            >(c@),
            Err(e) => spec_resolve(args@.map_values(|a: ConfigArg| a@)) == Err::<
                VariantConfigV,
                TransformError,
            >(e),
        }),
{
    let ghost argsv = args@.map_values(|a: ConfigArg| a@);
    let mut acc = VariantConfig { variant_name: None, error_type: None };
    let mut j: usize = 0;
    while j < args.len()
        invariant
            0 <= j <= args.len(),
            argsv == args@.map_values(|a: ConfigArg| a@),
            spec_resolve(argsv) == spec_resolve_from(argsv, j as int, acc@),
        decreases args.len() - j,
    {
        let a = &args[j];
        proof {
            assert(argsv[j as int] == a@);
        }
        if str_eq(a.key.as_str(), "variant_name") {
            match &a.value {
                ConfigValue::StrLit(v) => {
                    if check_ident(v.as_str()) {
                        if acc.variant_name.is_none() {
                            acc.variant_name = Some(v.clone());
                        }
                    } else {
                        return Err(TransformError::InvalidConfigValue);
                    }
                },
                ConfigValue::Raw(_) => {
                    return Err(TransformError::InvalidConfigValue);
                },
            }
        } else if str_eq(a.key.as_str(), "error_type") {
            match &a.value {
                ConfigValue::StrLit(v) => {
                    if check_type_text(v.as_str()) {
                        if acc.error_type.is_none() {
                            acc.error_type = Some(v.clone());
                        }
                    } else {
                        return Err(TransformError::InvalidConfigValue);
                    }
                },
                ConfigValue::Raw(_) => {
                    return Err(TransformError::InvalidConfigValue);
                },
            }
        } else {
            return Err(TransformError::UnknownConfigKey);
        }
        j += 1;
    }
    Ok(acc)
}

// ---------------------------------------------------------------------------
// Laws
// ---------------------------------------------------------------------------

/// A key the resolver recognizes.
pub open spec fn recognized_key(k: Seq<char>) -> bool {
    k == "variant_name"@ || k == "error_type"@
}

/// An argument the resolver accepts: a recognized key with a string-literal
/// value of the right shape — an identifier for `variant_name`, a type text
/// for `error_type`.
pub open spec fn acceptable_arg(a: ConfigArgV) -> bool {
    &&& recognized_key(a.key)
    &&& (a.value matches ConfigValueV::StrLit(v) && (a.key == "variant_name"@ ==> is_ident_text(
        v,
    )) && (a.key == "error_type"@ ==> is_type_text(v)))
}

proof fn lemma_resolve_from_ok(args: Seq<ConfigArgV>, i: int, acc: VariantConfigV)
    requires
        0 <= i,
        spec_resolve_from(args, i, acc) is Ok,
    ensures
        forall|k: int| i <= k < args.len() ==> acceptable_arg(#[trigger] args[k]),
    decreases args.len() - i,
{
    reveal_strlit("variant_name");
    reveal_strlit("error_type");
    if 0 <= i < args.len() {
        match spec_resolve_step(acc, args[i]) {
            Ok(acc2) => {
                lemma_resolve_from_ok(args, i + 1, acc2);
                assert("variant_name"@.len() == 12);
                assert("error_type"@.len() == 10);
                assert(acceptable_arg(args[i]));
            },
            Err(_) => {
                assert(false);
            },
        }
    }
}

/// Strict mode never succeeds silently: when resolution yields a
/// configuration, every key given was recognized, and every value was a
/// string literal of the right shape — an identifier for `variant_name`, a
/// type text for `error_type`.  An unknown key always makes it fail.
pub proof fn lemma_no_silent_unknown_key(args: Seq<ConfigArgV>)
    requires
        spec_resolve(args) is Ok,
    ensures
        forall|k: int| 0 <= k < args.len() ==> acceptable_arg(#[trigger] args[k]),
{
    lemma_resolve_from_ok(args, 0, VariantConfigV { variant_name: None, error_type: None });
}

// ---------------------------------------------------------------------------
// Defaults
// ---------------------------------------------------------------------------

/// The universal boxed "any error" type used when no override is given.
pub open spec fn default_error_type_text() -> Seq<char> {
    "Box<dyn std::error::Error + Send + Sync + 'static>"@
}

pub fn default_error_type() -> (r: String)
    ensures
        r@ == default_error_type_text(),
{
    String::from_str("Box<dyn std::error::Error + Send + Sync + 'static>")
}

/// The error type the variant will wrap with: the override if one was given,
/// else the default.
pub open spec fn spec_effective_error_type(cfg: VariantConfigV) -> Seq<char> {
    match cfg.error_type {
        Some(t) => t,
        None => default_error_type_text(),
    }
}

pub fn effective_error_type(cfg: &VariantConfig) -> (r: String)
    ensures
        r@ == spec_effective_error_type(cfg@),
{
    match &cfg.error_type {
        Some(t) => t.clone(),
        None => default_error_type(),
    }
}

// ---------------------------------------------------------------------------
// Parsing and resolution combined
// ---------------------------------------------------------------------------

/// What a raw attribute argument text resolves to: the configuration, or the
/// first failure; text that does not parse as an argument list at all counts
/// as an ill-shaped value.
pub open spec fn spec_resolve_text(s: Seq<char>) -> Result<VariantConfigV, TransformError> {
    match spec_parse_args(s) {
        None => Err(TransformError::InvalidConfigValue),
        Some(args) => spec_resolve(args),
    }
}

/// Parses and resolves the attribute argument text.
pub fn resolve_config_text(s: &str) -> (r: Result<VariantConfig, TransformError>)
    ensures
        (match r {
            Ok(c) => spec_resolve_text(s@) == Ok::<VariantConfigV, TransformError>(c@),
            Err(e) => spec_resolve_text(s@) == Err::<VariantConfigV, TransformError>(e),
        }),
{
    match parse_config_args(s) {
        None => Err(TransformError::InvalidConfigValue),
        Some(args) => resolve_config(&args),
    }
}

} // verus!
