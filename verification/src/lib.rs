//! A source-to-source function transformer: given one function definition
//! and a small attribute configuration, it emits two definitions — the
//! original, untouched, and a deferred (async) variant that shares its
//! parameters, generics, visibility, attributes and body, but whose return
//! type wraps the original's result in a success/error container unless that
//! result already is one.
//!
//! The pipeline has three stages.  The Signature Extractor
//! ([`extract::extract_signature`]) decomposes the function text; the
//! Configuration Resolver ([`config::resolve_config_text`]) parses the
//! `variant_name` / `error_type` overrides; the Variant Synthesizer
//! ([`synth::synthesize`]) makes the naming and return-type decisions; and
//! the emitter ([`emit::emit_pair`]) renders the pair back to text.  Each
//! invocation is a pure, stateless function over its two textual inputs.

use vstd::prelude::*;

pub mod config;
pub mod emit;
pub mod extract;
pub mod model;
pub mod synth;
pub mod text;

use crate::config::resolve_config_text;
use crate::config::spec_resolve_text;
use crate::emit::emit_pair;
use crate::emit::spec_render_pair;
use crate::extract::extract_signature;
use crate::extract::spec_extract;
use crate::model::TransformError;
use crate::synth::spec_synthesize;
use crate::synth::synthesize;

verus! {

/// What the whole transformation yields: the emitted pair of definitions,
/// or the first failure — a configuration failure first, then a malformed
/// signature.
pub open spec fn spec_transform(attr: Seq<char>, item: Seq<char>) -> Result<
    Seq<char>,
    TransformError,
> {
    match spec_resolve_text(attr) {
        Err(e) => Err(e),
        Ok(cfg) => match spec_extract(item) {
            None => Err(TransformError::MalformedSignature),
            Some(sig) => Ok(spec_render_pair(spec_synthesize(sig, cfg))),
        },
    }
}

/// The transformer entry point: takes the attribute argument text and the
/// function definition text, and emits the original definition followed by
/// its deferred variant, or reports why the transformation fails.
pub fn ff(attr: &str, item: &str) -> (r: Result<String, TransformError>)
    ensures
        (match (r, spec_transform(attr@, item@)) {
            (Ok(out), Ok(t)) => out@ == t,
            (Err(e), Err(t)) => e == t,
            _ => false,
        }),
{
    let cfg = match resolve_config_text(attr) {
        Err(e) => {
            return Err(e);
        },
        Ok(c) => c,
    };
    let sig = match extract_signature(item) {
        Err(e) => {
            return Err(e);
        },
        Ok(s) => s,
    };
    let pair = synthesize(&sig, &cfg);
    Ok(emit_pair(&pair))
}

} // verus!
