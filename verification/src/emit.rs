//! Emission: renders the generated pair back to text, primary first, then
//! the deferred variant.  The variant is emitted `async`, with the original
//! body run under `async move` and its failure converted into the target
//! error type through a generic from-error conversion.

use vstd::prelude::*;
use vstd::string::StrSliceExecFns;
use vstd::string::StringExecFns;

use crate::model::FunctionSignature;
use crate::model::FunctionSignatureV;
use crate::model::GeneratedPair;
use crate::model::GeneratedPairV;
use crate::model::Param;
use crate::model::ParamV;
use crate::model::Visibility;
use crate::model::VisibilityV;

verus! {

// ---------------------------------------------------------------------------
// The rendered text, in spec
// ---------------------------------------------------------------------------

/// The attribute lines from `i` on, each followed by a newline.
pub open spec fn spec_render_attrs(attrs: Seq<Seq<char>>, i: int) -> Seq<char>
    decreases attrs.len() - i,
{
    if i < 0 || i >= attrs.len() {
        Seq::<char>::empty()
    } else {
        attrs[i] + "\n"@ + spec_render_attrs(attrs, i + 1)
    }
}

/// The visibility qualifier, with a trailing space when present.
pub open spec fn spec_render_vis(v: VisibilityV) -> Seq<char> {
    match v {
        VisibilityV::Private => Seq::<char>::empty(),
        VisibilityV::Public => "pub "@,
        VisibilityV::Restricted(t) => "pub("@ + t + ") "@,
    }
}

/// The items from `i` on, joined by `, `.
pub open spec fn spec_render_list(items: Seq<Seq<char>>, i: int) -> Seq<char>
    decreases items.len() - i,
{
    if i < 0 || i >= items.len() {
        Seq::<char>::empty()
    } else if i == items.len() - 1 {
        items[i]
    } else {
        items[i] + ", "@ + spec_render_list(items, i + 1)
    }
}

/// The generic parameter list, or nothing when there is none.
pub open spec fn spec_render_generics(g: Seq<Seq<char>>) -> Seq<char> {
    if g.len() == 0 {
        Seq::<char>::empty()
    } else {
        "<"@ + spec_render_list(g, 0) + ">"@
    }
}

/// One parameter as `name: type`.
pub open spec fn spec_param_text(p: ParamV) -> Seq<char> {
    p.name + ": "@ + p.ty
}

/// The parameter list, joined by `, `.
pub open spec fn spec_render_params(ps: Seq<ParamV>) -> Seq<char> {
    spec_render_list(ps.map_values(|p: ParamV| spec_param_text(p)), 0)
}

/// The return type arrow, or nothing when no return type is declared.
pub open spec fn spec_render_ret(ret: Option<Seq<char>>) -> Seq<char> {
    match ret {
        Some(t) => " -> "@ + t,
        None => Seq::<char>::empty(),
    }
}

/// One whole function definition.  The primary keeps its body verbatim; the
/// deferred variant runs the same body under `async move` and converts a
/// native failure into the target error type.
pub open spec fn spec_render_def(sig: FunctionSignatureV, deferred: bool) -> Seq<char> {
    spec_render_attrs(sig.attributes, 0) + spec_render_vis(sig.visibility) + (if deferred {
        "async fn "@
    } else {
        "fn "@
    }) + sig.name + spec_render_generics(sig.generics) + "("@ + spec_render_params(sig.params)
        + ")"@ + spec_render_ret(sig.return_type) + (if deferred {
        " { async move {"@ + sig.body + "}.await.map_err(|e| e.into()) }\n"@
    } else {
        " {"@ + sig.body + "}\n"@
    })
}

/// The emitted pair: primary first, then the variant, in that textual order.
pub open spec fn spec_render_pair(p: GeneratedPairV) -> Seq<char> {
    spec_render_def(p.primary, false) + "\n"@ + spec_render_def(p.variant, true)
}

// ---------------------------------------------------------------------------
// The rendered text, executable
// ---------------------------------------------------------------------------

fn render_attrs(attrs: &Vec<String>) -> (r: String)
    ensures
        r@ == spec_render_attrs(attrs@.map_values(|a: String| a@), 0),
{
    let ghost av = attrs@.map_values(|a: String| a@);
    let mut out = String::new();
    proof {
        assert(Seq::<char>::empty() + spec_render_attrs(av, 0) =~= spec_render_attrs(av, 0));
    }
    let mut j: usize = 0;
    while j < attrs.len()
        invariant
            0 <= j <= attrs.len(),
            av == attrs@.map_values(|a: String| a@),
            out@ + spec_render_attrs(av, j as int) == spec_render_attrs(av, 0),
        decreases attrs.len() - j,
    {
        let ghost before = out@;
        out.append(attrs[j].as_str());
        out.append("\n");
        proof {
            assert(av[j as int] == attrs@[j as int]@);
            assert(spec_render_attrs(av, j as int) == av[j as int] + "\n"@ + spec_render_attrs(
                av,
                j as int + 1,
            ));
            assert(before + (av[j as int] + "\n"@ + spec_render_attrs(av, j as int + 1)) =~= (before
                + av[j as int] + "\n"@) + spec_render_attrs(av, j as int + 1));
        }
        j += 1;
    }
    proof {
        assert(out@ + spec_render_attrs(av, j as int) =~= out@);
    }
    out
}

fn render_list(items: &Vec<String>) -> (r: String)
    ensures
        r@ == spec_render_list(items@.map_values(|a: String| a@), 0),
{
    let ghost iv = items@.map_values(|a: String| a@);
    let mut out = String::new();
    proof {
        assert(Seq::<char>::empty() + spec_render_list(iv, 0) =~= spec_render_list(iv, 0));
    }
    let mut j: usize = 0;
    while j < items.len()
        invariant
            0 <= j <= items.len(),
            iv == items@.map_values(|a: String| a@),
            out@ + spec_render_list(iv, j as int) == spec_render_list(iv, 0),
        decreases items.len() - j,
    {
        let ghost before = out@;
        out.append(items[j].as_str());
        proof {
            assert(iv[j as int] == items@[j as int]@);
        }
        if j + 1 < items.len() {
            out.append(", ");
            proof {
                assert(spec_render_list(iv, j as int) == iv[j as int] + ", "@ + spec_render_list(
                    iv,
                    j as int + 1,
                ));
                assert(before + (iv[j as int] + ", "@ + spec_render_list(iv, j as int + 1)) =~= (
                before + iv[j as int] + ", "@) + spec_render_list(iv, j as int + 1));
            }
        } else {
            proof {
                assert(spec_render_list(iv, j as int) == iv[j as int]);
                assert((before + iv[j as int]) + spec_render_list(iv, j as int + 1) =~= before
                    + iv[j as int]);
            }
        }
        j += 1;
    }
    proof {
        assert(out@ + spec_render_list(iv, j as int) =~= out@);
    }
    out
}

fn render_params(ps: &Vec<Param>) -> (r: String)
    ensures
        r@ == spec_render_params(ps@.map_values(|p: Param| p@)),
{
    let mut texts: Vec<String> = Vec::new();
    let mut j: usize = 0;
    while j < ps.len()
        invariant
            0 <= j <= ps.len(),
            texts@.len() == j,
            forall|k: int| 0 <= k < j ==> #[trigger] texts@[k]@ == spec_param_text(ps@[k]@),
        decreases ps.len() - j,
    {
        let mut t = ps[j].name.clone();
        t.append(": ");
        t.append(ps[j].ty.as_str());
        texts.push(t);
        j += 1;
    }
    let r = render_list(&texts);
    proof {
        assert(texts@.map_values(|a: String| a@) =~= ps@.map_values(|p: Param| p@).map_values(
            |p: ParamV| spec_param_text(p),
        ));
    }
    r
}

fn render_vis(v: &Visibility) -> (r: String)
    ensures
        r@ == spec_render_vis(v@),
{
    match v {
        Visibility::Private => String::new(),
        Visibility::Public => String::from_str("pub "),
        Visibility::Restricted(t) => {
            let mut s = String::from_str("pub(");
            s.append(t.as_str());
            s.append(") ");
            s
        },
    }
}

/// Renders one function definition: as declared when `deferred` is false, or
/// as the async variant with the wrapped body when it is true.
pub fn render_def(sig: &FunctionSignature, deferred: bool) -> (r: String)
    ensures
        r@ == spec_render_def(sig@, deferred),
{
    let mut out = render_attrs(&sig.attributes);
    let vis = render_vis(&sig.visibility);
    out.append(vis.as_str());
    if deferred {
        out.append("async fn ");
    } else {
        out.append("fn ");
    }
    out.append(sig.name.as_str());
    if sig.generics.len() > 0 {
        out.append("<");
        let g = render_list(&sig.generics);
        out.append(g.as_str());
        out.append(">");
    }
    out.append("(");
    let p = render_params(&sig.params);
    out.append(p.as_str());
    out.append(")");
    match &sig.return_type {
        Some(t) => {
            out.append(" -> ");
            out.append(t.as_str());
        },
        None => {},
    }
    if deferred {
        out.append(" { async move {");
        out.append(sig.body.as_str());
        out.append("}.await.map_err(|e| e.into()) }\n");
    } else {
        out.append(" {");
        out.append(sig.body.as_str());
        out.append("}\n");
    }
    proof {
        assert(out@ =~= spec_render_def(sig@, deferred));
    }
    out
}

/// Renders the emitted pair of definitions: primary, then variant.
pub fn emit_pair(p: &GeneratedPair) -> (r: String)
    ensures
        r@ == spec_render_pair(p@),
{
    let mut out = render_def(&p.primary, false);
    out.append("\n");
    let v = render_def(&p.variant, true);
    out.append(v.as_str());
    out
}

} // verus!
