//! The typed intermediate representation of the transformer: the decomposed
//! function signature, the resolved configuration, the generated pair of
//! definitions, and the error taxonomy.

use vstd::prelude::*;

verus! {

// ---------------------------------------------------------------------------
// Errors
// ---------------------------------------------------------------------------

/// Everything that can make a transformation fail.  Each failure is reported
/// at transformation time; none is deferred to execution of the emitted code.
#[derive(Clone, Copy, Debug, PartialEq, Eq, Structural)]
pub enum TransformError {
    /// The input text does not parse as a function definition: missing name,
    /// unbalanced delimiters, or an invalid parameter list.
    MalformedSignature,
    /// A recognized configuration key carries a value of the wrong shape, or
    /// the configuration argument list itself does not parse.
    InvalidConfigValue,
    /// A configuration key other than `variant_name` or `error_type` was
    /// given.  Unknown keys are rejected rather than ignored, to catch typos.
    UnknownConfigKey,
    /// The chosen error type cannot represent a failure the body emits.  The
    /// transformer performs no type checking, so it never raises this itself;
    /// the host toolchain surfaces the condition when it compiles the emitted
    /// variant, whose error conversion demands a `From` implementation.
    IncompatibleErrorConversion,
}

// ---------------------------------------------------------------------------
// Function signatures
// ---------------------------------------------------------------------------

/// The visibility qualifier of a function definition.
#[derive(Debug)]
pub enum Visibility {
    /// No qualifier.
    Private,
    /// `pub`.
    Public,
    /// `pub(...)`, holding the text between the parentheses.
    Restricted(String),
}

pub ghost enum VisibilityV {
    Private,
    Public,
    Restricted(Seq<char>),
}

impl View for Visibility {
    type V = VisibilityV;

    open spec fn view(&self) -> VisibilityV {
        match self {
            Visibility::Private => VisibilityV::Private,
            Visibility::Public => VisibilityV::Public,
            Visibility::Restricted(t) => VisibilityV::Restricted(t@),
        }
    }
}

/// One declared parameter: its name and the text of its type.
#[derive(Debug)]
pub struct Param {
    pub name: String,
    pub ty: String,
}

pub ghost struct ParamV {
    pub name: Seq<char>,
    pub ty: Seq<char>,
}

impl View for Param {
    type V = ParamV;

    open spec fn view(&self) -> ParamV {
        ParamV { name: self.name@, ty: self.ty@ }
    }
}

/// A function definition, decomposed.  The parameter order is load-bearing:
/// it becomes the call signature of both emitted functions.
#[derive(Debug)]
pub struct FunctionSignature {
    /// The function's name.
    pub name: String,
    /// The declared parameters, in declaration order.
    pub params: Vec<Param>,
    /// The text of the declared return type, if any.
    pub return_type: Option<String>,
    /// The declared generic parameters, in declaration order, as raw text.
    pub generics: Vec<String>,
    /// The visibility qualifier.
    pub visibility: Visibility,
    /// The attribute annotations, in order, each as its full `#[...]` text.
    pub attributes: Vec<String>,
    /// The text between the braces of the function body, verbatim.
    pub body: String,
}

pub ghost struct FunctionSignatureV {
    pub name: Seq<char>,
    pub params: Seq<ParamV>,
    pub return_type: Option<Seq<char>>,
    pub generics: Seq<Seq<char>>,
    pub visibility: VisibilityV,
    pub attributes: Seq<Seq<char>>,
    pub body: Seq<char>,
}

impl View for FunctionSignature {
    type V = FunctionSignatureV;

    open spec fn view(&self) -> FunctionSignatureV {
        FunctionSignatureV {
            name: self.name@,
            params: self.params@.map_values(|p: Param| p@),
            return_type: match self.return_type {
                Some(t) => Some(t@),
                None => None,
            },
            generics: self.generics@.map_values(|g: String| g@),
            visibility: self.visibility@,
            attributes: self.attributes@.map_values(|a: String| a@),
            body: self.body@,
        }
    }
}

// ---------------------------------------------------------------------------
// Configuration
// ---------------------------------------------------------------------------

/// The value of one configuration argument.
#[derive(Debug)]
pub enum ConfigValue {
    /// A string literal, holding the text between the quotes.
    StrLit(String),
    /// Any other token text, verbatim.  Recognized keys demand a string
    /// literal, so such a value makes resolution fail.
    Raw(String),
}

pub ghost enum ConfigValueV {
    StrLit(Seq<char>),
    Raw(Seq<char>),
}

impl View for ConfigValue {
    type V = ConfigValueV;

    open spec fn view(&self) -> ConfigValueV {
        match self {
            ConfigValue::StrLit(t) => ConfigValueV::StrLit(t@),
            ConfigValue::Raw(t) => ConfigValueV::Raw(t@),
        }
    }
}

/// One `key = value` configuration argument.
#[derive(Debug)]
pub struct ConfigArg {
    pub key: String,
    pub value: ConfigValue,
}

pub ghost struct ConfigArgV {
    pub key: Seq<char>,
    pub value: ConfigValueV,
}

impl View for ConfigArg {
    type V = ConfigArgV;

    open spec fn view(&self) -> ConfigArgV {
        ConfigArgV { key: self.key@, value: self.value@ }
    }
}

/// The resolved configuration: optional overrides for the variant's name and
/// for the error type used when wrapping.  At most one value is bound per
/// key; absent keys fall back to defaults at synthesis.
#[derive(Debug)]
pub struct VariantConfig {
    pub variant_name: Option<String>,
    pub error_type: Option<String>,
}

pub ghost struct VariantConfigV {
    pub variant_name: Option<Seq<char>>,
    pub error_type: Option<Seq<char>>,
}

impl View for VariantConfig {
    type V = VariantConfigV;

    open spec fn view(&self) -> VariantConfigV {
        VariantConfigV {
            variant_name: match self.variant_name {
                Some(t) => Some(t@),
                None => None,
            },
            error_type: match self.error_type {
                Some(t) => Some(t@),
                None => None,
            },
        }
    }
}

// ---------------------------------------------------------------------------
// The generated pair
// ---------------------------------------------------------------------------

/// What the synthesizer emits: the untouched original definition and the
/// derived variant.  Both share parameters, generics, visibility, attributes
/// and body text.
#[derive(Debug)]
pub struct GeneratedPair {
    pub primary: FunctionSignature,
    pub variant: FunctionSignature,
}

pub ghost struct GeneratedPairV {
    pub primary: FunctionSignatureV,
    pub variant: FunctionSignatureV,
}

impl View for GeneratedPair {
    type V = GeneratedPairV;

    open spec fn view(&self) -> GeneratedPairV {
        GeneratedPairV { primary: self.primary@, variant: self.variant@ }
    }
}

// ---------------------------------------------------------------------------
// Verified copies
// ---------------------------------------------------------------------------

/// An exact copy of a parameter.
pub fn copy_param(p: &Param) -> (r: Param)
    ensures
        r@ == p@,
{
    Param { name: p.name.clone(), ty: p.ty.clone() }
}

/// An exact copy of a parameter list.
pub fn copy_params(ps: &Vec<Param>) -> (r: Vec<Param>)
    ensures
        r@.map_values(|p: Param| p@) == ps@.map_values(|p: Param| p@),
{
    let mut out: Vec<Param> = Vec::new();
    let mut j: usize = 0;
    while j < ps.len()
        invariant
            0 <= j <= ps.len(),
            out@.len() == j,
            forall|k: int| 0 <= k < j ==> #[trigger] out@[k]@ == ps@[k]@,
        decreases ps.len() - j,
    {
        out.push(copy_param(&ps[j]));
        j += 1;
    }
    proof {
        assert(out@.map_values(|p: Param| p@) =~= ps@.map_values(|p: Param| p@));
    }
    out
}

/// An exact copy of a list of texts.
pub fn copy_texts(ts: &Vec<String>) -> (r: Vec<String>)
    ensures
        r@.map_values(|t: String| t@) == ts@.map_values(|t: String| t@),
{
    let mut out: Vec<String> = Vec::new();
    let mut j: usize = 0;
    while j < ts.len()
        invariant
            0 <= j <= ts.len(),
            out@.len() == j,
            forall|k: int| 0 <= k < j ==> #[trigger] out@[k]@ == ts@[k]@,
        decreases ts.len() - j,
    {
        out.push(ts[j].clone());
        j += 1;
    }
    proof {
        assert(out@.map_values(|t: String| t@) =~= ts@.map_values(|t: String| t@));
    }
    out
}

/// An exact copy of a visibility qualifier.
pub fn copy_visibility(v: &Visibility) -> (r: Visibility)
    ensures
        r@ == v@,
{
    match v {
        Visibility::Private => Visibility::Private,
        Visibility::Public => Visibility::Public,
        Visibility::Restricted(t) => Visibility::Restricted(t.clone()),
    }
}

/// An exact copy of an optional text.
pub fn copy_opt_text(t: &Option<String>) -> (r: Option<String>)
    ensures
        (match (t, r) {
            (Some(a), Some(b)) => a@ == b@,
            (None, None) => true,
            _ => false,
        }),
{
    match t {
        Some(s) => Some(s.clone()),
        None => None,
    }
}

/// An exact copy of a decomposed function signature.
pub fn copy_signature(s: &FunctionSignature) -> (r: FunctionSignature)
    ensures
        r@ == s@,
{
    let r = FunctionSignature {
        name: s.name.clone(),
        params: copy_params(&s.params),
        return_type: copy_opt_text(&s.return_type),
        generics: copy_texts(&s.generics),
        visibility: copy_visibility(&s.visibility),
        attributes: copy_texts(&s.attributes),
        body: s.body.clone(),
    };
    r
}

} // verus!
