use flexi_func::config::default_error_type;
use flexi_func::config::parse_config_args;
use flexi_func::config::resolve_config_text;
use flexi_func::extract::extract_signature;
use flexi_func::model::ConfigValue;
use flexi_func::model::TransformError;
use flexi_func::model::Visibility;
use flexi_func::synth::result_like;
use flexi_func::synth::variant_fn_name;
use flexi_func::synth::variant_return_type;

#[test]
fn result_like_recognizes_plain_result() {
    assert!(result_like("Result<usize, E>"));
    assert!(result_like("Result"));
    assert!(result_like("  Result <u8, E>"));
}

#[test]
fn result_like_recognizes_qualified_result() {
    assert!(result_like("std::result::Result<u8, E>"));
    assert!(result_like("core::result::Result<(), E>"));
}

#[test]
fn result_like_rejects_other_types() {
    assert!(!result_like("usize"));
    assert!(!result_like("MyResult<u8>"));
    assert!(!result_like("resultish"));
    assert!(!result_like("Option<Result<u8, E>>"));
    assert!(!result_like(""));
}

#[test]
fn default_error_type_is_the_boxed_any_error() {
    assert_eq!(
        default_error_type(),
        "Box<dyn std::error::Error + Send + Sync + 'static>"
    );
}

#[test]
fn variant_name_default_appends_async_suffix() {
    let cfg = resolve_config_text("").unwrap();
    assert_eq!(variant_fn_name("compute", &cfg), "compute_async");
}

#[test]
fn variant_name_override_wins() {
    let cfg = resolve_config_text("variant_name = \"later\"").unwrap();
    assert_eq!(variant_fn_name("compute", &cfg), "later");
}

#[test]
fn variant_return_type_wraps_usize_with_default_error() {
    let cfg = resolve_config_text("").unwrap();
    assert_eq!(
        variant_return_type(&Some("usize".to_string()), &cfg),
        "Result<usize, Box<dyn std::error::Error + Send + Sync + 'static>>"
    );
}

#[test]
fn variant_return_type_wraps_unit_when_absent() {
    let cfg = resolve_config_text("error_type = \"MyError\"").unwrap();
    assert_eq!(variant_return_type(&None, &cfg), "Result<(), MyError>");
}

#[test]
fn variant_return_type_reuses_result_like() {
    let cfg = resolve_config_text("error_type = \"MyError\"").unwrap();
    assert_eq!(
        variant_return_type(&Some("Result<usize, OtherError>".to_string()), &cfg),
        "Result<usize, OtherError>"
    );
}

#[test]
fn config_args_parse_keys_and_values() {
    let args = parse_config_args("variant_name = \"v\", error_type = \"E\"").unwrap();
    assert_eq!(args.len(), 2);
    assert_eq!(args[0].key, "variant_name");
    assert!(matches!(&args[0].value, ConfigValue::StrLit(t) if t == "v"));
    assert_eq!(args[1].key, "error_type");
    assert!(matches!(&args[1].value, ConfigValue::StrLit(t) if t == "E"));
}

#[test]
fn config_args_parse_raw_values() {
    let args = parse_config_args("depth = 7").unwrap();
    assert_eq!(args.len(), 1);
    assert_eq!(args[0].key, "depth");
    assert!(matches!(&args[0].value, ConfigValue::Raw(t) if t == "7"));
}

#[test]
fn empty_config_text_gives_defaults() {
    let cfg = resolve_config_text("   ").unwrap();
    assert!(cfg.variant_name.is_none());
    assert!(cfg.error_type.is_none());
}

#[test]
fn config_without_equals_fails_to_parse() {
    let r = resolve_config_text("variant_name \"x\"");
    assert_eq!(r.unwrap_err(), TransformError::InvalidConfigValue);
}

#[test]
fn extraction_decomposes_every_component() {
    let sig = extract_signature(
        "#[inline]\n#[cold]\npub(in crate::a) fn run<T: Send, U>(job: T, tries: Vec<u8>) -> Result<U, E> { go(job) }",
    )
    .unwrap();
    assert_eq!(sig.name, "run");
    assert_eq!(sig.attributes, vec!["#[inline]".to_string(), "#[cold]".to_string()]);
    assert!(matches!(&sig.visibility, Visibility::Restricted(t) if t == "in crate::a"));
    assert_eq!(sig.generics, vec!["T: Send".to_string(), "U".to_string()]);
    assert_eq!(sig.params.len(), 2);
    assert_eq!(sig.params[0].name, "job");
    assert_eq!(sig.params[0].ty, "T");
    assert_eq!(sig.params[1].name, "tries");
    assert_eq!(sig.params[1].ty, "Vec<u8>");
    assert_eq!(sig.return_type.as_deref(), Some("Result<U, E>"));
    assert_eq!(sig.body, " go(job) ");
}

#[test]
fn extraction_accepts_empty_parts() {
    let sig = extract_signature("fn f() {}").unwrap();
    assert_eq!(sig.name, "f");
    assert!(sig.params.is_empty());
    assert!(sig.generics.is_empty());
    assert!(sig.attributes.is_empty());
    assert!(sig.return_type.is_none());
    assert!(matches!(sig.visibility, Visibility::Private));
    assert_eq!(sig.body, "");
}

#[test]
fn extraction_keeps_nested_body_braces() {
    let sig = extract_signature("fn f() { if a { b() } else { c() } }").unwrap();
    assert_eq!(sig.body, " if a { b() } else { c() } ");
}

#[test]
fn trailing_comma_in_config_is_accepted() {
    let cfg = resolve_config_text("variant_name = \"v\",").unwrap();
    assert_eq!(cfg.variant_name.as_deref(), Some("v"));
}

#[test]
fn trailing_comma_in_params_is_accepted() {
    let sig = extract_signature("fn f(x: u8,) {}").unwrap();
    assert_eq!(sig.params.len(), 1);
    assert_eq!(sig.params[0].name, "x");
    assert_eq!(sig.params[0].ty, "u8");
}

#[test]
fn extraction_rejects_unbalanced_attribute() {
    let r = extract_signature("#[inline\nfn f() {}");
    assert_eq!(r.unwrap_err(), TransformError::MalformedSignature);
}

#[test]
fn extraction_rejects_missing_parameter_list() {
    let r = extract_signature("fn f {}");
    assert_eq!(r.unwrap_err(), TransformError::MalformedSignature);
}

#[test]
fn extraction_rejects_empty_return_type() {
    let r = extract_signature("fn f() -> {}");
    assert_eq!(r.unwrap_err(), TransformError::MalformedSignature);
}
