use flexi_func::ff;
use flexi_func::model::TransformError;
use flexi_func::model::Visibility;

const DEFAULT_ERR: &str = "Box<dyn std::error::Error + Send + Sync + 'static>";

#[test]
fn plain_function_gets_wrapped_variant() {
    let out = ff("", "fn example_sync(s: String) -> usize {\n    s.len()\n}").unwrap();
    let expected = format!(
        "fn example_sync(s: String) -> usize {{\n    s.len()\n}}\n\n\
         async fn example_sync_async(s: String) -> Result<usize, {DEFAULT_ERR}> \
         {{ async move {{\n    s.len()\n}}.await.map_err(|e| e.into()) }}\n"
    );
    assert_eq!(out, expected);
}

#[test]
fn no_return_type_wraps_unit() {
    let out = ff("", "fn ping() { do_ping(); }").unwrap();
    let expected = format!(
        "fn ping() {{ do_ping(); }}\n\n\
         async fn ping_async() -> Result<(), {DEFAULT_ERR}> \
         {{ async move {{ do_ping(); }}.await.map_err(|e| e.into()) }}\n"
    );
    assert_eq!(out, expected);
}

#[test]
fn custom_variant_name_overrides_suffix() {
    let out = ff(
        "variant_name = \"custom_async\"",
        "fn example_custom_name(s: String) -> usize { s.len() }",
    )
    .unwrap();
    assert!(out.contains("async fn custom_async(s: String)"));
    assert!(!out.contains("example_custom_name_async"));
}

#[test]
fn error_type_override_is_used_for_wrapping() {
    let out = ff("error_type = \"MyError\"", "fn f(x: u8) -> u8 { x }").unwrap();
    assert!(out.contains("async fn f_async(x: u8) -> Result<u8, MyError>"));
}

#[test]
fn result_like_return_type_is_reused() {
    let out = ff(
        "",
        "fn example_with_error(s: String) -> Result<usize, MyError> { Ok(s.len()) }",
    )
    .unwrap();
    assert!(out.contains("async fn example_with_error_async(s: String) -> Result<usize, MyError> {"));
    assert!(!out.contains(DEFAULT_ERR));
}

#[test]
fn error_type_override_ignored_on_result_like() {
    let out = ff(
        "error_type = \"MyError\"",
        "fn g(s: String) -> Result<usize, MyError> { Ok(s.len()) }",
    )
    .unwrap();
    assert!(out.contains("async fn g_async(s: String) -> Result<usize, MyError> {"));
    assert!(!out.contains("Result<Result<"));
}

#[test]
fn unknown_config_key_is_rejected() {
    let r = ff("wrong_key = \"x\"", "fn f() {}");
    assert_eq!(r.unwrap_err(), TransformError::UnknownConfigKey);
}

#[test]
fn non_string_config_value_is_rejected() {
    let r = ff("error_type = 7", "fn f() {}");
    assert_eq!(r.unwrap_err(), TransformError::InvalidConfigValue);
}

#[test]
fn bad_identifier_variant_name_is_rejected() {
    let r = ff("variant_name = \"123bad\"", "fn f() {}");
    assert_eq!(r.unwrap_err(), TransformError::InvalidConfigValue);
}

#[test]
fn unbalanced_error_type_is_rejected() {
    let r = ff("error_type = \"Vec<u8\"", "fn f() {}");
    assert_eq!(r.unwrap_err(), TransformError::InvalidConfigValue);
}

#[test]
fn unclosed_config_quote_is_rejected() {
    let r = ff("variant_name = \"oops", "fn f() {}");
    assert_eq!(r.unwrap_err(), TransformError::InvalidConfigValue);
}

#[test]
fn config_failure_reported_before_signature_failure() {
    let r = ff("wrong_key = \"x\"", "not a function at all");
    assert_eq!(r.unwrap_err(), TransformError::UnknownConfigKey);
}

#[test]
fn missing_name_is_malformed() {
    let r = ff("", "fn (x: u8) {}");
    assert_eq!(r.unwrap_err(), TransformError::MalformedSignature);
}

#[test]
fn unbalanced_body_is_malformed() {
    let r = ff("", "fn f() { if x { }");
    assert_eq!(r.unwrap_err(), TransformError::MalformedSignature);
}

#[test]
fn invalid_parameter_list_is_malformed() {
    let r = ff("", "fn f(x:) {}");
    assert_eq!(r.unwrap_err(), TransformError::MalformedSignature);
}

#[test]
fn not_a_function_is_malformed() {
    let r = ff("", "struct S;");
    assert_eq!(r.unwrap_err(), TransformError::MalformedSignature);
}

#[test]
fn trailing_garbage_after_body_is_malformed() {
    let r = ff("", "fn f() {} fn g() {}");
    assert_eq!(r.unwrap_err(), TransformError::MalformedSignature);
}

#[test]
fn attributes_generics_and_visibility_carry_over() {
    let out = ff(
        "",
        "#[inline]\npub fn add2<T: Into<u64>>(x: T, y: u64) -> u64 { x.into() + y }",
    )
    .unwrap();
    let expected = format!(
        "#[inline]\npub fn add2<T: Into<u64>>(x: T, y: u64) -> u64 {{ x.into() + y }}\n\n\
         #[inline]\npub async fn add2_async<T: Into<u64>>(x: T, y: u64) -> Result<u64, {DEFAULT_ERR}> \
         {{ async move {{ x.into() + y }}.await.map_err(|e| e.into()) }}\n"
    );
    assert_eq!(out, expected);
}

#[test]
fn restricted_visibility_carries_over() {
    let out = ff("", "pub(crate) fn f() -> u8 { 0 }").unwrap();
    assert!(out.starts_with("pub(crate) fn f() -> u8 { 0 }\n"));
    assert!(out.contains("pub(crate) async fn f_async()"));
}

#[test]
fn both_overrides_together() {
    let out = ff(
        "variant_name = \"deferred\", error_type = \"io::Error\"",
        "fn f(n: usize) -> usize { n + 1 }",
    )
    .unwrap();
    assert!(out.contains("async fn deferred(n: usize) -> Result<usize, io::Error>"));
}

#[test]
fn first_binding_of_a_key_wins() {
    let out = ff(
        "variant_name = \"first\", variant_name = \"second\"",
        "fn f() {}",
    )
    .unwrap();
    assert!(out.contains("async fn first()"));
    assert!(!out.contains("second"));
}

#[test]
fn primary_is_untouched_structurally() {
    let sig = flexi_func::extract::extract_signature(
        "#[cold]\npub fn orig<T>(a: T, b: Vec<u8>) -> Result<T, E> { body() }",
    )
    .unwrap();
    let cfg = flexi_func::config::resolve_config_text("").unwrap();
    let pair = flexi_func::synth::synthesize(&sig, &cfg);
    assert_eq!(pair.primary.name, sig.name);
    assert_eq!(pair.primary.params.len(), sig.params.len());
    for (p, q) in pair.primary.params.iter().zip(sig.params.iter()) {
        assert_eq!(p.name, q.name);
        assert_eq!(p.ty, q.ty);
    }
    assert_eq!(pair.primary.return_type, sig.return_type);
    assert_eq!(pair.primary.generics, sig.generics);
    assert!(matches!(pair.primary.visibility, Visibility::Public));
    assert_eq!(pair.primary.attributes, sig.attributes);
    assert_eq!(pair.primary.body, sig.body);
}

#[test]
fn variant_shares_params_and_generics() {
    let sig = flexi_func::extract::extract_signature(
        "fn orig<T, U: Clone>(a: T, b: U) -> u8 { 0 }",
    )
    .unwrap();
    let cfg = flexi_func::config::resolve_config_text("").unwrap();
    let pair = flexi_func::synth::synthesize(&sig, &cfg);
    assert_eq!(pair.variant.name, "orig_async");
    assert_eq!(pair.variant.generics, vec!["T".to_string(), "U: Clone".to_string()]);
    assert_eq!(pair.variant.params.len(), 2);
    assert_eq!(pair.variant.params[0].name, "a");
    assert_eq!(pair.variant.params[0].ty, "T");
    assert_eq!(pair.variant.params[1].name, "b");
    assert_eq!(pair.variant.params[1].ty, "U");
}
