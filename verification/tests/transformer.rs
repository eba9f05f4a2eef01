use unimpl::render_definition;
use unimpl::unimpl;
use unimpl::SignatureParts;

fn parts(attrs: &[&str], vis: &str, sig: &str, name: &str) -> SignatureParts {
    SignatureParts {
        attrs: attrs.iter().map(|a| a.to_string()).collect(),
        vis: vis.to_string(),
        sig: sig.to_string(),
        name: name.to_string(),
    }
}

#[test]
fn message_for_plain_name() {
    let out = unimpl::build_fail_message("func");
    assert_eq!(out, "not implemented: func");
}

#[test]
fn message_for_name_with_underscores_and_digits() {
    let out = unimpl::build_fail_message("do_thing_42");
    assert_eq!(out, "not implemented: do_thing_42");
}

#[test]
fn message_for_empty_name() {
    let out = unimpl::build_fail_message("");
    assert_eq!(out, "not implemented: ");
}

#[test]
fn render_minimal_declaration() {
    let p = parts(&[], "", "fn f()", "f");
    assert_eq!(
        render_definition(&p),
        "fn f() { panic!(\"not implemented: f\"); }"
    );
}

#[test]
fn render_with_visibility() {
    let p = parts(&[], "pub", "fn func(a: u32) -> u32", "func");
    assert_eq!(
        render_definition(&p),
        "pub fn func(a: u32) -> u32 { panic!(\"not implemented: func\"); }"
    );
}

#[test]
fn render_keeps_attributes_in_order() {
    let p = parts(&["#[inline]", "#[cold]"], "pub", "fn f()", "f");
    assert_eq!(
        render_definition(&p),
        "#[inline] #[cold] pub fn f() { panic!(\"not implemented: f\"); }"
    );
}

#[test]
fn public_function_with_parameter_and_return_type() {
    let out = unimpl("pub fn func(a: u32) -> u32;").unwrap().output;
    assert_eq!(
        out,
        "pub fn func (a : u32) -> u32 { panic!(\"not implemented: func\"); }"
    );
}

#[test]
fn bare_helper_without_visibility_or_parameters() {
    let out = unimpl("fn helper();").unwrap().output;
    assert_eq!(out, "fn helper () { panic!(\"not implemented: helper\"); }");
}

#[test]
fn leading_attribute_is_retained_before_the_signature() {
    let out = unimpl("#[inline] fn g(x: i32, y: i32) -> i32;").unwrap().output;
    assert_eq!(
        out,
        "# [inline] fn g (x : i32 , y : i32) -> i32 { panic!(\"not implemented: g\"); }"
    );
}

#[test]
fn two_attributes_keep_their_order() {
    let out = unimpl("#[inline] #[cold] fn f();").unwrap().output;
    assert_eq!(
        out,
        "# [inline] # [cold] fn f () { panic!(\"not implemented: f\"); }"
    );
}

#[test]
fn generic_signature_is_preserved() {
    let out = unimpl("pub fn id<T>(x: T) -> T;").unwrap().output;
    assert_eq!(
        out,
        "pub fn id < T > (x : T) -> T { panic!(\"not implemented: id\"); }"
    );
}

#[test]
fn where_clause_is_preserved() {
    let out = unimpl("fn pick<T>(x: T) -> T where T: Clone;").unwrap().output;
    assert_eq!(
        out,
        "fn pick < T > (x : T) -> T where T : Clone { panic!(\"not implemented: pick\"); }"
    );
}

#[test]
fn restricted_visibility_is_preserved() {
    let out = unimpl("pub(crate) fn quiet();").unwrap().output;
    assert_eq!(
        out,
        "pub (crate) fn quiet () { panic!(\"not implemented: quiet\"); }"
    );
}

#[test]
fn input_with_a_body_is_rejected() {
    assert!(unimpl("fn h() { 1 }").is_err());
}

#[test]
fn input_with_an_empty_body_is_rejected() {
    assert!(unimpl("fn h() {}").is_err());
}

#[test]
fn missing_terminator_is_rejected() {
    assert!(unimpl("fn h()").is_err());
}

#[test]
fn empty_input_is_rejected() {
    assert!(unimpl("").is_err());
}

#[test]
fn malformed_signature_is_rejected() {
    assert!(unimpl("fn 3(x: u32);").is_err());
}

#[test]
fn trailing_tokens_are_rejected() {
    assert!(unimpl("fn f(); fn g();").is_err());
}

#[test]
fn rejection_reports_the_parser_diagnostic() {
    let err = unimpl("fn h()").unwrap_err();
    assert!(!err.message.is_empty());
}

#[test]
fn identical_input_gives_identical_output() {
    let text = "#[inline] pub fn func(a: u32) -> u32;";
    let first = unimpl(text).unwrap();
    let second = unimpl(text).unwrap();
    assert_eq!(first.output, second.output);
}

#[test]
fn identical_invalid_input_is_rejected_both_times() {
    let text = "fn h() { 1 }";
    assert!(unimpl(text).is_err());
    assert!(unimpl(text).is_err());
}

#[test]
fn returned_output_is_the_rendering_of_returned_parts() {
    let t = unimpl("pub fn func(a: u32) -> u32;").unwrap();
    assert_eq!(t.output, render_definition(&t.parts));
    assert_eq!(t.parts.name, "func");
    assert_eq!(t.parts.vis, "pub");
}
