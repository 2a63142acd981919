use hq::{SelectorGroup, SelectorParseError, SelectorSyntaxError};

fn parse_err(selectors: &str) -> SelectorParseError {
    match SelectorGroup::parse(selectors) {
        Ok(_) => panic!("expected a selector syntax error"),
        Err(e) => e,
    }
}

#[test]
fn valid_group_compiles() {
    assert!(SelectorGroup::parse("div, .x").is_ok());
}

#[test]
fn valid_single_selectors_compile() {
    assert!(SelectorGroup::parse("div").is_ok());
    assert!(SelectorGroup::parse("#id").is_ok());
    assert!(SelectorGroup::parse(".class").is_ok());
    assert!(SelectorGroup::parse("[attr]").is_ok());
    assert!(SelectorGroup::parse("[attr=\"val\"]").is_ok());
    assert!(SelectorGroup::parse("[attr~=\"val\"]").is_ok());
    assert!(SelectorGroup::parse("div > p").is_ok());
    assert!(SelectorGroup::parse("div + p").is_ok());
    assert!(SelectorGroup::parse("div ~ p").is_ok());
    assert!(SelectorGroup::parse("ul li.a").is_ok());
}

#[test]
fn empty_string_is_empty_selector() {
    let e = parse_err("");
    assert_eq!(e.kind, SelectorSyntaxError::EmptySelector);
    assert_eq!(e.selectors, "");
}

#[test]
fn dangling_combinator_is_reported() {
    let e = parse_err("div >");
    assert_eq!(e.kind, SelectorSyntaxError::DanglingCombinator);
    assert_eq!(e.selectors, "div >");
}

#[test]
fn unknown_pseudo_class_is_reported_by_name() {
    let e = parse_err(":bogus");
    assert_eq!(
        e.kind,
        SelectorSyntaxError::UnsupportedPseudo(String::from("bogus"))
    );
}

#[test]
fn empty_group_member_is_rejected() {
    assert!(SelectorGroup::parse("div, ").is_err());
}

#[test]
fn selector_error_message_is_exact() {
    let e = parse_err("");
    assert_eq!(e.message(), "could not parse selectors ``: empty selector");
}

#[test]
fn selector_error_message_names_the_selectors() {
    let e = parse_err("div >");
    assert!(e.message().contains("div >"));
    assert_eq!(
        e.message(),
        "could not parse selectors `div >`: dangling combinator"
    );
}

#[test]
fn unsupported_pseudo_message_names_the_pseudo() {
    let e = parse_err(":bogus");
    assert_eq!(
        e.message(),
        "could not parse selectors `:bogus`: unsupported pseudo class or element `bogus`"
    );
}

#[test]
fn bad_attribute_operator_is_malformed_attribute() {
    let e = parse_err("[attr!=\"x\"]");
    assert_eq!(e.kind, SelectorSyntaxError::MalformedAttributeSelector);
}

#[test]
fn class_marker_without_ident_is_reported() {
    let e = parse_err(".>");
    assert_eq!(e.kind, SelectorSyntaxError::ClassNeedsIdent);
}

#[test]
fn string_ending_mid_pseudo_element_is_premature_end() {
    let e = parse_err("div::");
    assert_eq!(e.kind, SelectorSyntaxError::EndOfInput);
}

#[test]
fn undeclared_namespace_is_reported_by_name() {
    let e = parse_err("foo|div");
    assert_eq!(
        e.kind,
        SelectorSyntaxError::ExpectedNamespace(String::from("foo"))
    );
}
