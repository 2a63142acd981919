//! Compiling a CSS selector group.
//!
//! A selector group is a comma-separated list of selectors; an element
//! matches the group when it matches at least one member. Compilation is
//! delegated to the scraper crate; a rejected string is reported with the
//! category of its grammar violation and the string itself.

use vstd::prelude::*;
use vstd::string::StringExecFns;

use crate::errors::SelectorParseError;
use crate::errors::SelectorSyntaxError;
use scraper::error::SelectorErrorKind as RawGroupError;
use selectors::parser::SelectorParseErrorKind as RawParseError;

verus! {

/// Whether scraper's CSS selector grammar accepts the selector-group string.
pub uninterp spec fn selector_group_valid(s: Seq<char>) -> bool;

#[verifier::external_type_specification]
#[verifier::external_body]
pub struct ExSelector(scraper::Selector);

#[verifier::external_type_specification]
#[verifier::external_body]
pub struct ExSelectorErrorKind<'a>(scraper::error::SelectorErrorKind<'a>);

#[verifier::external_type_specification]
#[verifier::external_body]
pub struct ExSelectorParseErrorKind<'a>(selectors::parser::SelectorParseErrorKind<'a>);

/// A compiled selector group, together with the string it was compiled from.
///
/// The compiled value is always the one scraper produced for the recorded
/// source string: the only constructor pairs the two.
pub struct SelectorGroup {
    pub(crate) compiled: scraper::Selector,
    source: Ghost<Seq<char>>,
}

/// Relies on scraper::Selector::parse: it accepts exactly the selector-group
/// strings of its grammar, deterministically in the input string.
#[verifier::external_body]
fn parse_group_raw<'a>(selectors: &'a str) -> (r: Result<
    scraper::Selector,
    scraper::error::SelectorErrorKind<'a>,
>)
    ensures
        r is Ok <==> selector_group_valid(selectors@),
{
    scraper::Selector::parse(selectors)
}

/// Relies on scraper::error::SelectorErrorKind: tells its variants apart,
/// moving the at-rule name along; the selector-parser kinds are handed on.
#[verifier::external_body]
fn classify_group_error(e: RawGroupError<'_>) -> SelectorSyntaxError {
    match e {
        RawGroupError::UnexpectedToken(_) => SelectorSyntaxError::UnexpectedToken,
        RawGroupError::EndOfLine => SelectorSyntaxError::EndOfInput,
        RawGroupError::InvalidAtRule(rule) => SelectorSyntaxError::InvalidAtRule(rule),
        RawGroupError::InvalidAtRuleBody => SelectorSyntaxError::AtRuleBodyInvalid,
        RawGroupError::QualRuleInvalid => SelectorSyntaxError::QualifiedRuleInvalid,
        RawGroupError::ExpectedColonOnPseudoElement(_) => SelectorSyntaxError::MalformedPseudoElement,
        RawGroupError::ExpectedIdentityOnPseudoElement(_) => SelectorSyntaxError::MalformedPseudoElement,
        RawGroupError::UnexpectedSelectorParseError(k) => classify_parse_error(k),
    }
}

/// Relies on selectors::parser::SelectorParseErrorKind: tells its variants
/// apart, moving the offending name along where the variant carries one.
#[verifier::external_body]
fn classify_parse_error(k: RawParseError<'_>) -> SelectorSyntaxError {
    match k {
        RawParseError::EmptySelector => SelectorSyntaxError::EmptySelector,
        RawParseError::DanglingCombinator => SelectorSyntaxError::DanglingCombinator,
        RawParseError::NonCompoundSelector => SelectorSyntaxError::NonCompoundSelector,
        RawParseError::InvalidState => SelectorSyntaxError::InvalidState,
        RawParseError::UnsupportedPseudoClassOrElement(name) => SelectorSyntaxError::UnsupportedPseudo(name.to_string()),
        RawParseError::PseudoElementExpectedColon(_) | RawParseError::PseudoElementExpectedIdent(_) | RawParseError::NoIdentForPseudo(_) => SelectorSyntaxError::MalformedPseudoElement,
        RawParseError::NonPseudoElementAfterSlotted | RawParseError::InvalidPseudoElementAfterSlotted | RawParseError::InvalidPseudoElementInsideWhere => SelectorSyntaxError::MalformedPseudoElement,
        RawParseError::NoQualifiedNameInAttributeSelector(_) | RawParseError::UnexpectedTokenInAttributeSelector(_) | RawParseError::ExpectedBarInAttr(_) | RawParseError::BadValueInAttr(_) | RawParseError::InvalidQualNameInAttr(_) => SelectorSyntaxError::MalformedAttributeSelector,
        RawParseError::ExpectedNamespace(name) => SelectorSyntaxError::ExpectedNamespace(name.to_string()),
        RawParseError::ExplicitNamespaceUnexpectedToken(_) => SelectorSyntaxError::InvalidNamespaceToken,
        RawParseError::UnexpectedIdent(name) => SelectorSyntaxError::UnexpectedIdent(name.to_string()),
        RawParseError::ClassNeedsIdent(_) => SelectorSyntaxError::ClassNeedsIdent,
    }
}

impl SelectorGroup {
    /// The selector-group string this group was compiled from.
    pub closed spec fn source(&self) -> Seq<char> {
        self.source@
    }

    /// Compiles a selector-group string. Exactly the strings of the grammar
    /// are accepted; a rejected string comes back in the error, with the
    /// category of the violation.
    pub fn parse(selectors: &str) -> (r: Result<SelectorGroup, SelectorParseError>)
        ensures
            r is Ok <==> selector_group_valid(selectors@),
            r matches Ok(g) ==> g.source() == selectors@,
            r matches Err(e) ==> e.selectors@ == selectors@,
    {
        match parse_group_raw(selectors) {
            Ok(compiled) => Ok(
                SelectorGroup { compiled, source: Ghost(selectors@) },
            ),
            Err(e) => Err(
                SelectorParseError {
                    kind: classify_group_error(e),
                    selectors: String::from_str(selectors),
                },
            ),
        }
    }
}

} // verus!
