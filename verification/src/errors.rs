//! Error taxonomy and the exact messages reported for each failure.
//!
//! A selector-group string that violates the grammar is rejected with a
//! category describing the violation; an input file that cannot be read is
//! reported with its path and the underlying cause. Both reports carry the
//! offending text, and the message of each is pinned down character for
//! character.

use vstd::prelude::*;
use vstd::string::StringExecFns;

verus! {

/// The category of a selector-group string's grammar violation.
#[derive(Debug, Clone, PartialEq, Eq)]
pub enum SelectorSyntaxError {
    /// A token appeared where the grammar allows none.
    UnexpectedToken,
    /// The string ended in the middle of a selector.
    EndOfInput,
    /// An `@` rule appeared; its name is carried along.
    InvalidAtRule(String),
    /// The body of an `@` rule was invalid.
    AtRuleBodyInvalid,
    /// A qualified rule was encountered that was invalid.
    QualifiedRuleInvalid,
    /// A member of the group held no selector at all.
    EmptySelector,
    /// A combinator with nothing on one side of it.
    DanglingCombinator,
    /// A compound selector was required but not found.
    NonCompoundSelector,
    /// The selector reached a state the parser cannot accept.
    InvalidState,
    /// A pseudo-class or pseudo-element that is not supported, by name.
    UnsupportedPseudo(String),
    /// A pseudo-element written without the form the grammar asks for.
    MalformedPseudoElement,
    /// An attribute selector that violates the `[attr]` grammar.
    MalformedAttributeSelector,
    /// A namespace was expected; the offending name is carried along.
    ExpectedNamespace(String),
    /// An unexpected token after an explicit namespace prefix.
    InvalidNamespaceToken,
    /// An identifier appeared in a place the grammar does not allow.
    UnexpectedIdent(String),
    /// A class selector (`.`) without an identifier after it.
    ClassNeedsIdent,
}

/// The message reported for each syntax-error category.
pub open spec fn syntax_error_message(k: SelectorSyntaxError) -> Seq<char> {
    match k {
        SelectorSyntaxError::UnexpectedToken => "unexpected token"@,
        SelectorSyntaxError::EndOfInput => "end of the input was encountered unexpectedly."@,
        SelectorSyntaxError::InvalidAtRule(rule) => "invalid `@` rule "@ + rule@,
        SelectorSyntaxError::AtRuleBodyInvalid => "body of an '@' rule was invalid"@,
        SelectorSyntaxError::QualifiedRuleInvalid => (
            "qualified rule was encountered that was invalid"@
        ),
        SelectorSyntaxError::EmptySelector => "empty selector"@,
        SelectorSyntaxError::DanglingCombinator => "dangling combinator"@,
        SelectorSyntaxError::NonCompoundSelector => "non compound selector"@,
        SelectorSyntaxError::InvalidState => "invalid selector state"@,
        SelectorSyntaxError::UnsupportedPseudo(name) => (
            "unsupported pseudo class or element `"@ + name@ + "`"@
        ),
        SelectorSyntaxError::MalformedPseudoElement => "malformed pseudo element"@,
        SelectorSyntaxError::MalformedAttributeSelector => "malformed attribute selector"@,
        SelectorSyntaxError::ExpectedNamespace(name) => (
            "expected namespace `"@ + name@ + "`"@
        ),
        SelectorSyntaxError::InvalidNamespaceToken => "unexpected token in namespace"@,
        SelectorSyntaxError::UnexpectedIdent(name) => "unexpected identity `"@ + name@ + "`"@,
        SelectorSyntaxError::ClassNeedsIdent => "class needs identity"@,
    }
}

impl SelectorSyntaxError {
    /// The category-specific explanation, as reported to the user.
    pub fn message(&self) -> (r: String)
        ensures
            r@ == syntax_error_message(*self),
    {
        match self {
            SelectorSyntaxError::UnexpectedToken => String::from_str("unexpected token"),
            SelectorSyntaxError::EndOfInput => {
                String::from_str("end of the input was encountered unexpectedly.")
            },
            SelectorSyntaxError::InvalidAtRule(rule) => {
                let mut m = String::from_str("invalid `@` rule ");
                m.append(rule.as_str());
                m
            },
            SelectorSyntaxError::AtRuleBodyInvalid => {
                String::from_str("body of an '@' rule was invalid")
            },
            SelectorSyntaxError::QualifiedRuleInvalid => {
                String::from_str("qualified rule was encountered that was invalid")
            },
            SelectorSyntaxError::EmptySelector => String::from_str("empty selector"),
            SelectorSyntaxError::DanglingCombinator => String::from_str("dangling combinator"),
            SelectorSyntaxError::NonCompoundSelector => {
                String::from_str("non compound selector")
            },
            SelectorSyntaxError::InvalidState => String::from_str("invalid selector state"),
            SelectorSyntaxError::UnsupportedPseudo(name) => {
                let mut m = String::from_str("unsupported pseudo class or element `");
                m.append(name.as_str());
                m.append("`");
                m
            },
            SelectorSyntaxError::MalformedPseudoElement => {
                String::from_str("malformed pseudo element")
            },
            SelectorSyntaxError::MalformedAttributeSelector => {
                String::from_str("malformed attribute selector")
            },
            SelectorSyntaxError::ExpectedNamespace(name) => {
                let mut m = String::from_str("expected namespace `");
                m.append(name.as_str());
                m.append("`");
                m
            },
            SelectorSyntaxError::InvalidNamespaceToken => {
                String::from_str("unexpected token in namespace")
            },
            SelectorSyntaxError::UnexpectedIdent(name) => {
                let mut m = String::from_str("unexpected identity `");
                m.append(name.as_str());
                m.append("`");
                m
            },
            SelectorSyntaxError::ClassNeedsIdent => String::from_str("class needs identity"),
        }
    }
}

/// A rejected selector-group string: the category of the violation and the
/// offending string itself.
#[derive(Debug, Clone, PartialEq, Eq)]
pub struct SelectorParseError {
    /// The category of the grammar violation.
    pub kind: SelectorSyntaxError,
    /// The selector-group string that was rejected.
    pub selectors: String,
}

/// The full message for a rejected selector group: the offending string,
/// then the category-specific explanation.
pub open spec fn selector_error_message(selectors: Seq<char>, k: SelectorSyntaxError) -> Seq<char> {
    "could not parse selectors `"@ + selectors + "`: "@ + syntax_error_message(k)
}

impl SelectorParseError {
    /// The message reported to the user, exactly.
    pub fn message(&self) -> (r: String)
        ensures
            r@ == selector_error_message(self.selectors@, self.kind),
    {
        let mut m = String::from_str("could not parse selectors `");
        m.append(self.selectors.as_str());
        m.append("`: ");
        let tail = self.kind.message();
        m.append(tail.as_str());
        m
    }
}

/// The report always names the offending selector-group string: it stands in
/// the message as a contiguous run of characters.
pub proof fn lemma_selector_error_names_selectors(selectors: Seq<char>, k: SelectorSyntaxError)
    ensures
        exists|i: int|
            0 <= i && i + selectors.len() <= selector_error_message(selectors, k).len()
                && (#[trigger] selector_error_message(selectors, k).subrange(
                i,
                i + selectors.len(),
            )) == selectors,
{
    let prefix = "could not parse selectors `"@;
    let m = selector_error_message(selectors, k);
    let i = prefix.len() as int;
    assert(m.subrange(i, i + selectors.len()) =~= selectors);
}

/// An input file that could not be read: the path that was given and the
/// underlying cause.
#[derive(Debug, Clone, PartialEq, Eq)]
pub struct InputReadError {
    /// The path of the file that could not be read.
    pub path: String,
    /// The reason the read failed, as the caller observed it.
    pub cause: String,
}

/// The full message for an unreadable input file: the path, then the cause.
pub open spec fn read_error_message(path: Seq<char>, cause: Seq<char>) -> Seq<char> {
    "could not read file `"@ + path + "`: "@ + cause
}

impl InputReadError {
    /// The message reported to the user, exactly.
    pub fn message(&self) -> (r: String)
        ensures
            r@ == read_error_message(self.path@, self.cause@),
    {
        let mut m = String::from_str("could not read file `");
        m.append(self.path.as_str());
        m.append("`: ");
        m.append(self.cause.as_str());
        m
    }
}

/// The report always names the path that could not be read: it stands in the
/// message as a contiguous run of characters.
pub proof fn lemma_read_error_names_path(path: Seq<char>, cause: Seq<char>)
    ensures
        exists|i: int|
            0 <= i && i + path.len() <= read_error_message(path, cause).len()
                && (#[trigger] read_error_message(path, cause).subrange(i, i + path.len()))
                == path,
{
    let prefix = "could not read file `"@;
    let m = read_error_message(path, cause);
    let i = prefix.len() as int;
    assert(m.subrange(i, i + path.len()) =~= path);
}

} // verus!
