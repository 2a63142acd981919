//! Select fragments of an HTML document with a CSS selector group.
//!
//! The library compiles a comma-separated CSS selector group, parses an
//! HTML fragment, and yields the serialized outer HTML of every element
//! that matches at least one selector of the group, in document order.
//! Input sourcing and error-message construction are part of the library;
//! reading files or standard input and printing belong to the caller.

mod content;
mod document;
mod errors;
mod selector;

pub use content::Input;
pub use content::get_content;
pub use content::join_lines;
pub use content::joined;
pub use document::Document;
pub use document::lemma_select_idempotent;
pub use document::debug_quoted;
pub use document::extract;
pub use document::render_matches;
pub use document::selected;
pub use errors::InputReadError;
pub use errors::SelectorParseError;
pub use errors::SelectorSyntaxError;
pub use errors::lemma_read_error_names_path;
pub use errors::lemma_selector_error_names_selectors;
pub use errors::read_error_message;
pub use errors::selector_error_message;
pub use errors::syntax_error_message;
pub use selector::SelectorGroup;
pub use selector::selector_group_valid;
