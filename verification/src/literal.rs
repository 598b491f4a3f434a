//! String literals as the parser hands them over: the raw source text next to
//! the cooked (escape-processed) value, together with the delimiter kind, so
//! that collaborators such as diagnostics can reconstruct the source form.
//! Shell resolution itself only ever reads the cooked value.

use vstd::prelude::*;
use vstd::string::StrSliceExecFns;

verus! {

/// The delimiter a string literal was written with, which determines how its
/// raw text is turned into the cooked value.
#[derive(Clone, Copy, Debug, PartialEq, Eq, Structural)]
pub enum StringKind {
    /// A backtick-delimited literal.
    Backtick,
    /// A double-quoted literal: escape sequences are processed.
    Cooked,
    /// A single-quoted literal: the raw text is kept verbatim.
    Raw,
}

/// The delimiter kind that a literal starting with `token_start` has, if any.
pub open spec fn kind_of_token_start(token_start: Seq<char>) -> Option<StringKind> {
    if token_start.len() != 1 {
        None
    } else if token_start[0] == '`' {
        Some(StringKind::Backtick)
    } else if token_start[0] == '"' {
        Some(StringKind::Cooked)
    } else if token_start[0] == '\'' {
        Some(StringKind::Raw)
    } else {
        None
    }
}

impl StringKind {
    /// The kind of literal that begins with the given delimiter token, or
    /// `None` if the token starts no string literal.
    pub fn from_token_start(token_start: &str) -> (r: Option<StringKind>)
        ensures
            r == kind_of_token_start(token_start@),
    {
        if token_start.unicode_len() != 1 {
            return None;
        }
        let c = token_start.get_char(0);
        if c == '`' {
            Some(StringKind::Backtick)
        } else if c == '"' {
            Some(StringKind::Cooked)
        } else if c == '\'' {
            Some(StringKind::Raw)
        } else {
            None
        }
    }
}

/// One string literal from the source: its delimiter kind, the raw text
/// between the delimiters, and the cooked value with escapes resolved.
#[derive(Debug)]
pub struct StringLiteral<'src> {
    pub kind: StringKind,
    pub raw: &'src str,
    pub cooked: String,
}

} // verus!
