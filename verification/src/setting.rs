//! The directive records that the parser produces: one per recognized
//! setting occurrence, in source order.

use vstd::prelude::*;
use crate::literal::StringLiteral;

verus! {

/// A source-declared shell: the command literal and its argument literals.
#[derive(Debug)]
pub struct Shell<'src> {
    pub command: StringLiteral<'src>,
    pub arguments: Vec<StringLiteral<'src>>,
}

/// One parsed configuration directive, affecting a single setting.
///
/// The set of variants is closed: folding a directive sequence into a
/// snapshot matches exhaustively, so a new setting kind is a compile-time
/// obligation everywhere it must be handled.
#[derive(Debug)]
pub enum Setting<'src> {
    AllowDuplicateRecipes(bool),
    DotenvLoad(bool),
    Export(bool),
    Fallback(bool),
    IgnoreComments(bool),
    PositionalArguments(bool),
    Shell(Shell<'src>),
    Tempdir(String),
    WindowsPowerShell(bool),
    WindowsShell(Shell<'src>),
}

} // verus!
