//! A small pattern compiler for byte sequences: a compact surface syntax of
//! literal runs, repeated literals, named single-element captures, wildcards
//! and an optional trailing "rest" capture is parsed into a [`ast::Pattern`]
//! and lowered to a [`lower::MatchSpec`], a flat structural match over a byte
//! sequence. [`matching::match_bytes`] runs such a specification and hands
//! back the named bindings. Parsing, lowering and matching are each proved
//! against a mathematical model of the grammar, and [`laws`] states the
//! properties that tie them together.

use vstd::prelude::*;

pub mod ast;
pub mod bytes;
pub mod laws;
pub mod lower;
pub mod matching;
pub mod parse;
pub mod suffix;

use crate::ast::{TailMode, Token, TokenV};
use crate::lower::{lower, spec_lower, MatchSpec, MatchSpecV};
use crate::parse::{parse, spec_parse, ParseError, ParseErrorV};

verus! {

/// What compiling a whole token sequence yields: the lowered match
/// specification of the parsed pattern, or the parse diagnostic.
pub open spec fn spec_strmatch(tokens: Seq<TokenV>, mode: TailMode) -> Result<
    MatchSpecV,
    ParseErrorV,
> {
    match spec_parse(tokens, mode) {
        Ok(p) => Ok(spec_lower(p)),
        Err(e) => Err(e),
    }
}

/// A compilation result, reduced to its mathematical model.
pub open spec fn strmatch_result_view(r: Result<MatchSpec, ParseError>) -> Result<
    MatchSpecV,
    ParseErrorV,
> {
    match r {
        Ok(m) => Ok(m@),
        Err(e) => Err(e@),
    }
}

/// Compile a pattern, given as its classified token sequence, into the
/// structural match specification it stands for: parse the tokens under the
/// chosen grammar, then lower the pattern. Either a complete specification
/// comes out, or the diagnostic for the first malformed token; an empty
/// token sequence compiles to the specification that matches only an empty
/// byte sequence.
pub fn strmatch(tokens: &Vec<Token>, mode: TailMode) -> (r: Result<MatchSpec, ParseError>)
    ensures
        strmatch_result_view(r) == spec_strmatch(tokens.deep_view(), mode),
{
    match parse(tokens, mode) {
        Ok(p) => Ok(lower(&p)),
        Err(e) => Err(e),
    }
}

} // verus!
