use vstd::prelude::*;

use crate::ast::{
    Capture, CaptureV, EndCapture, EndCaptureV, Pattern, PatternV, TailMode, Token, TokenV,
};
use crate::bytes::copy_bytes;
use crate::suffix::{process_suffix, spec_suffix_reps, SuffixError, SuffixErrorV};

verus! {

/// A malformed pattern, with the index of the token (or of the cursor, one
/// past the last token) the diagnostic is anchored to.
#[derive(Debug, Clone, PartialEq, Eq)]
pub enum ParseError {
    /// A literal carries a repetition suffix that is not `x` followed by a
    /// positive integer.
    Suffix { at: usize, err: SuffixError },
    /// A token that can neither begin a capture nor close the pattern.
    Grammar { at: usize },
    /// Content around the bracketed end capture that does not belong there.
    Trailing { at: usize },
    /// The colon-delimited grammar ended without its mandatory trailing
    /// identifier.
    MissingRemainder { at: usize },
}

/// Mathematical model of a `ParseError`.
pub enum ParseErrorV {
    Suffix { at: int, err: SuffixErrorV },
    Grammar { at: int },
    Trailing { at: int },
    MissingRemainder { at: int },
}

impl View for ParseError {
    type V = ParseErrorV;

    open spec fn view(&self) -> ParseErrorV {
        match self {
            ParseError::Suffix { at, err } => ParseErrorV::Suffix { at: *at as int, err: err@ },
            ParseError::Grammar { at } => ParseErrorV::Grammar { at: *at as int },
            ParseError::Trailing { at } => ParseErrorV::Trailing { at: *at as int },
            ParseError::MissingRemainder { at } => ParseErrorV::MissingRemainder {
                at: *at as int,
            },
        }
    }
}

impl DeepView for ParseError {
    type V = ParseErrorV;

    open spec fn deep_view(&self) -> ParseErrorV {
        self.view()
    }
}

/// Whether a token can begin a capture.
pub open spec fn spec_capture_token(t: TokenV) -> bool {
    match t {
        TokenV::ByteStrLit { .. } => true,
        TokenV::TextLit { .. } => true,
        TokenV::ByteLit { .. } => true,
        TokenV::CharLit { .. } => true,
        TokenV::Name { .. } => true,
        TokenV::Underscore => true,
        _ => false,
    }
}

/// Whether a token may stand inside the bracketed end capture.
pub open spec fn spec_end_token(t: TokenV) -> bool {
    match t {
        TokenV::Name { .. } => true,
        TokenV::Underscore => true,
        _ => false,
    }
}

/// The end capture an identifier or wildcard inside brackets stands for.
pub open spec fn spec_end_of(t: TokenV) -> EndCaptureV
    recommends
        spec_end_token(t),
{
    match t {
        TokenV::Name { name } => EndCaptureV::Named { name },
        _ => EndCaptureV::Discarded,
    }
}

/// The capture a single token stands for, once its repetition suffix is
/// understood.
pub open spec fn spec_capture_of(t: TokenV) -> Result<CaptureV, SuffixErrorV>
    recommends
        spec_capture_token(t),
{
    match t {
        TokenV::ByteStrLit { bytes, suffix } => match spec_suffix_reps(suffix) {
            Ok(n) => Ok(CaptureV::ByteString { bytes, repetitions: n }),
            Err(e) => Err(e),
        },
        TokenV::TextLit { bytes, suffix } => match spec_suffix_reps(suffix) {
            Ok(n) => Ok(CaptureV::TextLiteral { text: bytes, repetitions: n }),
            Err(e) => Err(e),
        },
        TokenV::ByteLit { value, suffix } => match spec_suffix_reps(suffix) {
            Ok(n) => Ok(CaptureV::ByteLiteral { value, repetitions: n }),
            Err(e) => Err(e),
        },
        TokenV::CharLit { value, suffix } => match spec_suffix_reps(suffix) {
            Ok(n) => Ok(CaptureV::CharLiteral { value, repetitions: n }),
            Err(e) => Err(e),
        },
        TokenV::Name { name } => Ok(CaptureV::NamedElement { name }),
        _ => Ok(CaptureV::Wildcard),
    }
}

/// Parse of the space-separated grammar from token index `i` on: captures
/// while tokens can begin one, then either nothing (no end capture) or
/// exactly one bracketed identifier or wildcard.
pub open spec fn spec_parse_optional(tokens: Seq<TokenV>, i: int) -> Result<
    PatternV,
    ParseErrorV,
>
    recommends
        0 <= i <= tokens.len(),
    decreases tokens.len() - i,
{
    if i >= tokens.len() {
        Ok(PatternV { captures: Seq::empty(), end: None })
    } else if spec_capture_token(tokens[i]) {
        match spec_capture_of(tokens[i]) {
            Err(e) => Err(ParseErrorV::Suffix { at: i, err: e }),
            Ok(c) => match spec_parse_optional(tokens, i + 1) {
                Ok(p) => Ok(PatternV { captures: seq![c] + p.captures, end: p.end }),
                Err(e) => Err(e),
            },
        }
    } else if tokens[i] is OpenBracket {
        if i + 1 >= tokens.len() || !spec_end_token(tokens[i + 1]) {
            Err(ParseErrorV::Trailing { at: i + 1 })
        } else if i + 2 >= tokens.len() || !(tokens[i + 2] is CloseBracket) {
            Err(ParseErrorV::Trailing { at: i + 2 })
        } else if i + 3 != tokens.len() {
            Err(ParseErrorV::Trailing { at: i + 3 })
        } else {
            Ok(PatternV { captures: Seq::empty(), end: Some(spec_end_of(tokens[i + 1])) })
        }
    } else {
        Err(ParseErrorV::Grammar { at: i })
    }
}

/// Parse of the colon-delimited grammar from token index `i` on: each
/// capture is colon-terminated, and the pattern must end in a bare
/// identifier naming the tail; an empty pattern is the one exception.
pub open spec fn spec_parse_mandatory(tokens: Seq<TokenV>, i: int) -> Result<
    PatternV,
    ParseErrorV,
>
    recommends
        0 <= i <= tokens.len(),
    decreases tokens.len() - i,
{
    if i >= tokens.len() {
        if i == 0 {
            Ok(PatternV { captures: Seq::empty(), end: None })
        } else {
            Err(ParseErrorV::MissingRemainder { at: i })
        }
    } else if i + 1 == tokens.len() && tokens[i] is Name {
        Ok(
            PatternV {
                captures: Seq::empty(),
                end: Some(EndCaptureV::Named { name: tokens[i]->Name_name }),
            },
        )
    } else if spec_capture_token(tokens[i]) {
        match spec_capture_of(tokens[i]) {
            Err(e) => Err(ParseErrorV::Suffix { at: i, err: e }),
            Ok(c) => {
                if i + 1 < tokens.len() && tokens[i + 1] is Colon {
                    match spec_parse_mandatory(tokens, i + 2) {
                        Ok(p) => Ok(PatternV { captures: seq![c] + p.captures, end: p.end }),
                        Err(e) => Err(e),
                    }
                } else if i + 1 >= tokens.len() {
                    Err(ParseErrorV::MissingRemainder { at: i + 1 })
                } else {
                    Err(ParseErrorV::Grammar { at: i + 1 })
                }
            },
        }
    } else {
        Err(ParseErrorV::Grammar { at: i })
    }
}

/// What parsing a whole token sequence yields under the chosen grammar.
pub open spec fn spec_parse(tokens: Seq<TokenV>, mode: TailMode) -> Result<PatternV, ParseErrorV> {
    match mode {
        TailMode::Optional => spec_parse_optional(tokens, 0),
        TailMode::Mandatory => spec_parse_mandatory(tokens, 0),
    }
}

/// A parse result, reduced to its mathematical model.
pub open spec fn parse_result_view(r: Result<Pattern, ParseError>) -> Result<
    PatternV,
    ParseErrorV,
> {
    match r {
        Ok(p) => Ok(p@),
        Err(e) => Err(e@),
    }
}

/// A capture-parsing result, reduced to its mathematical model.
pub open spec fn capture_result_view(r: Result<Capture, SuffixError>) -> Result<
    CaptureV,
    SuffixErrorV,
> {
    match r {
        Ok(c) => Ok(c@),
        Err(e) => Err(e@),
    }
}

fn is_capture_token(t: &Token) -> (r: bool)
    ensures
        r == spec_capture_token(t@),
{
    match t {
        Token::ByteStrLit { .. } => true,
        Token::TextLit { .. } => true,
        Token::ByteLit { .. } => true,
        Token::CharLit { .. } => true,
        Token::Name { .. } => true,
        Token::Underscore => true,
        _ => false,
    }
}

fn is_end_token(t: &Token) -> (r: bool)
    ensures
        r == spec_end_token(t@),
{
    match t {
        Token::Name { .. } => true,
        Token::Underscore => true,
        _ => false,
    }
}

fn end_of(t: &Token) -> (r: EndCapture)
    requires
        spec_end_token(t@),
    ensures
        r@ == spec_end_of(t@),
{
    match t {
        Token::Name { name } => EndCapture::Named { name: copy_bytes(name) },
        _ => EndCapture::Discarded,
    }
}

/// Parse one capture out of a single token, validating its repetition
/// suffix.
fn parse_capture(t: &Token) -> (r: Result<Capture, SuffixError>)
    requires
        spec_capture_token(t@),
    ensures
        capture_result_view(r) == spec_capture_of(t@),
{
    match t {
        Token::ByteStrLit { bytes, suffix } => match process_suffix(suffix) {
            Ok(n) => Ok(Capture::ByteString { bytes: copy_bytes(bytes), repetitions: n }),
            Err(e) => Err(e),
        },
        Token::TextLit { bytes, suffix } => match process_suffix(suffix) {
            Ok(n) => Ok(Capture::TextLiteral { text: copy_bytes(bytes), repetitions: n }),
            Err(e) => Err(e),
        },
        Token::ByteLit { value, suffix } => match process_suffix(suffix) {
            Ok(n) => Ok(Capture::ByteLiteral { value: *value, repetitions: n }),
            Err(e) => Err(e),
        },
        Token::CharLit { value, suffix } => match process_suffix(suffix) {
            Ok(n) => Ok(Capture::CharLiteral { value: *value, repetitions: n }),
            Err(e) => Err(e),
        },
        Token::Name { name } => Ok(Capture::NamedElement { name: copy_bytes(name) }),
        _ => Ok(Capture::Wildcard),
    }
}

/// Combining an already-parsed prefix of captures with the parse of the
/// remaining tokens gives the parse of the whole sequence.
spec fn combine(acc: Seq<CaptureV>, rest: Result<PatternV, ParseErrorV>) -> Result<
    PatternV,
    ParseErrorV,
> {
    match rest {
        Ok(p) => Ok(PatternV { captures: acc + p.captures, end: p.end }),
        Err(e) => Err(e),
    }
}

fn parse_optional(tokens: &Vec<Token>) -> (r: Result<Pattern, ParseError>)
    ensures
        parse_result_view(r) == spec_parse_optional(tokens.deep_view(), 0),
{
    let ghost toks = tokens.deep_view();
    let mut acc: Vec<Capture> = Vec::new();
    let mut i: usize = 0;
    proof {
        if let Ok(p) = spec_parse_optional(toks, 0) {
            assert(acc.deep_view() + p.captures =~= p.captures);
        }
    }
    loop
        invariant
            i <= tokens@.len(),
            toks == tokens.deep_view(),
            spec_parse_optional(toks, 0) == combine(
                acc.deep_view(),
                spec_parse_optional(toks, i as int),
            ),
        decreases tokens@.len() - i,
    {
        if i == tokens.len() {
            return Ok(Pattern { captures: acc, end: None });
        }
        proof {
            assert(toks[i as int] == tokens@[i as int]@);
        }
        let t = &tokens[i];
        if is_capture_token(t) {
            match parse_capture(t) {
                Err(e) => {
                    return Err(ParseError::Suffix { at: i, err: e });
                },
                Ok(c) => {
                    let ghost old_acc = acc.deep_view();
                    acc.push(c);
                    proof {
                        assert(acc.deep_view() =~= old_acc + seq![c@]);
                        if let Ok(p) = spec_parse_optional(toks, i + 1) {
                            assert(old_acc + (seq![c@] + p.captures) =~= (old_acc + seq![c@])
                                + p.captures);
                        }
                    }
                    i = i + 1;
                },
            }
        } else {
            match t {
                Token::OpenBracket => {
                    if i + 1 == tokens.len() || !is_end_token(&tokens[i + 1]) {
                        proof {
                            if i + 1 < tokens@.len() {
                                assert(toks[i + 1] == tokens@[i + 1]@);
                            }
                        }
                        return Err(ParseError::Trailing { at: i + 1 });
                    }
                    proof {
                        assert(toks[i + 1] == tokens@[i + 1]@);
                    }
                    if i + 2 == tokens.len() || !matches!(&tokens[i + 2], Token::CloseBracket) {
                        proof {
                            if i + 2 < tokens@.len() {
                                assert(toks[i + 2] == tokens@[i + 2]@);
                            }
                        }
                        return Err(ParseError::Trailing { at: i + 2 });
                    }
                    proof {
                        assert(toks[i + 2] == tokens@[i + 2]@);
                    }
                    if i + 3 != tokens.len() {
                        return Err(ParseError::Trailing { at: i + 3 });
                    }
                    let end = end_of(&tokens[i + 1]);
                    proof {
                        if let Ok(p) = spec_parse_optional(toks, i as int) {
                            assert(acc.deep_view() + p.captures =~= acc.deep_view());
                        }
                    }
                    return Ok(Pattern { captures: acc, end: Some(end) });
                },
                _ => {
                    return Err(ParseError::Grammar { at: i });
                },
            }
        }
    }
}

fn parse_mandatory(tokens: &Vec<Token>) -> (r: Result<Pattern, ParseError>)
    ensures
        parse_result_view(r) == spec_parse_mandatory(tokens.deep_view(), 0),
{
    let ghost toks = tokens.deep_view();
    let mut acc: Vec<Capture> = Vec::new();
    let mut i: usize = 0;
    proof {
        if let Ok(p) = spec_parse_mandatory(toks, 0) {
            assert(acc.deep_view() + p.captures =~= p.captures);
        }
    }
    loop
        invariant
            i <= tokens@.len(),
            toks == tokens.deep_view(),
            spec_parse_mandatory(toks, 0) == combine(
                acc.deep_view(),
                spec_parse_mandatory(toks, i as int),
            ),
        decreases tokens@.len() - i,
    {
        if i == tokens.len() {
            if i == 0 {
                return Ok(Pattern { captures: acc, end: None });
            }
            return Err(ParseError::MissingRemainder { at: i });
        }
        proof {
            assert(toks[i as int] == tokens@[i as int]@);
        }
        let t = &tokens[i];
        if i + 1 == tokens.len() && matches!(t, Token::Name { .. }) {
            let end = match t {
                Token::Name { name } => EndCapture::Named { name: copy_bytes(name) },
                _ => EndCapture::Discarded,
            };
            proof {
                if let Ok(p) = spec_parse_mandatory(toks, i as int) {
                    assert(acc.deep_view() + p.captures =~= acc.deep_view());
                }
            }
            return Ok(Pattern { captures: acc, end: Some(end) });
        }
        if is_capture_token(t) {
            match parse_capture(t) {
                Err(e) => {
                    return Err(ParseError::Suffix { at: i, err: e });
                },
                Ok(c) => {
                    if i + 1 < tokens.len() && matches!(&tokens[i + 1], Token::Colon) {
                        let ghost old_acc = acc.deep_view();
                        acc.push(c);
                        proof {
                            assert(toks[i + 1] == tokens@[i + 1]@);
                            assert(acc.deep_view() =~= old_acc + seq![c@]);
                            if let Ok(p) = spec_parse_mandatory(toks, i + 2) {
                                assert(old_acc + (seq![c@] + p.captures) =~= (old_acc + seq![c@])
                                    + p.captures);
                            }
                        }
                        i = i + 2;
                    } else if i + 1 == tokens.len() {
                        return Err(ParseError::MissingRemainder { at: i + 1 });
                    } else {
                        proof {
                            assert(toks[i + 1] == tokens@[i + 1]@);
                        }
                        return Err(ParseError::Grammar { at: i + 1 });
                    }
                },
            }
        } else {
            return Err(ParseError::Grammar { at: i });
        }
    }
}

/// Parse a whole token sequence under the chosen grammar into a pattern, or
/// report the malformed token. The empty sequence is never an error: it is
/// the empty pattern.
pub fn parse(tokens: &Vec<Token>, mode: TailMode) -> (r: Result<Pattern, ParseError>)
    ensures
        parse_result_view(r) == spec_parse(tokens.deep_view(), mode),
{
    match mode {
        TailMode::Optional => parse_optional(tokens),
        TailMode::Mandatory => parse_mandatory(tokens),
    }
}

} // verus!
