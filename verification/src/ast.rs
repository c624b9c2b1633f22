use vstd::prelude::*;

verus! {

/// One already-classified token of the pattern surface syntax.
///
/// The compiler never lexes source text itself: a caller hands it the token
/// sequence with each literal's bytes and its raw repetition suffix (the
/// characters that followed the literal, such as `x2`) already separated out.
#[derive(Debug, Clone, PartialEq, Eq)]
pub enum Token {
    /// A byte-string literal such as `b"abc"`, with its suffix.
    ByteStrLit { bytes: Vec<u8>, suffix: Vec<u8> },
    /// A text-string literal such as `"abc"`, as its UTF-8 bytes.
    TextLit { bytes: Vec<u8>, suffix: Vec<u8> },
    /// A single byte literal such as `b'a'`.
    ByteLit { value: u8, suffix: Vec<u8> },
    /// A single character literal such as `'a'`, reduced to its byte form.
    CharLit { value: u8, suffix: Vec<u8> },
    /// An identifier.
    Name { name: Vec<u8> },
    /// The wildcard marker `_`.
    Underscore,
    /// An opening bracket `[`.
    OpenBracket,
    /// A closing bracket `]`.
    CloseBracket,
    /// The delimiter `:`.
    Colon,
}

/// Mathematical model of a `Token`.
pub enum TokenV {
    ByteStrLit { bytes: Seq<u8>, suffix: Seq<u8> },
    TextLit { bytes: Seq<u8>, suffix: Seq<u8> },
    ByteLit { value: u8, suffix: Seq<u8> },
    CharLit { value: u8, suffix: Seq<u8> },
    Name { name: Seq<u8> },
    Underscore,
    OpenBracket,
    CloseBracket,
    Colon,
}

impl View for Token {
    type V = TokenV;

    open spec fn view(&self) -> TokenV {
        match self {
            Token::ByteStrLit { bytes, suffix } => TokenV::ByteStrLit {
                bytes: bytes@,
                suffix: suffix@,
            },
            Token::TextLit { bytes, suffix } => TokenV::TextLit {
                bytes: bytes@,
                suffix: suffix@,
            },
            Token::ByteLit { value, suffix } => TokenV::ByteLit {
                value: *value,
                suffix: suffix@,
            },
            Token::CharLit { value, suffix } => TokenV::CharLit {
                value: *value,
                suffix: suffix@,
            },
            Token::Name { name } => TokenV::Name { name: name@ },
            Token::Underscore => TokenV::Underscore,
            Token::OpenBracket => TokenV::OpenBracket,
            Token::CloseBracket => TokenV::CloseBracket,
            Token::Colon => TokenV::Colon,
        }
    }
}

impl DeepView for Token {
    type V = TokenV;

    open spec fn deep_view(&self) -> TokenV {
        self.view()
    }
}

/// One parsed unit of the pattern: a literal run (with its repetition
/// count), a named single-element binder, or a wildcard.
#[derive(Debug, Clone, PartialEq, Eq)]
pub enum Capture {
    /// A literal run of bytes from a byte-string literal, repeated.
    ByteString { bytes: Vec<u8>, repetitions: usize },
    /// A single literal byte, repeated.
    ByteLiteral { value: u8, repetitions: usize },
    /// A literal run of bytes from a text literal, repeated.
    TextLiteral { text: Vec<u8>, repetitions: usize },
    /// A single byte from a character literal, repeated.
    CharLiteral { value: u8, repetitions: usize },
    /// Matches exactly one element and binds it to `name`.
    NamedElement { name: Vec<u8> },
    /// Matches exactly one element, discarding it.
    Wildcard,
}

/// Mathematical model of a `Capture`.
pub enum CaptureV {
    ByteString { bytes: Seq<u8>, repetitions: nat },
    ByteLiteral { value: u8, repetitions: nat },
    TextLiteral { text: Seq<u8>, repetitions: nat },
    CharLiteral { value: u8, repetitions: nat },
    NamedElement { name: Seq<u8> },
    Wildcard,
}

impl View for Capture {
    type V = CaptureV;

    open spec fn view(&self) -> CaptureV {
        match self {
            Capture::ByteString { bytes, repetitions } => CaptureV::ByteString {
                bytes: bytes@,
                repetitions: *repetitions as nat,
            },
            Capture::ByteLiteral { value, repetitions } => CaptureV::ByteLiteral {
                value: *value,
                repetitions: *repetitions as nat,
            },
            Capture::TextLiteral { text, repetitions } => CaptureV::TextLiteral {
                text: text@,
                repetitions: *repetitions as nat,
            },
            Capture::CharLiteral { value, repetitions } => CaptureV::CharLiteral {
                value: *value,
                repetitions: *repetitions as nat,
            },
            Capture::NamedElement { name } => CaptureV::NamedElement { name: name@ },
            Capture::Wildcard => CaptureV::Wildcard,
        }
    }
}

impl DeepView for Capture {
    type V = CaptureV;

    open spec fn deep_view(&self) -> CaptureV {
        self.view()
    }
}

/// The optional trailing element of a pattern: it consumes all remaining
/// elements of the matched sequence, either binding them or discarding them.
#[derive(Debug, Clone, PartialEq, Eq)]
pub enum EndCapture {
    /// Binds the remaining elements to a name.
    Named { name: Vec<u8> },
    /// Consumes the remaining elements without binding them.
    Discarded,
}

/// Mathematical model of an `EndCapture`.
pub enum EndCaptureV {
    Named { name: Seq<u8> },
    Discarded,
}

impl View for EndCapture {
    type V = EndCaptureV;

    open spec fn view(&self) -> EndCaptureV {
        match self {
            EndCapture::Named { name } => EndCaptureV::Named { name: name@ },
            EndCapture::Discarded => EndCaptureV::Discarded,
        }
    }
}

impl DeepView for EndCapture {
    type V = EndCaptureV;

    open spec fn deep_view(&self) -> EndCaptureV {
        self.view()
    }
}

/// The root of the parsed pattern: an ordered sequence of captures, plus at
/// most one trailing end capture.
#[derive(Debug, Clone, PartialEq, Eq)]
pub struct Pattern {
    pub captures: Vec<Capture>,
    pub end: Option<EndCapture>,
}

/// Mathematical model of a `Pattern`.
pub struct PatternV {
    pub captures: Seq<CaptureV>,
    pub end: Option<EndCaptureV>,
}

impl View for Pattern {
    type V = PatternV;

    open spec fn view(&self) -> PatternV {
        PatternV { captures: self.captures.deep_view(), end: self.end.deep_view() }
    }
}

impl DeepView for Pattern {
    type V = PatternV;

    open spec fn deep_view(&self) -> PatternV {
        self.view()
    }
}

/// Which of the two surface grammars the parser applies.
#[derive(Debug, Clone, Copy, PartialEq, Eq, Structural)]
pub enum TailMode {
    /// Space-separated captures; the tail, if any, stands bracketed at the
    /// end (`[name]` or `[_]`), and a pattern may have no tail at all.
    Optional,
    /// Colon-delimited captures; the pattern must end in a bare identifier
    /// naming the tail, unless it is empty.
    Mandatory,
}

/// A pattern is well formed when every literal capture repeats at least once.
pub open spec fn capture_wf(c: CaptureV) -> bool {
    match c {
        CaptureV::ByteString { repetitions, .. } => repetitions >= 1,
        CaptureV::ByteLiteral { repetitions, .. } => repetitions >= 1,
        CaptureV::TextLiteral { repetitions, .. } => repetitions >= 1,
        CaptureV::CharLiteral { repetitions, .. } => repetitions >= 1,
        CaptureV::NamedElement { .. } => true,
        CaptureV::Wildcard => true,
    }
}

/// Well-formedness of a whole pattern: every capture repeats at least once.
pub open spec fn pattern_wf(p: PatternV) -> bool {
    forall|i: int| 0 <= i < p.captures.len() ==> capture_wf(#[trigger] p.captures[i])
}

} // verus!
