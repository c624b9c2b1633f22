use vstd::prelude::*;

use crate::ast::{capture_wf, pattern_wf, CaptureV, EndCaptureV, PatternV, TailMode, TokenV};
use crate::lower::{
    spec_expand, spec_fixed_run, spec_lower, spec_lower_captures, spec_repeat, MatchSpecV, MatcherV,
};
use crate::matching::{spec_elem_matches, spec_elems_match, spec_match, TailBindingV};
use crate::parse::{
    spec_capture_of, spec_capture_token, spec_parse, spec_parse_mandatory, spec_parse_optional,
    ParseErrorV,
};
use crate::spec_strmatch;
use crate::suffix::{all_ascii_digits, digits_val, spec_suffix_reps};

verus! {

/// The number of sequence elements one capture claims: the element count of
/// its literal times its repetitions, or one for a named element or
/// wildcard.
pub open spec fn spec_capture_width(c: CaptureV) -> nat {
    match c {
        CaptureV::ByteString { bytes, repetitions } => bytes.len() * repetitions,
        CaptureV::ByteLiteral { repetitions, .. } => repetitions,
        CaptureV::TextLiteral { text, repetitions } => text.len() * repetitions,
        CaptureV::CharLiteral { repetitions, .. } => repetitions,
        CaptureV::NamedElement { .. } => 1,
        CaptureV::Wildcard => 1,
    }
}

/// The fixed length a capture sequence claims: the sum of its captures'
/// widths.
pub open spec fn spec_fixed_width(cs: Seq<CaptureV>) -> nat
    decreases cs.len(),
{
    if cs.len() == 0 {
        0
    } else {
        spec_fixed_width(cs.drop_last()) + spec_capture_width(cs.last())
    }
}

proof fn lemma_repeat_len(s: Seq<MatcherV>, n: nat)
    ensures
        spec_repeat(s, n).len() == n * s.len(),
    decreases n,
{
    if n == 0 {
        assert(0 * s.len() == 0) by (nonlinear_arith);
    } else {
        lemma_repeat_len(s, (n - 1) as nat);
        assert(((n - 1) as nat) * s.len() + s.len() == n * s.len()) by (nonlinear_arith)
            requires
                n >= 1,
        ;
    }
}

/// The expansion of one capture has exactly the capture's width.
pub proof fn lemma_expand_len(c: CaptureV)
    ensures
        spec_expand(c).len() == spec_capture_width(c),
{
    match c {
        CaptureV::ByteString { bytes, repetitions } => {
            lemma_repeat_len(spec_fixed_run(bytes), repetitions);
            assert(spec_fixed_run(bytes).len() == bytes.len());
            assert(repetitions * bytes.len() == bytes.len() * repetitions) by (nonlinear_arith);
        },
        CaptureV::TextLiteral { text, repetitions } => {
            lemma_repeat_len(spec_fixed_run(text), repetitions);
            assert(spec_fixed_run(text).len() == text.len());
            assert(repetitions * text.len() == text.len() * repetitions) by (nonlinear_arith);
        },
        CaptureV::ByteLiteral { value, repetitions } => {
            lemma_repeat_len(seq![MatcherV::Fixed { value }], repetitions);
            assert(seq![MatcherV::Fixed { value }].len() == 1);
            assert(repetitions * 1 == repetitions) by (nonlinear_arith);
        },
        CaptureV::CharLiteral { value, repetitions } => {
            lemma_repeat_len(seq![MatcherV::Fixed { value }], repetitions);
            assert(seq![MatcherV::Fixed { value }].len() == 1);
            assert(repetitions * 1 == repetitions) by (nonlinear_arith);
        },
        CaptureV::NamedElement { .. } => {},
        CaptureV::Wildcard => {},
    }
}

/// The lowered element matchers of a capture sequence are exactly as many
/// as the fixed length it claims.
pub proof fn lemma_lower_len(cs: Seq<CaptureV>)
    ensures
        spec_lower_captures(cs).len() == spec_fixed_width(cs),
    decreases cs.len(),
{
    if cs.len() == 0 {
    } else {
        lemma_lower_len(cs.drop_last());
        lemma_expand_len(cs.last());
    }
}

/// Round-trip length law: a pattern with no end capture lowers to exactly
/// as many element matchers as the sum over its captures of element count
/// times repetitions, and its specification matches a byte sequence exactly
/// when the sequence has that length and every fixed-position matcher
/// accepts its byte.
pub proof fn lemma_round_trip_length(p: PatternV, input: Seq<u8>)
    requires
        p.end is None,
    ensures
        spec_lower(p).elems.len() == spec_fixed_width(p.captures),
        spec_match(spec_lower(p), input) is Some <==> (input.len() == spec_fixed_width(p.captures)
            && spec_elems_match(spec_lower(p).elems, input)),
{
    lemma_lower_len(p.captures);
}

/// Repetition expansion law: a byte-string literal of `k` bytes repeated
/// `r` times expands to exactly `k * r` fixed-value element matchers, the
/// copies of the run standing end to end in source order.
pub proof fn lemma_repetition_expansion(bytes: Seq<u8>, repetitions: nat, copy: int, off: int)
    requires
        0 <= copy < repetitions,
        0 <= off < bytes.len(),
    ensures
        spec_expand((CaptureV::ByteString { bytes, repetitions })).len() == bytes.len()
            * repetitions,
        spec_expand((CaptureV::ByteString { bytes, repetitions }))[copy * bytes.len() as int + off]
            == (MatcherV::Fixed { value: bytes[off] }),
    decreases repetitions,
{
    lemma_expand_len(CaptureV::ByteString { bytes, repetitions });
    let len = bytes.len() as int;
    let run = spec_fixed_run(bytes);
    lemma_repeat_len(run, (repetitions - 1) as nat);
    if copy == repetitions - 1 {
        assert(copy * len + off - copy * len == off);
        assert(((repetitions - 1) as nat) * run.len() == copy * len);
        assert(spec_repeat(run, repetitions)[copy * len + off] == run[off]);
    } else {
        lemma_repetition_expansion(bytes, (repetitions - 1) as nat, copy, off);
        assert(copy * len + off < ((repetitions - 1) as nat) * len) by (nonlinear_arith)
            requires
                0 <= copy < repetitions - 1,
                0 <= off < len,
        ;
        assert(spec_repeat(run, repetitions)[copy * len + off] == spec_repeat(
            run,
            (repetitions - 1) as nat,
        )[copy * len + off]);
    }
}

/// Tail-capture law: a pattern ending in a named end capture matches every
/// byte sequence whose fixed-length prefix satisfies the element matchers,
/// and binds the remainder — possibly empty — to that name.
pub proof fn lemma_tail_capture(p: PatternV, input: Seq<u8>, name: Seq<u8>)
    requires
        p.end == Some(EndCaptureV::Named { name }),
        input.len() >= spec_fixed_width(p.captures),
        spec_elems_match(spec_lower(p).elems, input.take(spec_fixed_width(p.captures) as int)),
    ensures
        spec_match(spec_lower(p), input) matches Some(b) && b.tail == Some(
            TailBindingV { name, bytes: input.skip(spec_fixed_width(p.captures) as int) },
        ),
{
    lemma_lower_len(p.captures);
}

/// Empty-input law: the empty token sequence parses, under either grammar,
/// to the empty pattern — never to an error — and the specification that
/// pattern lowers to matches exactly the empty byte sequence.
pub proof fn lemma_empty_input(mode: TailMode, input: Seq<u8>)
    ensures
        spec_parse(Seq::<TokenV>::empty(), mode) == Ok::<PatternV, ParseErrorV>(
            PatternV { captures: Seq::empty(), end: None },
        ),
        spec_strmatch(Seq::<TokenV>::empty(), mode) matches Ok(m) && (spec_match(m, input)
            is Some <==> input.len() == 0),
{
}

/// Suffix validation law: a non-empty repetition suffix is accepted exactly
/// when it is the letter `x` followed by a run of decimal digits whose value
/// is a positive integer that fits the machine, and the count is then that
/// value; every other non-empty suffix is a suffix error.
pub proof fn lemma_suffix_validation(s: Seq<u8>)
    requires
        s.len() > 0,
    ensures
        spec_suffix_reps(s) is Ok <==> (s[0] == 120u8 && s.len() >= 2 && all_ascii_digits(
            s.subrange(1, s.len() as int),
        ) && 1 <= digits_val(s.subrange(1, s.len() as int)) && digits_val(
            s.subrange(1, s.len() as int),
        ) <= usize::MAX as nat),
        spec_suffix_reps(s) matches Ok(n) ==> n == digits_val(s.subrange(1, s.len() as int)),
{
}

/// Determinism law: the compiler is a pure function of its token sequence
/// and grammar choice, so any two compilations of the same token sequence
/// under the same grammar yield identical results.
pub proof fn lemma_determinism(
    tokens: Seq<TokenV>,
    mode: TailMode,
    r1: Result<MatchSpecV, ParseErrorV>,
    r2: Result<MatchSpecV, ParseErrorV>,
)
    requires
        r1 == spec_strmatch(tokens, mode),
        r2 == spec_strmatch(tokens, mode),
    ensures
        r1 == r2,
{
}

proof fn lemma_capture_of_wf(t: TokenV)
    requires
        spec_capture_token(t),
    ensures
        spec_capture_of(t) matches Ok(c) ==> capture_wf(c),
{
}

proof fn lemma_parse_optional_wf(tokens: Seq<TokenV>, i: int)
    requires
        0 <= i <= tokens.len(),
    ensures
        spec_parse_optional(tokens, i) matches Ok(p) ==> pattern_wf(p),
    decreases tokens.len() - i,
{
    if i < tokens.len() && spec_capture_token(tokens[i]) {
        lemma_capture_of_wf(tokens[i]);
        if let Ok(c) = spec_capture_of(tokens[i]) {
            lemma_parse_optional_wf(tokens, i + 1);
            if let Ok(p) = spec_parse_optional(tokens, i + 1) {
                assert(forall|k: int|
                    0 <= k < p.captures.len() ==> (seq![c] + p.captures)[k + 1]
                        == #[trigger] p.captures[k]);
            }
        }
    }
}

proof fn lemma_parse_mandatory_wf(tokens: Seq<TokenV>, i: int)
    requires
        0 <= i <= tokens.len(),
    ensures
        spec_parse_mandatory(tokens, i) matches Ok(p) ==> pattern_wf(p),
    decreases tokens.len() - i,
{
    if i < tokens.len() && !(i + 1 == tokens.len() && tokens[i] is Name) && spec_capture_token(
        tokens[i],
    ) {
        lemma_capture_of_wf(tokens[i]);
        if let Ok(c) = spec_capture_of(tokens[i]) {
            if i + 1 < tokens.len() && tokens[i + 1] is Colon {
                lemma_parse_mandatory_wf(tokens, i + 2);
                if let Ok(p) = spec_parse_mandatory(tokens, i + 2) {
                    assert(forall|k: int|
                        0 <= k < p.captures.len() ==> (seq![c] + p.captures)[k + 1]
                            == #[trigger] p.captures[k]);
                }
            }
        }
    }
}

/// Every pattern the parser accepts is well formed: each of its literal
/// captures repeats at least once.
pub proof fn lemma_parse_wf(tokens: Seq<TokenV>, mode: TailMode)
    ensures
        spec_parse(tokens, mode) matches Ok(p) ==> pattern_wf(p),
{
    match mode {
        TailMode::Optional => lemma_parse_optional_wf(tokens, 0),
        TailMode::Mandatory => lemma_parse_mandatory_wf(tokens, 0),
    }
}

} // verus!
