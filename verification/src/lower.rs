use vstd::prelude::*;

use crate::ast::{Capture, CaptureV, EndCapture, EndCaptureV, Pattern, PatternV};
use crate::bytes::copy_bytes;

verus! {

/// One atomic position-test of the emitted match specification.
#[derive(Debug, Clone, PartialEq, Eq)]
pub enum Matcher {
    /// The element at this position must equal `value`.
    Fixed { value: u8 },
    /// Any single element, bound to `name`.
    Binding { name: Vec<u8> },
    /// Any single element, discarded.
    AnyOne,
}

/// Mathematical model of a `Matcher`.
pub enum MatcherV {
    Fixed { value: u8 },
    Binding { name: Seq<u8> },
    AnyOne,
}

impl View for Matcher {
    type V = MatcherV;

    open spec fn view(&self) -> MatcherV {
        match self {
            Matcher::Fixed { value } => MatcherV::Fixed { value: *value },
            Matcher::Binding { name } => MatcherV::Binding { name: name@ },
            Matcher::AnyOne => MatcherV::AnyOne,
        }
    }
}

impl DeepView for Matcher {
    type V = MatcherV;

    open spec fn deep_view(&self) -> MatcherV {
        self.view()
    }
}

/// The emitted structural match specification: fixed-position element
/// matchers in source order, then at most one tail matcher that consumes
/// whatever elements remain.
#[derive(Debug, Clone, PartialEq, Eq)]
pub struct MatchSpec {
    pub elems: Vec<Matcher>,
    pub tail: Option<EndCapture>,
}

/// Mathematical model of a `MatchSpec`.
pub struct MatchSpecV {
    pub elems: Seq<MatcherV>,
    pub tail: Option<EndCaptureV>,
}

impl View for MatchSpec {
    type V = MatchSpecV;

    open spec fn view(&self) -> MatchSpecV {
        MatchSpecV { elems: self.elems.deep_view(), tail: self.tail.deep_view() }
    }
}

impl DeepView for MatchSpec {
    type V = MatchSpecV;

    open spec fn deep_view(&self) -> MatchSpecV {
        self.view()
    }
}

/// One fixed-value matcher per byte of a literal run, in order.
pub open spec fn spec_fixed_run(bytes: Seq<u8>) -> Seq<MatcherV> {
    Seq::new(bytes.len(), |i: int| MatcherV::Fixed { value: bytes[i] })
}

/// `n` copies of a matcher run, end to end.
pub open spec fn spec_repeat(s: Seq<MatcherV>, n: nat) -> Seq<MatcherV>
    decreases n,
{
    if n == 0 {
        Seq::empty()
    } else {
        spec_repeat(s, (n - 1) as nat) + s
    }
}

/// The element matchers one capture expands to: a literal of `k` bytes
/// repeated `r` times becomes `k * r` fixed-value matchers in source order;
/// a named element or wildcard becomes one matcher.
pub open spec fn spec_expand(c: CaptureV) -> Seq<MatcherV> {
    match c {
        CaptureV::ByteString { bytes, repetitions } => spec_repeat(
            spec_fixed_run(bytes),
            repetitions,
        ),
        CaptureV::TextLiteral { text, repetitions } => spec_repeat(spec_fixed_run(text), repetitions),
        CaptureV::ByteLiteral { value, repetitions } => spec_repeat(
            seq![MatcherV::Fixed { value }],
            repetitions,
        ),
        CaptureV::CharLiteral { value, repetitions } => spec_repeat(
            seq![MatcherV::Fixed { value }],
            repetitions,
        ),
        CaptureV::NamedElement { name } => seq![MatcherV::Binding { name }],
        CaptureV::Wildcard => seq![MatcherV::AnyOne],
    }
}

/// The element matchers a capture sequence expands to, concatenated in
/// source order.
pub open spec fn spec_lower_captures(cs: Seq<CaptureV>) -> Seq<MatcherV>
    decreases cs.len(),
{
    if cs.len() == 0 {
        Seq::empty()
    } else {
        spec_lower_captures(cs.drop_last()) + spec_expand(cs.last())
    }
}

/// What lowering a pattern emits: its captures' expansions in order, and
/// its end capture, if any, as the tail matcher.
pub open spec fn spec_lower(p: PatternV) -> MatchSpecV {
    MatchSpecV { elems: spec_lower_captures(p.captures), tail: p.end }
}

/// Append the expansion of one capture to the matchers emitted so far.
fn push_expansion(elems: &mut Vec<Matcher>, c: &Capture)
    ensures
        final(elems).deep_view() == old(elems).deep_view() + spec_expand(c@),
{
    let ghost base = elems.deep_view();
    match c {
        Capture::ByteString { bytes, repetitions } => {
            push_run_repeated(elems, bytes, *repetitions);
        },
        Capture::TextLiteral { text, repetitions } => {
            push_run_repeated(elems, text, *repetitions);
        },
        Capture::ByteLiteral { value, repetitions } => {
            push_byte_repeated(elems, *value, *repetitions);
        },
        Capture::CharLiteral { value, repetitions } => {
            push_byte_repeated(elems, *value, *repetitions);
        },
        Capture::NamedElement { name } => {
            elems.push(Matcher::Binding { name: copy_bytes(name) });
            proof {
                assert(elems.deep_view() =~= base + spec_expand(c@));
            }
        },
        Capture::Wildcard => {
            elems.push(Matcher::AnyOne);
            proof {
                assert(elems.deep_view() =~= base + spec_expand(c@));
            }
        },
    }
}

/// Append `repetitions` copies of a byte run's fixed-value matchers.
fn push_run_repeated(elems: &mut Vec<Matcher>, bytes: &Vec<u8>, repetitions: usize)
    ensures
        final(elems).deep_view() == old(elems).deep_view() + spec_repeat(
            spec_fixed_run(bytes@),
            repetitions as nat,
        ),
{
    let ghost base = elems.deep_view();
    let ghost run = spec_fixed_run(bytes@);
    let mut r: usize = 0;
    while r < repetitions
        invariant
            r <= repetitions,
            run == spec_fixed_run(bytes@),
            elems.deep_view() == base + spec_repeat(run, r as nat),
        decreases repetitions - r,
    {
        let mut j: usize = 0;
        let ghost before = elems.deep_view();
        while j < bytes.len()
            invariant
                j <= bytes@.len(),
                run == spec_fixed_run(bytes@),
                elems.deep_view() == before + run.take(j as int),
            decreases bytes@.len() - j,
        {
            let ghost pre = elems.deep_view();
            elems.push(Matcher::Fixed { value: bytes[j] });
            proof {
                assert(elems.deep_view() =~= pre.push(MatcherV::Fixed { value: bytes@[j as int] }));
                assert(pre.push(MatcherV::Fixed { value: bytes@[j as int] }) =~= before + run.take(
                    j + 1,
                ));
            }
            j = j + 1;
        }
        r = r + 1;
        proof {
            assert(run.take(bytes@.len() as int) =~= run);
            assert(elems.deep_view() =~= base + spec_repeat(run, r as nat));
        }
    }
}

/// Append `repetitions` fixed-value matchers for one byte.
fn push_byte_repeated(elems: &mut Vec<Matcher>, value: u8, repetitions: usize)
    ensures
        final(elems).deep_view() == old(elems).deep_view() + spec_repeat(
            seq![MatcherV::Fixed { value }],
            repetitions as nat,
        ),
{
    let ghost base = elems.deep_view();
    let ghost run = seq![MatcherV::Fixed { value }];
    let mut r: usize = 0;
    while r < repetitions
        invariant
            r <= repetitions,
            run == seq![MatcherV::Fixed { value }],
            elems.deep_view() == base + spec_repeat(run, r as nat),
        decreases repetitions - r,
    {
        let ghost pre = elems.deep_view();
        elems.push(Matcher::Fixed { value });
        proof {
            assert(elems.deep_view() =~= pre.push(MatcherV::Fixed { value }));
            assert(pre.push(MatcherV::Fixed { value }) =~= base + spec_repeat(run, (r + 1) as nat));
        }
        r = r + 1;
    }
}

/// Copy of an optional end capture.
fn copy_end(end: &Option<EndCapture>) -> (r: Option<EndCapture>)
    ensures
        r.deep_view() == end.deep_view(),
{
    match end {
        Some(EndCapture::Named { name }) => Some(EndCapture::Named { name: copy_bytes(name) }),
        Some(EndCapture::Discarded) => Some(EndCapture::Discarded),
        None => None,
    }
}

/// Lower a parsed pattern to its structural match specification. Lowering
/// never fails: every element matcher appears in exactly the order the
/// corresponding source tokens appeared, and the end capture, if any,
/// becomes the tail matcher.
pub fn lower(p: &Pattern) -> (r: MatchSpec)
    ensures
        r@ == spec_lower(p@),
{
    let ghost caps = p.captures.deep_view();
    let mut elems: Vec<Matcher> = Vec::new();
    let mut ci: usize = 0;
    proof {
        assert(elems.deep_view() =~= spec_lower_captures(caps.take(0)));
    }
    while ci < p.captures.len()
        invariant
            ci <= p.captures@.len(),
            caps == p.captures.deep_view(),
            elems.deep_view() == spec_lower_captures(caps.take(ci as int)),
        decreases p.captures@.len() - ci,
    {
        proof {
            assert(caps[ci as int] == p.captures@[ci as int]@);
        }
        push_expansion(&mut elems, &p.captures[ci]);
        ci = ci + 1;
        proof {
            assert(caps.take(ci as int).drop_last() =~= caps.take(ci - 1));
            assert(caps.take(ci as int).last() == caps[ci - 1]);
        }
    }
    proof {
        assert(caps.take(caps.len() as int) =~= caps);
    }
    let tail = copy_end(&p.end);
    MatchSpec { elems, tail }
}

} // verus!
