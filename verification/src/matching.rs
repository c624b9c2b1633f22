use vstd::prelude::*;

use crate::ast::{EndCapture, EndCaptureV};
use crate::bytes::{copy_bytes, copy_tail};
use crate::lower::{MatchSpec, MatchSpecV, Matcher, MatcherV};

verus! {

/// One single-element binding produced by a successful match.
#[derive(Debug, Clone, PartialEq, Eq)]
pub struct SingleBinding {
    pub name: Vec<u8>,
    pub value: u8,
}

/// Mathematical model of a `SingleBinding`.
pub struct SingleBindingV {
    pub name: Seq<u8>,
    pub value: u8,
}

impl View for SingleBinding {
    type V = SingleBindingV;

    open spec fn view(&self) -> SingleBindingV {
        SingleBindingV { name: self.name@, value: self.value }
    }
}

impl DeepView for SingleBinding {
    type V = SingleBindingV;

    open spec fn deep_view(&self) -> SingleBindingV {
        self.view()
    }
}

/// The binding of the remaining elements to the named tail matcher.
#[derive(Debug, Clone, PartialEq, Eq)]
pub struct TailBinding {
    pub name: Vec<u8>,
    pub bytes: Vec<u8>,
}

/// Mathematical model of a `TailBinding`.
pub struct TailBindingV {
    pub name: Seq<u8>,
    pub bytes: Seq<u8>,
}

impl View for TailBinding {
    type V = TailBindingV;

    open spec fn view(&self) -> TailBindingV {
        TailBindingV { name: self.name@, bytes: self.bytes@ }
    }
}

impl DeepView for TailBinding {
    type V = TailBindingV;

    open spec fn deep_view(&self) -> TailBindingV {
        self.view()
    }
}

/// Everything a successful match binds: the named single elements in
/// source order, and the named tail, if the specification has one.
#[derive(Debug, Clone, PartialEq, Eq)]
pub struct Bindings {
    pub singles: Vec<SingleBinding>,
    pub tail: Option<TailBinding>,
}

/// Mathematical model of a `Bindings`.
pub struct BindingsV {
    pub singles: Seq<SingleBindingV>,
    pub tail: Option<TailBindingV>,
}

impl View for Bindings {
    type V = BindingsV;

    open spec fn view(&self) -> BindingsV {
        BindingsV { singles: self.singles.deep_view(), tail: self.tail.deep_view() }
    }
}

impl DeepView for Bindings {
    type V = BindingsV;

    open spec fn deep_view(&self) -> BindingsV {
        self.view()
    }
}

/// Whether one element matcher accepts one byte.
pub open spec fn spec_elem_matches(m: MatcherV, b: u8) -> bool {
    match m {
        MatcherV::Fixed { value } => value == b,
        MatcherV::Binding { .. } => true,
        MatcherV::AnyOne => true,
    }
}

/// Whether every fixed-position matcher accepts the byte at its position.
pub open spec fn spec_elems_match(elems: Seq<MatcherV>, input: Seq<u8>) -> bool
    recommends
        elems.len() <= input.len(),
{
    forall|i: int| 0 <= i < elems.len() ==> spec_elem_matches(#[trigger] elems[i], input[i])
}

/// The single-element bindings a matched prefix produces, in source order.
pub open spec fn spec_singles(elems: Seq<MatcherV>, input: Seq<u8>) -> Seq<SingleBindingV>
    recommends
        elems.len() == input.len(),
    decreases elems.len(),
{
    if elems.len() == 0 {
        Seq::empty()
    } else {
        let rest = spec_singles(elems.drop_last(), input.drop_last());
        match elems.last() {
            MatcherV::Binding { name } => rest.push(
                SingleBindingV { name, value: input.last() },
            ),
            _ => rest,
        }
    }
}

/// What a match specification makes of a byte sequence. Without a tail
/// matcher, the sequence must have exactly as many elements as there are
/// element matchers; with one, the fixed-position prefix must match and the
/// remainder, possibly empty, goes to the tail — bound when it is named,
/// discarded otherwise.
pub open spec fn spec_match(m: MatchSpecV, input: Seq<u8>) -> Option<BindingsV> {
    let n = m.elems.len() as int;
    match m.tail {
        None => if input.len() == n && spec_elems_match(m.elems, input) {
            Some(BindingsV { singles: spec_singles(m.elems, input), tail: None })
        } else {
            None
        },
        Some(end) => if input.len() >= n && spec_elems_match(m.elems, input.take(n)) {
            Some(
                BindingsV {
                    singles: spec_singles(m.elems, input.take(n)),
                    tail: match end {
                        EndCaptureV::Named { name } => Some(
                            TailBindingV { name, bytes: input.skip(n) },
                        ),
                        EndCaptureV::Discarded => None,
                    },
                },
            )
        } else {
            None
        },
    }
}

/// Run a match specification over a byte sequence: `None` when the bytes do
/// not fit the specification, otherwise every binding it produces.
pub fn match_bytes(m: &MatchSpec, input: &Vec<u8>) -> (r: Option<Bindings>)
    ensures
        r.deep_view() == spec_match(m@, input@),
{
    let n = m.elems.len();
    match &m.tail {
        None => {
            if input.len() != n {
                return None;
            }
        },
        Some(_) => {
            if input.len() < n {
                return None;
            }
        },
    }
    let ghost es = m@.elems;
    let ghost prefix = input@.take(n as int);
    proof {
        if m@.tail is None {
            assert(prefix =~= input@);
        }
    }
    let mut singles: Vec<SingleBinding> = Vec::new();
    let mut i: usize = 0;
    while i < n
        invariant
            i <= n,
            n == m.elems@.len(),
            n <= input@.len(),
            es == m@.elems,
            prefix == input@.take(n as int),
            spec_elems_match(es.take(i as int), prefix),
            singles.deep_view() == spec_singles(es.take(i as int), prefix.take(i as int)),
        decreases n - i,
    {
        proof {
            assert(es[i as int] == m.elems@[i as int]@);
            assert(prefix[i as int] == input@[i as int]);
        }
        let b = input[i];
        let ghost pre_singles = singles.deep_view();
        match &m.elems[i] {
            Matcher::Fixed { value } => {
                if *value != b {
                    proof {
                        assert(!spec_elem_matches(es[i as int], prefix[i as int]));
                        assert(!spec_elems_match(es, prefix));
                    }
                    return None;
                }
            },
            Matcher::Binding { name } => {
                singles.push(SingleBinding { name: copy_bytes(name), value: b });
                proof {
                    assert(singles.deep_view() =~= pre_singles.push(
                        SingleBindingV { name: name@, value: b },
                    ));
                }
            },
            Matcher::AnyOne => {},
        }
        i = i + 1;
        proof {
            assert(spec_elem_matches(es[i - 1], prefix[i - 1]));
            assert(spec_elems_match(es.take(i as int), prefix)) by {
                assert(forall|k: int|
                    0 <= k < i ==> (#[trigger] es.take(i as int)[k]) == es[k]);
                assert(forall|k: int| 0 <= k < i - 1 ==> es.take(i - 1)[k] == es[k]);
            }
            assert(es.take(i as int).drop_last() =~= es.take(i - 1));
            assert(prefix.take(i as int).drop_last() =~= prefix.take(i - 1));
            assert(es.take(i as int).last() == es[i - 1]);
            assert(prefix.take(i as int).last() == prefix[i - 1]);
            assert(singles.deep_view() == spec_singles(es.take(i as int), prefix.take(i as int)));
        }
    }
    proof {
        assert(es.take(n as int) =~= es);
        assert(prefix.take(n as int) =~= prefix);
    }
    let tail: Option<TailBinding> = match &m.tail {
        None => None,
        Some(EndCapture::Named { name }) => Some(
            TailBinding { name: copy_bytes(name), bytes: copy_tail(input, n) },
        ),
        Some(EndCapture::Discarded) => None,
    };
    proof {
        if let Some(EndCapture::Named { .. }) = &m.tail {
            assert(input@.subrange(n as int, input@.len() as int) =~= input@.skip(n as int));
        }
    }
    Some(Bindings { singles, tail })
}

} // verus!
