use vstd::prelude::*;

use crate::bytes::copy_tail;

verus! {

/// A repetition suffix that could not be understood.
#[derive(Debug, Clone, PartialEq, Eq)]
pub enum SuffixError {
    /// The suffix did not start with the letter `x`.
    NotX,
    /// What followed the `x` does not parse as a positive integer that fits
    /// the machine; `text` holds the offending characters.
    BadCount { text: Vec<u8> },
}

/// Mathematical model of a `SuffixError`.
pub enum SuffixErrorV {
    NotX,
    BadCount { text: Seq<u8> },
}

impl View for SuffixError {
    type V = SuffixErrorV;

    open spec fn view(&self) -> SuffixErrorV {
        match self {
            SuffixError::NotX => SuffixErrorV::NotX,
            SuffixError::BadCount { text } => SuffixErrorV::BadCount { text: text@ },
        }
    }
}

impl DeepView for SuffixError {
    type V = SuffixErrorV;

    open spec fn deep_view(&self) -> SuffixErrorV {
        self.view()
    }
}

pub open spec fn is_ascii_digit(b: u8) -> bool {
    48 <= b && b <= 57
}

pub open spec fn all_ascii_digits(s: Seq<u8>) -> bool {
    forall|i: int| 0 <= i < s.len() ==> is_ascii_digit(#[trigger] s[i])
}

/// The value of a run of decimal digits, most significant first.
pub open spec fn digits_val(s: Seq<u8>) -> nat
    recommends
        all_ascii_digits(s),
    decreases s.len(),
{
    if s.len() == 0 {
        0
    } else {
        digits_val(s.drop_last()) * 10 + (s.last() - 48) as nat
    }
}

/// What a repetition suffix means: empty stands for one repetition; `x`
/// followed by a positive integer that fits a `usize` stands for that many;
/// every other suffix is an error.
pub open spec fn spec_suffix_reps(s: Seq<u8>) -> Result<nat, SuffixErrorV> {
    if s.len() == 0 {
        Ok(1 as nat)
    } else if s[0] != 120u8 {
        Err(SuffixErrorV::NotX)
    } else {
        let rest = s.subrange(1, s.len() as int);
        if rest.len() > 0 && all_ascii_digits(rest) && 1 <= digits_val(rest) && digits_val(rest)
            <= usize::MAX as nat {
            Ok(digits_val(rest))
        } else {
            Err(SuffixErrorV::BadCount { text: rest })
        }
    }
}

/// The value of a digit run never shrinks when digits are appended.
proof fn lemma_digits_val_prefix(s: Seq<u8>, k: int)
    requires
        0 <= k <= s.len(),
    ensures
        digits_val(s.subrange(0, k)) <= digits_val(s),
    decreases s.len() - k,
{
    if k == s.len() {
        assert(s.subrange(0, k) =~= s);
    } else {
        assert(s.subrange(0, k + 1).drop_last() =~= s.subrange(0, k));
        assert(s.subrange(0, k + 1).last() == s[k]);
        assert(digits_val(s.subrange(0, k)) <= digits_val(s.subrange(0, k + 1)));
        lemma_digits_val_prefix(s, k + 1);
    }
}

/// Turn a literal's repetition suffix into its repetition count: an empty
/// suffix means one repetition, `x` followed by a positive integer means
/// that many, and anything else is rejected, exactly as `spec_suffix_reps`
/// says.
pub open spec fn suffix_result_view(r: Result<usize, SuffixError>) -> Result<nat, SuffixErrorV> {
    match r {
        Ok(n) => Ok(n as nat),
        Err(e) => Err(e@),
    }
}

pub fn process_suffix(suffix: &Vec<u8>) -> (r: Result<usize, SuffixError>)
    ensures
        suffix_result_view(r) == spec_suffix_reps(suffix@),
{
    if suffix.len() == 0 {
        return Ok(1);
    }
    if suffix[0] != 120u8 {
        return Err(SuffixError::NotX);
    }
    let ghost rest: Seq<u8> = suffix@.subrange(1, suffix@.len() as int);
    if suffix.len() == 1 {
        return Err(SuffixError::BadCount { text: copy_tail(suffix, 1) });
    }
    let mut acc: usize = 0;
    let mut i: usize = 1;
    while i < suffix.len()
        invariant
            1 <= i <= suffix@.len(),
            2 <= suffix@.len(),
            suffix@[0] == 120u8,
            rest == suffix@.subrange(1, suffix@.len() as int),
            all_ascii_digits(suffix@.subrange(1, i as int)),
            acc as nat == digits_val(suffix@.subrange(1, i as int)),
        decreases suffix@.len() - i,
    {
        let b = suffix[i];
        if !(48 <= b && b <= 57) {
            proof {
                assert(rest[i - 1] == suffix@[i as int]);
                assert(!all_ascii_digits(rest));
            }
            return Err(SuffixError::BadCount { text: copy_tail(suffix, 1) });
        }
        let d = (b - 48) as usize;
        if acc > (usize::MAX - d) / 10 {
            proof {
                let pre = suffix@.subrange(1, i as int);
                let pre1 = suffix@.subrange(1, i + 1);
                assert(pre1.drop_last() =~= pre);
                assert(pre1.last() == suffix@[i as int]);
                assert(digits_val(pre1) == acc * 10 + d);
                assert(acc * 10 + d > usize::MAX) by {
                    let q = (usize::MAX - d) / 10;
                    assert(usize::MAX - d == 10 * q + (usize::MAX - d) % 10);
                    assert(acc >= q + 1);
                    assert(acc * 10 >= (q + 1) * 10) by (nonlinear_arith)
                        requires
                            acc >= q + 1,
                    ;
                    assert((usize::MAX - d) % 10 < 10);
                }
                assert(pre1 =~= rest.subrange(0, i as int));
                lemma_digits_val_prefix(rest, i as int);
                assert(digits_val(rest) > usize::MAX as nat);
            }
            return Err(SuffixError::BadCount { text: copy_tail(suffix, 1) });
        }
        acc = acc * 10 + d;
        i = i + 1;
        proof {
            let pre0 = suffix@.subrange(1, i - 1);
            let pre1 = suffix@.subrange(1, i as int);
            assert(pre1.drop_last() =~= pre0);
            assert(pre1.last() == suffix@[i - 1]);
            assert(forall|j: int|
                0 <= j < pre1.len() ==> is_ascii_digit(#[trigger] pre1[j]) == is_ascii_digit(
                    suffix@[j + 1],
                ));
        }
    }
    proof {
        assert(suffix@.subrange(1, i as int) =~= rest);
    }
    if acc == 0 {
        return Err(SuffixError::BadCount { text: copy_tail(suffix, 1) });
    }
    Ok(acc)
}

} // verus!
