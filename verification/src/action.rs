//! Discrete trading actions and the deterministic decoding of model
//! output logits into one of them.

use vstd::prelude::*;
use crate::errors::EngineError;

verus! {

/// The closed set of actions a policy can choose.
#[derive(Clone, Copy, Debug, PartialEq, Eq, Structural)]
pub enum Action {
    Hold,
    Buy,
    Sell,
}

impl Action {
    /// Wire code of the action: Hold is 0, Buy is 1, Sell is 2.
    pub fn code(&self) -> (r: u8)
        ensures
            r == self.code_spec(),
    {
        match self {
            Action::Hold => 0,
            Action::Buy => 1,
            Action::Sell => 2,
        }
    }

    pub open spec fn code_spec(&self) -> u8 {
        match self {
            Action::Hold => 0,
            Action::Buy => 1,
            Action::Sell => 2,
        }
    }
}

/// The action encoded by output slot `i`.
pub open spec fn action_of(i: int) -> Action
    recommends
        0 <= i < 3,
{
    if i == 0 {
        Action::Hold
    } else if i == 1 {
        Action::Buy
    } else {
        Action::Sell
    }
}

/// Whether an IEEE-754 single-precision bit pattern encodes a NaN:
/// exponent all ones with a nonzero mantissa.
pub open spec fn is_nan_bits(b: u32) -> bool {
    (b >> 23u32) & 0xffu32 == 0xffu32 && b & 0x007f_ffffu32 != 0u32
}

/// Collapses the two zero encodings: the negative-zero pattern stands
/// for the same value as positive zero.
pub open spec fn canon_zero(b: u32) -> u32 {
    if b == 0x8000_0000u32 {
        0u32
    } else {
        b
    }
}

/// Total-order key of an IEEE-754 single-precision bit pattern: the key
/// order of two patterns coincides with the IEEE-754 total order of the
/// floating-point values they encode (negative values reversed below
/// positive ones).
pub open spec fn order_key(b: u32) -> u32 {
    if b >= 0x8000_0000u32 {
        !b
    } else {
        b ^ 0x8000_0000u32
    }
}

/// Executable counterpart of [`order_key`].
pub fn compute_order_key(b: u32) -> (r: u32)
    ensures
        r == order_key(b),
{
    if b >= 0x8000_0000u32 {
        !b
    } else {
        b ^ 0x8000_0000u32
    }
}

/// The numeric strictly-greater relation of the two encoded values:
/// false whenever either operand is NaN, treating negative and
/// positive zero as equal, and otherwise the IEEE-754 order.  This is
/// exactly the `>` comparison of the two single-precision values,
/// written over their bit patterns.
pub open spec fn logit_gt(a: u32, b: u32) -> bool {
    &&& !is_nan_bits(a)
    &&& !is_nan_bits(b)
    &&& order_key(canon_zero(a)) > order_key(canon_zero(b))
}

/// Executable counterpart of [`logit_gt`].
pub fn compute_logit_gt(a: u32, b: u32) -> (r: bool)
    ensures
        r == logit_gt(a, b),
{
    let a_nan = (a >> 23u32) & 0xffu32 == 0xffu32 && a & 0x007f_ffffu32 != 0u32;
    let b_nan = (b >> 23u32) & 0xffu32 == 0xffu32 && b & 0x007f_ffffu32 != 0u32;
    if a_nan || b_nan {
        return false;
    }
    let ac: u32 = if a == 0x8000_0000u32 {
        0
    } else {
        a
    };
    let bc: u32 = if b == 0x8000_0000u32 {
        0
    } else {
        b
    };
    compute_order_key(ac) > compute_order_key(bc)
}

/// Index of the maximum logit under the numeric order, ties broken in
/// favor of the earliest index: a later logit replaces the running
/// maximum only when strictly greater under [`logit_gt`].
pub open spec fn argmax(s: Seq<u32>) -> int
    recommends
        s.len() > 0,
    decreases s.len(),
{
    if s.len() <= 1 {
        0
    } else {
        let r = argmax(s.drop_last());
        if logit_gt(s.last(), s[r]) {
            s.len() - 1
        } else {
            r
        }
    }
}

/// The argmax index is in range, no logit is strictly greater than the
/// chosen one, and — as long as no logit is NaN — every earlier logit
/// is strictly smaller: equal top logits therefore always resolve to
/// the lowest of their indices.  (With a NaN among the logits the
/// strictness half has no counterpart: NaN compares greater to
/// nothing and smaller to nothing.)
pub proof fn lemma_argmax_props(s: Seq<u32>)
    requires
        s.len() > 0,
    ensures
        0 <= argmax(s) < s.len(),
        forall|j: int| 0 <= j < s.len() ==> !#[trigger] logit_gt(s[j], s[argmax(s)]),
        (forall|j: int| 0 <= j < s.len() ==> !is_nan_bits(#[trigger] s[j])) ==> forall|j: int|
            0 <= j < argmax(s) ==> #[trigger] logit_gt(s[argmax(s)], s[j]),
    decreases s.len(),
{
    if s.len() > 1 {
        let t = s.drop_last();
        let r = argmax(t);
        lemma_argmax_props(t);
        assert(t[r] == s[r]);
        assert forall|j: int| 0 <= j < t.len() implies !#[trigger] logit_gt(s[j], s[r]) by {
            assert(t[j] == s[j]);
            assert(!logit_gt(t[j], t[r]));
        }
        assert(s.last() == s[s.len() - 1]);
        if logit_gt(s.last(), s[r]) {
            assert(argmax(s) == s.len() - 1);
            assert forall|j: int| 0 <= j < s.len() implies !#[trigger] logit_gt(
                s[j],
                s[argmax(s)],
            ) by {
                if j < s.len() - 1 && logit_gt(s[j], s[s.len() - 1]) {
                    assert(logit_gt(s[j], s[r]));
                }
            }
        } else {
            assert(argmax(s) == r);
        }
        if forall|j: int| 0 <= j < s.len() ==> !is_nan_bits(#[trigger] s[j]) {
            assert forall|j: int| 0 <= j < t.len() implies !is_nan_bits(#[trigger] t[j]) by {
                assert(t[j] == s[j]);
            }
            assert forall|j: int| 0 <= j < argmax(s) implies #[trigger] logit_gt(
                s[argmax(s)],
                s[j],
            ) by {
                assert(s[j] == t[j]);
                if argmax(s) == s.len() - 1 {
                    if j < r {
                        assert(logit_gt(t[r], t[j]));
                    } else {
                        assert(!logit_gt(t[j], t[r]));
                    }
                    assert(logit_gt(s.last(), s[r]));
                } else {
                    assert(logit_gt(t[r], t[j]));
                }
            }
        }
    }
}

/// Decodes a vector of logits, given as IEEE-754 single-precision bit
/// patterns, into an action: linear scan for the maximum, earliest index
/// winning ties; an index outside the three-action range is an error.
pub fn decode(logits: &Vec<u32>) -> (r: Result<Action, EngineError>)
    ensures
        logits@.len() == 0 ==> r == Err::<Action, EngineError>(EngineError::NoOutput),
        logits@.len() > 0 && argmax(logits@) < 3 ==> r == Ok::<Action, EngineError>(
            action_of(argmax(logits@)),
        ),
        logits@.len() > 0 && argmax(logits@) >= 3 ==> r == Err::<Action, EngineError>(
            EngineError::Decode { index: argmax(logits@) as usize },
        ),
{
    if logits.len() == 0 {
        return Err(EngineError::NoOutput);
    }
    let mut max_idx: usize = 0;
    let mut i: usize = 1;
    proof {
        assert(logits@.take(1) =~= seq![logits@[0]]);
    }
    while i < logits.len()
        invariant
            1 <= i <= logits@.len(),
            max_idx < i,
            max_idx as int == argmax(logits@.take(i as int)),
        decreases logits@.len() - i,
    {
        proof {
            let t = logits@.take(i + 1);
            assert(t.drop_last() =~= logits@.take(i as int));
            assert(t.last() == logits@[i as int]);
        }
        if compute_logit_gt(logits[i], logits[max_idx]) {
            max_idx = i;
        }
        i = i + 1;
    }
    proof {
        assert(logits@.take(logits@.len() as int) =~= logits@);
    }
    if max_idx == 0 {
        Ok(Action::Hold)
    } else if max_idx == 1 {
        Ok(Action::Buy)
    } else if max_idx == 2 {
        Ok(Action::Sell)
    } else {
        Err(EngineError::Decode { index: max_idx })
    }
}

} // verus!
