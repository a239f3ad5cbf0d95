//! Recurrent state carried between inference calls: a fixed quadruple
//! of numeric tensors, held flat as IEEE-754 bit patterns, replaced
//! wholesale after every successful inference and resettable to the
//! all-zero default.

use vstd::prelude::*;

verus! {

/// A sequence of `len` zero words: the bit pattern of an all-zero
/// single-precision tensor.
pub open spec fn zero_words(len: nat) -> Seq<u32> {
    Seq::new(len, |i: int| 0u32)
}

/// The all-zero default state: four zero tensors of `len` elements.
pub open spec fn zero_state(len: nat) -> Seq<Seq<u32>> {
    seq![zero_words(len), zero_words(len), zero_words(len), zero_words(len)]
}

/// A vector of `len` zero words.
pub fn make_zero_words(len: usize) -> (r: Vec<u32>)
    ensures
        r@ == zero_words(len as nat),
{
    let mut out: Vec<u32> = Vec::new();
    let mut i: usize = 0;
    while i < len
        invariant
            i <= len,
            out@ == zero_words(i as nat),
        decreases len - i,
    {
        out.push(0);
        i = i + 1;
        proof {
            assert(out@ =~= zero_words(i as nat));
        }
    }
    out
}

/// Copy of a word vector.
pub fn copy_words(v: &Vec<u32>) -> (r: Vec<u32>)
    ensures
        r@ == v@,
{
    let mut out: Vec<u32> = Vec::new();
    let mut i: usize = 0;
    while i < v.len()
        invariant
            i <= v@.len(),
            out@ == v@.take(i as int),
        decreases v@.len() - i,
    {
        out.push(v[i]);
        i = i + 1;
        proof {
            assert(out@ =~= v@.take(i as int));
        }
    }
    proof {
        assert(v@.take(v@.len() as int) =~= v@);
    }
    out
}

/// The quadruple of recurrent tensors (actor hidden, actor cell,
/// critic hidden, critic cell), each held flat as bit patterns.  Its
/// view is the sequence of the four flat tensors, in that order.
#[derive(Debug, PartialEq, Eq)]
pub struct RecurrentState {
    actor_h: Vec<u32>,
    actor_c: Vec<u32>,
    critic_h: Vec<u32>,
    critic_c: Vec<u32>,
}

impl View for RecurrentState {
    type V = Seq<Seq<u32>>;

    closed spec fn view(&self) -> Seq<Seq<u32>> {
        seq![self.actor_h@, self.actor_c@, self.critic_h@, self.critic_c@]
    }
}

impl RecurrentState {
    /// Each of the four tensors holds exactly `len` elements.
    pub open spec fn wf(&self, len: nat) -> bool {
        forall|i: int| 0 <= i < 4 ==> (#[trigger] self@[i]).len() == len
    }

    /// The all-zero default state.
    pub fn zeroed(len: usize) -> (r: RecurrentState)
        ensures
            r@ == zero_state(len as nat),
    {
        RecurrentState {
            actor_h: make_zero_words(len),
            actor_c: make_zero_words(len),
            critic_h: make_zero_words(len),
            critic_c: make_zero_words(len),
        }
    }

    /// Packs four flat tensors, in slot order, into a state quadruple.
    pub fn from_parts(a: Vec<u32>, b: Vec<u32>, c: Vec<u32>, d: Vec<u32>) -> (r: RecurrentState)
        ensures
            r@ == seq![a@, b@, c@, d@],
    {
        RecurrentState { actor_h: a, actor_c: b, critic_h: c, critic_c: d }
    }

    /// The `i`-th tensor of the quadruple.
    pub fn part(&self, i: usize) -> (r: &Vec<u32>)
        requires
            i < 4,
        ensures
            r@ == self@[i as int],
    {
        if i == 0 {
            &self.actor_h
        } else if i == 1 {
            &self.actor_c
        } else if i == 2 {
            &self.critic_h
        } else {
            &self.critic_c
        }
    }

    /// An independent copy of the quadruple.
    pub fn duplicate(&self) -> (r: RecurrentState)
        ensures
            r@ == self@,
    {
        let r = RecurrentState {
            actor_h: copy_words(&self.actor_h),
            actor_c: copy_words(&self.actor_c),
            critic_h: copy_words(&self.critic_h),
            critic_c: copy_words(&self.critic_c),
        };
        proof {
            assert(r@ =~= self@);
        }
        r
    }
}

/// Holder of the recurrent state between calls.  It is read before and
/// replaced after each successful inference of a recurrent variant,
/// never partially updated.
pub struct StateCache {
    len: usize,
    state: RecurrentState,
}

impl View for StateCache {
    type V = Seq<Seq<u32>>;

    closed spec fn view(&self) -> Seq<Seq<u32>> {
        self.state@
    }
}

impl StateCache {
    #[verifier::type_invariant]
    spec fn inv(&self) -> bool {
        self.state.wf(self.len as nat)
    }

    /// Element count of each held tensor.
    pub closed spec fn len_spec(&self) -> usize {
        self.len
    }

    /// A cache holding the all-zero default state.
    pub fn new(len: usize) -> (r: StateCache)
        ensures
            r@ == zero_state(len as nat),
            r.len_spec() == len,
    {
        StateCache { len, state: RecurrentState::zeroed(len) }
    }

    /// A cache holding the given state, whose tensors must hold `len`
    /// elements each.
    pub fn with_state(len: usize, state: RecurrentState) -> (r: StateCache)
        requires
            state.wf(len as nat),
        ensures
            r@ == state@,
            r.len_spec() == len,
    {
        StateCache { len, state }
    }

    /// A copy of the presently held state.
    pub fn current(&self) -> (r: RecurrentState)
        ensures
            r@ == self@,
            r.wf(self.len_spec() as nat),
    {
        proof {
            use_type_invariant(self);
        }
        self.state.duplicate()
    }

    /// A borrow of the presently held state.
    pub fn current_ref(&self) -> (r: &RecurrentState)
        ensures
            r@ == self@,
            r.wf(self.len_spec() as nat),
    {
        proof {
            use_type_invariant(self);
        }
        &self.state
    }

    /// Atomically overwrites the held state.
    pub fn replace(&mut self, new: RecurrentState)
        requires
            new.wf(old(self).len_spec() as nat),
        ensures
            final(self)@ == new@,
            final(self).len_spec() == old(self).len_spec(),
    {
        self.state = new;
    }

    /// Sets the held state back to the all-zero default; the shapes are
    /// unchanged.
    pub fn reset(&mut self)
        ensures
            final(self)@ == zero_state(old(self).len_spec() as nat),
            final(self).len_spec() == old(self).len_spec(),
    {
        self.state = RecurrentState::zeroed(self.len);
    }
}

} // verus!
