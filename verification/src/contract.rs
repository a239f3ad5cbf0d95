//! The fixed per-variant shape contract: the tensor shapes the graph's
//! input slots are declared with, and the flat lengths a caller's
//! vectors must have.

use vstd::prelude::*;

verus! {

/// Product of the dimensions of a tensor shape: the flat element count.
pub open spec fn prod(s: Seq<usize>) -> nat
    decreases s.len(),
{
    if s.len() == 0 {
        1
    } else {
        prod(s.drop_last()) * (s.last() as nat)
    }
}

/// Some prefix of the dimensions already multiplies out beyond
/// `usize::MAX`, so the flat length cannot be computed.
pub open spec fn prefix_overflow(s: Seq<usize>) -> bool {
    exists|k: int| 0 <= k <= s.len() && prod(#[trigger] s.take(k)) > usize::MAX
}

/// Flat element count of a shape, or `None` when a prefix product
/// exceeds `usize::MAX`.
pub fn shape_len(shape: &Vec<usize>) -> (r: Option<usize>)
    ensures
        r matches Some(p) ==> p == prod(shape@) && !prefix_overflow(shape@),
        r is None ==> prefix_overflow(shape@),
{
    let mut acc: usize = 1;
    let mut i: usize = 0;
    proof {
        assert(shape@.take(0) =~= Seq::<usize>::empty());
    }
    while i < shape.len()
        invariant
            i <= shape@.len(),
            acc == prod(shape@.take(i as int)),
            forall|k: int| 0 <= k <= i ==> prod(#[trigger] shape@.take(k)) <= usize::MAX,
        decreases shape@.len() - i,
    {
        proof {
            let t = shape@.take(i + 1);
            assert(t.drop_last() =~= shape@.take(i as int));
            assert(t.last() == shape@[i as int]);
        }
        match acc.checked_mul(shape[i]) {
            Some(p) => {
                acc = p;
            },
            None => {
                proof {
                    assert(prod(shape@.take(i + 1)) > usize::MAX);
                }
                return None;
            },
        }
        i = i + 1;
    }
    proof {
        assert(shape@.take(shape@.len() as int) =~= shape@);
    }
    Some(acc)
}

/// Copy of a dimension vector.
pub fn copy_dims(v: &Vec<usize>) -> (r: Vec<usize>)
    ensures
        r@ == v@,
{
    let mut out: Vec<usize> = Vec::new();
    let mut i: usize = 0;
    while i < v.len()
        invariant
            i <= v@.len(),
            out@ == v@.take(i as int),
        decreases v@.len() - i,
    {
        out.push(v[i]);
        i = i + 1;
        proof {
            assert(out@ =~= v@.take(i as int));
        }
    }
    proof {
        assert(v@.take(v@.len() as int) =~= v@);
    }
    out
}

/// The shape contract one engine variant is bound to: the shape of the
/// primary input, optionally the shape of an auxiliary input, and
/// optionally the shape of the four recurrent tensors.  The stored flat
/// lengths always equal the product of the corresponding dimensions.
pub struct ShapeContract {
    main_shape: Vec<usize>,
    main_len: usize,
    aux_shape: Option<Vec<usize>>,
    aux_len: usize,
    state_shape: Option<Vec<usize>>,
    state_len: usize,
}

impl ShapeContract {
    #[verifier::type_invariant]
    spec fn inv(&self) -> bool {
        &&& self.main_len == prod(self.main_shape@)
        &&& match self.aux_shape {
            Some(v) => self.aux_len == prod(v@),
            None => self.aux_len == 0,
        }
        &&& match self.state_shape {
            Some(v) => self.state_len == prod(v@),
            None => self.state_len == 0,
        }
    }

    /// Contracted flat length of the primary input.
    pub closed spec fn main_len_spec(&self) -> usize {
        self.main_len
    }

    /// Contracted flat length of the auxiliary input; 0 when the
    /// variant has none.
    pub closed spec fn aux_len_spec(&self) -> usize {
        self.aux_len
    }

    /// Contracted flat length of each recurrent tensor; 0 when the
    /// variant is stateless.
    pub closed spec fn state_len_spec(&self) -> usize {
        self.state_len
    }

    /// Whether the variant carries recurrent state between calls.
    pub closed spec fn recurrent_spec(&self) -> bool {
        self.state_shape is Some
    }

    /// Whether the variant takes an auxiliary input at all.
    pub closed spec fn has_aux_spec(&self) -> bool {
        self.aux_shape is Some
    }

    /// Binds a contract from the declared shapes.  Fails only when a
    /// shape's flat length cannot be represented in `usize`.
    pub fn new(main_shape: Vec<usize>, aux_shape: Option<Vec<usize>>, state_shape: Option<Vec<usize>>)
        -> (r: Option<ShapeContract>)
        ensures
            r matches Some(c) ==> {
                &&& c.main_len_spec() == prod(main_shape@)
                &&& (match aux_shape {
                    Some(v) => c.aux_len_spec() == prod(v@),
                    None => c.aux_len_spec() == 0,
                })
                &&& (match state_shape {
                    Some(v) => c.state_len_spec() == prod(v@),
                    None => c.state_len_spec() == 0,
                })
                &&& c.recurrent_spec() == (state_shape is Some)
                &&& c.has_aux_spec() == (aux_shape is Some)
            },
            r is None ==> prefix_overflow(main_shape@) || (aux_shape matches Some(v)
                && prefix_overflow(v@)) || (state_shape matches Some(v) && prefix_overflow(v@)),
    {
        let main_len = match shape_len(&main_shape) {
            Some(p) => p,
            None => {
                return None;
            },
        };
        let aux_len: usize = match &aux_shape {
            Some(v) => match shape_len(v) {
                Some(p) => p,
                None => {
                    return None;
                },
            },
            None => 0,
        };
        let state_len: usize = match &state_shape {
            Some(v) => match shape_len(v) {
                Some(p) => p,
                None => {
                    return None;
                },
            },
            None => 0,
        };
        Some(ShapeContract { main_shape, main_len, aux_shape, aux_len, state_shape, state_len })
    }

    /// Contracted flat length of the primary input.
    pub fn main_len(&self) -> (r: usize)
        ensures
            r == self.main_len_spec(),
    {
        self.main_len
    }

    /// Contracted flat length of the auxiliary input.
    pub fn aux_len(&self) -> (r: usize)
        ensures
            r == self.aux_len_spec(),
    {
        self.aux_len
    }

    /// Contracted flat length of each recurrent tensor.
    pub fn state_len(&self) -> (r: usize)
        ensures
            r == self.state_len_spec(),
    {
        self.state_len
    }

    /// Whether the variant carries recurrent state.
    pub fn recurrent(&self) -> (r: bool)
        ensures
            r == self.recurrent_spec(),
    {
        match &self.state_shape {
            Some(_) => true,
            None => false,
        }
    }

    /// Dimensions the primary input is declared with; their product is
    /// the contracted primary length.
    pub(crate) fn main_shape_ref(&self) -> (r: &Vec<usize>)
        ensures
            prod(r@) == self.main_len_spec(),
    {
        proof {
            use_type_invariant(self);
        }
        &self.main_shape
    }

    /// Dimensions of the auxiliary input, when the variant has one.
    pub(crate) fn aux_shape_ref(&self) -> (r: Option<&Vec<usize>>)
        ensures
            r matches Some(v) ==> self.has_aux_spec() && prod(v@) == self.aux_len_spec(),
            r is None ==> !self.has_aux_spec() && self.aux_len_spec() == 0,
    {
        proof {
            use_type_invariant(self);
        }
        match &self.aux_shape {
            Some(v) => Some(v),
            None => None,
        }
    }

    /// Dimensions of each recurrent tensor, when the variant carries
    /// state.
    pub(crate) fn state_shape_ref(&self) -> (r: Option<&Vec<usize>>)
        ensures
            r matches Some(v) ==> self.recurrent_spec() && prod(v@) == self.state_len_spec(),
            r is None ==> !self.recurrent_spec() && self.state_len_spec() == 0,
    {
        proof {
            use_type_invariant(self);
        }
        match &self.state_shape {
            Some(v) => Some(v),
            None => None,
        }
    }

    /// The tensor shapes the graph's input slots are declared with, in
    /// slot order: the primary input, then the auxiliary input when
    /// the variant has one, then the four recurrent tensors when it is
    /// recurrent.
    pub closed spec fn slot_shapes_spec(&self) -> Seq<Seq<usize>> {
        let base = seq![self.main_shape@];
        let with_aux = match self.aux_shape {
            Some(v) => base.push(v@),
            None => base,
        };
        match self.state_shape {
            Some(v) => with_aux + seq![v@, v@, v@, v@],
            None => with_aux,
        }
    }

    /// The tensor shapes of the graph's input slots, exactly
    /// [`Self::slot_shapes_spec`] in slot order.
    pub(crate) fn input_shapes(&self) -> (r: Vec<Vec<usize>>)
        ensures
            r@.len() == self.slot_shapes_spec().len(),
            forall|i: int| 0 <= i < r@.len() ==> (#[trigger] r@[i])@ == self.slot_shapes_spec()[i],
    {
        let mut out: Vec<Vec<usize>> = Vec::new();
        out.push(copy_dims(&self.main_shape));
        match &self.aux_shape {
            Some(v) => {
                out.push(copy_dims(v));
            },
            None => {},
        }
        match &self.state_shape {
            Some(v) => {
                out.push(copy_dims(v));
                out.push(copy_dims(v));
                out.push(copy_dims(v));
                out.push(copy_dims(v));
            },
            None => {},
        }
        out
    }
}

} // verus!
