//! The inference engine: one long-lived object owning the byte ledger,
//! the compiled plan and the recurrent-state cache, with the entry
//! points for chunked upload, compilation and inference.

use vstd::prelude::*;
use crate::action::{Action, action_of, argmax, decode};
use crate::bits::{bytes_to_words, lemma_bytes_of_words_len, words_to_bytes};
use crate::contract::ShapeContract;
use crate::errors::EngineError;
use crate::ledger::ByteLedger;
use crate::rt::{bind_and_optimize, parse_graph, run_plan, tensor_from_bytes, tensor_to_bytes, CompiledPlan};
use crate::state::{copy_words, zero_state, RecurrentState, StateCache};

verus! {

/// The first slot in 1..=4 whose tensor does not hold `state_len`
/// elements, or 5 when all four do.
pub open spec fn first_bad_state_slot(outputs: Seq<Vec<u32>>, state_len: nat) -> int
    recommends
        outputs.len() >= 5,
{
    if outputs[1]@.len() != state_len {
        1
    } else if outputs[2]@.len() != state_len {
        2
    } else if outputs[3]@.len() != state_len {
        3
    } else if outputs[4]@.len() != state_len {
        4
    } else {
        5
    }
}

/// Interprets the outputs of one forward pass, already read back as
/// flat bit-pattern vectors in the graph's output order: the first
/// output is the logit vector and is decoded into an action; for a
/// recurrent variant the next four outputs are the updated recurrent
/// tensors, each of which must hold exactly `state_len` elements.
pub fn interpret_outputs(outputs: Vec<Vec<u32>>, recurrent: bool, state_len: usize) -> (r: Result<
    (Action, Option<RecurrentState>),
    EngineError,
>)
    ensures
        outputs@.len() < (if recurrent { 5int } else { 1int }) ==> r == Err::<
            (Action, Option<RecurrentState>),
            EngineError,
        >(
            EngineError::Output {
                expected: if recurrent { 5usize } else { 1usize },
                got: outputs@.len() as usize,
            },
        ),
        outputs@.len() >= (if recurrent { 5int } else { 1int }) && outputs@[0]@.len() == 0 ==> r
            == Err::<(Action, Option<RecurrentState>), EngineError>(EngineError::NoOutput),
        outputs@.len() >= (if recurrent { 5int } else { 1int }) && outputs@[0]@.len() > 0 && argmax(outputs@[0]@) >= 3 ==> r == Err::<(Action, Option<RecurrentState>), EngineError>(
            EngineError::Decode { index: argmax(outputs@[0]@) as usize },
        ),
        !recurrent && outputs@.len() >= 1 && outputs@[0]@.len() > 0 && argmax(outputs@[0]@) < 3 ==> r
            == Ok::<(Action, Option<RecurrentState>), EngineError>(
            (action_of(argmax(outputs@[0]@)), None),
        ),
        recurrent && outputs@.len() >= 5 && outputs@[0]@.len() > 0 && argmax(outputs@[0]@) < 3
            && first_bad_state_slot(outputs@, state_len as nat) < 5 ==> {
            let bad = first_bad_state_slot(outputs@, state_len as nat);
            r == Err::<(Action, Option<RecurrentState>), EngineError>(
                EngineError::StateShape {
                    expected: state_len,
                    got: outputs@[bad]@.len() as usize,
                },
            )
        },
        recurrent && outputs@.len() >= 5 && outputs@[0]@.len() > 0 && argmax(outputs@[0]@) < 3
            && first_bad_state_slot(outputs@, state_len as nat) == 5 ==> (r matches Ok((a, st)) && (
        a == action_of(argmax(outputs@[0]@)) && (st matches Some(s) && s@ == seq![
            outputs@[1]@,
            outputs@[2]@,
            outputs@[3]@,
            outputs@[4]@,
        ]))),
{
    let needed: usize = if recurrent {
        5
    } else {
        1
    };
    if outputs.len() < needed {
        return Err(EngineError::Output { expected: needed, got: outputs.len() });
    }
    let action = match decode(&outputs[0]) {
        Ok(a) => a,
        Err(e) => {
            return Err(e);
        },
    };
    if recurrent {
        let p1 = copy_words(&outputs[1]);
        if p1.len() != state_len {
            return Err(EngineError::StateShape { expected: state_len, got: p1.len() });
        }
        let p2 = copy_words(&outputs[2]);
        if p2.len() != state_len {
            return Err(EngineError::StateShape { expected: state_len, got: p2.len() });
        }
        let p3 = copy_words(&outputs[3]);
        if p3.len() != state_len {
            return Err(EngineError::StateShape { expected: state_len, got: p3.len() });
        }
        let p4 = copy_words(&outputs[4]);
        if p4.len() != state_len {
            return Err(EngineError::StateShape { expected: state_len, got: p4.len() });
        }
        Ok((action, Some(RecurrentState::from_parts(p1, p2, p3, p4))))
    } else {
        Ok((action, None))
    }
}

/// One trading-policy inference engine instance: the model byte
/// ledger, the shape contract the variant is bound to, the compiled
/// plan (absent until the first successful compilation) and the
/// recurrent-state cache (all-zero and unused for stateless variants).
pub struct Engine {
    contract: ShapeContract,
    ledger: ByteLedger,
    plan: Option<CompiledPlan>,
    cache: StateCache,
}

/// The configuration of two engine values (the bound shape contract)
/// is the same.
pub open spec fn same_config(a: &Engine, b: &Engine) -> bool {
    &&& a.main_len_spec() == b.main_len_spec()
    &&& a.aux_len_spec() == b.aux_len_spec()
    &&& a.state_len_spec() == b.state_len_spec()
    &&& a.recurrent_spec() == b.recurrent_spec()
}

impl Engine {
    #[verifier::type_invariant]
    spec fn inv(&self) -> bool {
        self.cache.len_spec() == self.contract.state_len_spec()
    }

    /// The bytes accumulated in the ledger.
    pub closed spec fn ledger_view(&self) -> Seq<u8> {
        self.ledger@
    }

    /// Whether a compiled plan is currently held.
    pub closed spec fn has_plan(&self) -> bool {
        self.plan is Some
    }

    /// The held plan, if any.
    pub closed spec fn plan_spec(&self) -> Option<CompiledPlan> {
        self.plan
    }

    /// The held recurrent state, as four flat tensors.
    pub closed spec fn state_view(&self) -> Seq<Seq<u32>> {
        self.cache@
    }

    /// Contracted flat length of the primary input.
    pub closed spec fn main_len_spec(&self) -> usize {
        self.contract.main_len_spec()
    }

    /// Contracted flat length of the auxiliary input.
    pub closed spec fn aux_len_spec(&self) -> usize {
        self.contract.aux_len_spec()
    }

    /// Contracted flat length of each recurrent tensor.
    pub closed spec fn state_len_spec(&self) -> usize {
        self.contract.state_len_spec()
    }

    /// Whether the variant carries recurrent state.
    pub closed spec fn recurrent_spec(&self) -> bool {
        self.contract.recurrent_spec()
    }

    /// A fresh engine bound to `contract`: empty ledger, no plan, and
    /// the all-zero default state.
    pub fn new(contract: ShapeContract) -> (r: Engine)
        ensures
            r.ledger_view() == Seq::<u8>::empty(),
            !r.has_plan(),
            r.state_view() == zero_state(contract.state_len_spec() as nat),
            r.main_len_spec() == contract.main_len_spec(),
            r.aux_len_spec() == contract.aux_len_spec(),
            r.state_len_spec() == contract.state_len_spec(),
            r.recurrent_spec() == contract.recurrent_spec(),
    {
        let state_len = contract.state_len();
        Engine {
            contract,
            ledger: ByteLedger::new(),
            plan: None,
            cache: StateCache::new(state_len),
        }
    }

    /// Appends one uploaded chunk to the model byte ledger; everything
    /// else is untouched.
    pub fn append_model_bytes(&mut self, chunk: &Vec<u8>)
        ensures
            same_config(final(self), old(self)),
            final(self).ledger_view() == old(self).ledger_view() + chunk@,
            final(self).plan_spec() == old(self).plan_spec(),
            final(self).has_plan() == old(self).has_plan(),
            final(self).state_view() == old(self).state_view(),
    {
        proof {
            use_type_invariant(&*self);
        }
        let mut led = ByteLedger::new();
        std::mem::swap(&mut led, &mut self.ledger);
        led.append(chunk);
        self.ledger = led;
    }

    /// Resets the model byte ledger to empty; everything else is
    /// untouched.
    pub fn clear_model_bytes(&mut self)
        ensures
            same_config(final(self), old(self)),
            final(self).ledger_view() == Seq::<u8>::empty(),
            final(self).plan_spec() == old(self).plan_spec(),
            final(self).has_plan() == old(self).has_plan(),
            final(self).state_view() == old(self).state_view(),
    {
        proof {
            use_type_invariant(&*self);
        }
        self.ledger = ByteLedger::new();
    }

    /// The full current ledger content, without mutating it.
    pub fn model_bytes(&self) -> (r: Vec<u8>)
        ensures
            r@ == self.ledger_view(),
    {
        self.ledger.snapshot()
    }

    /// Sets the recurrent state back to the all-zero default;
    /// everything else is untouched.
    pub fn reset_state(&mut self)
        ensures
            same_config(final(self), old(self)),
            final(self).ledger_view() == old(self).ledger_view(),
            final(self).plan_spec() == old(self).plan_spec(),
            final(self).has_plan() == old(self).has_plan(),
            final(self).state_view() == zero_state(old(self).state_len_spec() as nat),
    {
        proof {
            use_type_invariant(&*self);
        }
        self.cache = StateCache::new(self.contract.state_len());
    }

    /// A copy of the currently held recurrent state.
    pub fn current_state(&self) -> (r: RecurrentState)
        ensures
            r@ == self.state_view(),
    {
        self.cache.current()
    }

    /// Compiles the current ledger snapshot into a runnable plan.  On
    /// success the new plan replaces the old one; on failure the
    /// previously held plan — and everything else — is untouched.
    pub fn setup_model(&mut self) -> (r: Result<(), EngineError>)
        ensures
            same_config(final(self), old(self)),
            final(self).ledger_view() == old(self).ledger_view(),
            final(self).state_view() == old(self).state_view(),
            r is Ok ==> final(self).has_plan(),
            r matches Err(e) ==> (e matches EngineError::Compilation { .. })
                && final(self).plan_spec() == old(self).plan_spec() && final(self).has_plan()
                == old(self).has_plan(),
    {
        proof {
            use_type_invariant(&*self);
        }
        let shapes = self.contract.input_shapes();
        let parsed = match parse_graph(self.ledger.bytes()) {
            Ok(d) => d,
            Err(detail) => {
                return Err(EngineError::Compilation { detail });
            },
        };
        match bind_and_optimize(parsed, &shapes) {
            Ok(p) => {
                self.plan = Some(p);
                Ok(())
            },
            Err(detail) => Err(EngineError::Compilation { detail }),
        }
    }

    /// Runs one inference call: validates the input lengths against
    /// the contract, requires a compiled plan, executes one forward
    /// pass and decodes the first output into an action; for a
    /// recurrent variant the updated state is committed if and only if
    /// the whole call succeeds.
    #[verifier::loop_isolation(false)]
    pub fn get_action(&mut self, input: &Vec<u32>, aux: &Vec<u32>) -> (r: Result<
        Action,
        EngineError,
    >)
        ensures
            same_config(final(self), old(self)),
            final(self).ledger_view() == old(self).ledger_view(),
            final(self).plan_spec() == old(self).plan_spec(),
            final(self).has_plan() == old(self).has_plan(),
            input@.len() != old(self).main_len_spec() ==> r == Err::<Action, EngineError>(
                EngineError::InputShape {
                    expected: old(self).main_len_spec(),
                    got: input@.len() as usize,
                },
            ),
            input@.len() == old(self).main_len_spec() && aux@.len() != old(self).aux_len_spec()
                ==> r == Err::<Action, EngineError>(
                EngineError::AuxShape {
                    expected: old(self).aux_len_spec(),
                    got: aux@.len() as usize,
                },
            ),
            input@.len() == old(self).main_len_spec() && aux@.len() == old(self).aux_len_spec()
                && !old(self).has_plan() ==> r == Err::<Action, EngineError>(
                EngineError::ModelNotReady,
            ),
            input@.len() == old(self).main_len_spec() && aux@.len() == old(self).aux_len_spec()
                && old(self).has_plan() ==> (r is Ok || (r matches Err(e) && (e matches
                EngineError::Execution { .. } || e matches EngineError::Output { .. } || e matches
                EngineError::NoOutput || e matches EngineError::Decode { .. } || e matches
                EngineError::StateShape { .. }))),
            r is Err ==> final(self).state_view() == old(self).state_view(),
            !old(self).recurrent_spec() ==> final(self).state_view() == old(self).state_view(),
            old(self).has_plan() ==> r != Err::<Action, EngineError>(EngineError::ModelNotReady),
            old(self).recurrent_spec() && r is Ok ==> final(self).state_view().len() == 4 && (forall|
                i: int,
            |
                0 <= i < 4 ==> (#[trigger] final(self).state_view()[i]).len() == old(
                    self,
                ).state_len_spec()),
    {
        proof {
            use_type_invariant(&*self);
        }
        let main_len = self.contract.main_len();
        if input.len() != main_len {
            return Err(EngineError::InputShape { expected: main_len, got: input.len() });
        }
        let aux_len = self.contract.aux_len();
        if aux.len() != aux_len {
            return Err(EngineError::AuxShape { expected: aux_len, got: aux.len() });
        }
        let plan = match &self.plan {
            Some(p) => p,
            None => {
                return Err(EngineError::ModelNotReady);
            },
        };
        let recurrent = self.contract.recurrent();
        let state_len = self.contract.state_len();
        let mut tensors: Vec<tract_onnx::prelude::Tensor> = Vec::new();
        let main_bytes = words_to_bytes(input);
        proof {
            lemma_bytes_of_words_len(input@);
        }
        let t0 = match tensor_from_bytes(self.contract.main_shape_ref(), &main_bytes) {
            Ok(t) => t,
            Err(detail) => {
                return Err(EngineError::Execution { detail });
            },
        };
        tensors.push(t0);
        match self.contract.aux_shape_ref() {
            Some(shape) => {
                let aux_bytes = words_to_bytes(aux);
                proof {
                    lemma_bytes_of_words_len(aux@);
                }
                let t = match tensor_from_bytes(shape, &aux_bytes) {
                    Ok(t) => t,
                    Err(detail) => {
                        return Err(EngineError::Execution { detail });
                    },
                };
                tensors.push(t);
            },
            None => {},
        }
        match self.contract.state_shape_ref() {
            Some(shape) => {
                let mut i: usize = 0;
                while i < 4
                    decreases 4 - i,
                {
                    let part = self.cache.current_ref().part(i);
                    let part_bytes = words_to_bytes(part);
                    proof {
                        lemma_bytes_of_words_len(part@);
                    }
                    let t = match tensor_from_bytes(shape, &part_bytes) {
                        Ok(t) => t,
                        Err(detail) => {
                            return Err(EngineError::Execution { detail });
                        },
                    };
                    tensors.push(t);
                    i = i + 1;
                }
            },
            None => {},
        }
        let outs = match run_plan(plan, tensors) {
            Ok(o) => o,
            Err(detail) => {
                return Err(EngineError::Execution { detail });
            },
        };
        let mut words: Vec<Vec<u32>> = Vec::new();
        let mut i: usize = 0;
        while i < outs.len()
            decreases outs@.len() - i,
        {
            let b = match tensor_to_bytes(&outs[i]) {
                Ok(b) => b,
                Err(detail) => {
                    return Err(EngineError::Execution { detail });
                },
            };
            words.push(bytes_to_words(&b));
            i = i + 1;
        }
        match interpret_outputs(words, recurrent, state_len) {
            Ok((a, None)) => Ok(a),
            Ok((a, Some(st))) => {
                self.cache = StateCache::with_state(state_len, st);
                Ok(a)
            },
            Err(e) => Err(e),
        }
    }
}

} // verus!
