//! Trusted boundary to the `tract` ONNX runtime: graph parsing,
//! optimization into a runnable plan, tensor construction from raw
//! little-endian bytes, one forward pass, and reading tensor contents
//! back as raw bytes.  Everything on this side of the boundary handles
//! opaque values only; all interpretation of the bytes is verified
//! code elsewhere in the crate.

use vstd::prelude::*;
use crate::contract::prod;
use crate::bits::words_of_bytes;
use crate::errors::{dec_seq, push_dec};
use prost::Message;
use tract_onnx::prelude::Framework;
use tract_onnx::prelude::InferenceModelExt;
use tract_onnx::prelude::IntoRunnable;
use tract_onnx::prelude::IntoTensor;

verus! {

/// A parsed ONNX graph that is not yet bound to input shapes nor
/// optimized.  Opaque: the verifier sees nothing inside it.
#[verifier::external_body]
pub struct GraphDraft {
    inner: tract_onnx::prelude::InferenceModel,
}

/// An optimized, immutable, runnable execution plan, derived once from
/// a byte snapshot.  Opaque: the verifier sees nothing inside it.
#[verifier::external_body]
pub struct CompiledPlan {
    inner: std::sync::Arc<tract_onnx::prelude::TypedSimplePlan>,
}

/// The `tract` tensor type, carried through the engine as an opaque
/// value.
#[verifier::external_type_specification]
#[verifier::external_body]
pub struct ExTensor(tract_onnx::prelude::Tensor);

/// The single-precision content a tensor holds, as little-endian
/// bit-pattern words: the tensor's elements after a cast to f32, in
/// storage order, a function of the tensor value alone.
pub uninterp spec fn tensor_words(t: tract_onnx::prelude::Tensor) -> Seq<u32>;

/// Relies on prost's `Message::decode` for `tract_onnx::pb::ModelProto`
/// and on tract-onnx's `Framework::model_for_proto_model`: parses the
/// byte sequence as a serialized ONNX graph.  Which byte sequences
/// parse is decided entirely by those crates, so nothing is promised
/// of the result beyond the error report.
#[verifier::external_body]
pub(crate) fn parse_graph(bytes: &Vec<u8>) -> (r: Result<GraphDraft, String>) {
    let proto = match tract_onnx::pb::ModelProto::decode(bytes.as_slice()) {
        Ok(p) => p,
        Err(e) => {
            return Err(format!("{}", e));
        },
    };
    match tract_onnx::onnx().model_for_proto_model(&proto) {
        Ok(m) => Ok(GraphDraft { inner: m }),
        Err(e) => Err(format!("{}", e)),
    }
}

/// The number of input slots the parsed graph declares: a function of
/// the draft alone.
pub uninterp spec fn draft_input_count(d: GraphDraft) -> nat;

/// Relies on tract's `Graph::inputs` field: reads how many input
/// slots the parsed graph declares.
#[verifier::external_body]
pub(crate) fn input_count(d: &GraphDraft) -> (r: usize)
    ensures
        r as nat == draft_input_count(*d),
{
    d.inner.inputs.len()
}

/// Relies on tract's `Graph::with_input_fact`: declares input slot
/// `slot` of the graph to be a single-precision tensor of shape
/// `shape`.  `set_input_fact` indexes the graph's input list with
/// `slot` unchecked, so the slot must be below the declared count; it
/// rewrites one slot's fact and leaves the input list itself alone,
/// so the count is unchanged.
#[verifier::external_body]
pub(crate) fn declare_input(d: GraphDraft, slot: usize, shape: &Vec<usize>) -> (r: Result<
    GraphDraft,
    String,
>)
    requires
        slot < draft_input_count(d),
    ensures
        r matches Ok(d2) ==> draft_input_count(d2) == draft_input_count(d),
{
    let fact = tract_onnx::prelude::InferenceFact::dt_shape(
        tract_onnx::prelude::DatumType::F32,
        shape.clone(),
    );
    match d.inner.with_input_fact(slot, fact) {
        Ok(m) => Ok(GraphDraft { inner: m }),
        Err(e) => Err(format!("{}", e)),
    }
}

/// Relies on tract's `into_optimized` and `into_runnable`: runs the
/// optimization passes (constant folding, fusion, dead-code
/// elimination) and builds the executable plan.
#[verifier::external_body]
pub(crate) fn optimize_plan(d: GraphDraft) -> (r: Result<CompiledPlan, String>) {
    let typed = match d.inner.into_optimized() {
        Ok(t) => t,
        Err(e) => {
            return Err(format!("{}", e));
        },
    };
    match typed.into_runnable() {
        Ok(p) => Ok(CompiledPlan { inner: p }),
        Err(e) => Err(format!("{}", e)),
    }
}

/// Relies on tract's `Tensor::zero_dt` and `Tensor::as_bytes_mut`, and
/// on `slice::copy_from_slice`: builds a single-precision tensor of
/// the given shape and fills its raw little-endian content with
/// `bytes`.  The length precondition matches the buffer that
/// `zero_dt` allocates (four bytes per element), so the copy cannot
/// panic.  The built tensor holds exactly the given bytes as its
/// single-precision content.
#[verifier::external_body]
pub(crate) fn tensor_from_bytes(shape: &Vec<usize>, bytes: &Vec<u8>) -> (r: Result<
    tract_onnx::prelude::Tensor,
    String,
>)
    requires
        bytes@.len() == 4 * prod(shape@),
    ensures
        r matches Ok(t) ==> tensor_words(t) == words_of_bytes(bytes@),
{
    let mut t = match tract_onnx::prelude::Tensor::zero_dt(
        tract_onnx::prelude::DatumType::F32,
        shape.as_slice(),
    ) {
        Ok(t) => t,
        Err(e) => {
            return Err(format!("{}", e));
        },
    };
    t.as_bytes_mut().copy_from_slice(bytes.as_slice());
    Ok(t)
}

/// Relies on tract's `SimplePlan::run`: executes one forward pass of
/// the compiled plan on the given input tensors, returning the output
/// tensors in the graph's declared output order.  Success and outputs
/// are decided entirely by the plan, so nothing is promised of the
/// result.
#[verifier::external_body]
pub(crate) fn run_plan(plan: &CompiledPlan, inputs: Vec<tract_onnx::prelude::Tensor>) -> (r: Result<
    Vec<tract_onnx::prelude::Tensor>,
    String,
>) {
    let tv: Vec<tract_onnx::prelude::TValue> = inputs.into_iter().map(|t| t.into()).collect();
    match plan.inner.run(tv.into()) {
        Ok(outs) => Ok(outs.into_iter().map(|v| v.into_tensor()).collect()),
        Err(e) => Err(format!("{}", e)),
    }
}

/// Relies on tract's `Tensor::cast_to_dt` and `Tensor::as_bytes`:
/// casts the tensor to single precision and reads its raw content
/// back, four little-endian bytes per element — hence the returned
/// length is a multiple of four and the bytes read as exactly the
/// tensor's single-precision content.
#[verifier::external_body]
pub(crate) fn tensor_to_bytes(t: &tract_onnx::prelude::Tensor) -> (r: Result<Vec<u8>, String>)
    ensures
        r matches Ok(b) ==> b@.len() % 4 == 0 && words_of_bytes(b@) == tensor_words(*t),
{
    match t.cast_to_dt(tract_onnx::prelude::DatumType::F32) {
        Ok(c) => Ok(c.as_bytes().to_vec()),
        Err(e) => Err(format!("{}", e)),
    }
}

/// The message rejecting a parsed graph that declares fewer input
/// slots than the shape contract needs.
pub open spec fn slot_count_msg(declared: nat, needed: nat) -> Seq<char> {
    "graph declares "@ + dec_seq(declared) + " input slots, but the shape contract needs "@
        + dec_seq(needed)
}

/// Rejects a parsed graph that declares fewer input slots than the
/// shape contract needs — the one compilation decision the library
/// makes itself — and otherwise binds the declared shapes slot by
/// slot and optimizes the result into a runnable plan.  Whether the
/// bound graph optimizes is decided by the runtime.
#[verifier::loop_isolation(false)]
pub(crate) fn bind_and_optimize(d: GraphDraft, shapes: &Vec<Vec<usize>>) -> (r: Result<
    CompiledPlan,
    String,
>)
    ensures
        shapes@.len() > draft_input_count(d) ==> (r matches Err(m) && m@ == slot_count_msg(
            draft_input_count(d),
            shapes@.len() as nat,
        )),
        r is Ok ==> shapes@.len() <= draft_input_count(d),
{
    let slot_count = input_count(&d);
    if shapes.len() > slot_count {
        let mut msg = String::new();
        msg.append("graph declares ");
        push_dec(&mut msg, slot_count);
        msg.append(" input slots, but the shape contract needs ");
        push_dec(&mut msg, shapes.len());
        proof {
            assert(msg@ =~= slot_count_msg(draft_input_count(d), shapes@.len() as nat));
        }
        return Err(msg);
    }
    let mut cur = d;
    let mut i: usize = 0;
    while i < shapes.len()
        invariant
            draft_input_count(cur) == slot_count as nat,
        decreases shapes@.len() - i,
    {
        cur = match declare_input(cur, i, &shapes[i]) {
            Ok(d2) => d2,
            Err(e) => {
                return Err(e);
            },
        };
        i = i + 1;
    }
    optimize_plan(cur)
}

} // verus!
