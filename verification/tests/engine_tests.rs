use host_ai_model_backend::action::Action;
use host_ai_model_backend::contract::ShapeContract;
use host_ai_model_backend::engine::Engine;
use host_ai_model_backend::errors::EngineError;
use prost::Message;
use tract_onnx::pb;

fn field(tag: u8, body: &[u8], out: &mut Vec<u8>) {
    out.push(tag);
    // All bodies in these fixtures are far below 128 bytes, so the
    // protobuf length fits a single varint byte.
    assert!(body.len() < 128);
    out.push(body.len() as u8);
    out.extend_from_slice(body);
}

/// Wire-encodes a `ValueInfoProto` naming a single-precision tensor of
/// the given dimensions, and decodes it back into the prost structure.
fn value_info(name: &str, dims: &[i64]) -> pb::ValueInfoProto {
    let mut shape = Vec::new();
    for &d in dims {
        // Dimension with dim_value = d (one varint byte suffices here).
        assert!((0..128).contains(&d));
        field(0x0a, &[0x08, d as u8], &mut shape);
    }
    // type_proto::Tensor: elem_type = 1 (FLOAT), shape.
    let mut tensor = vec![0x08, 0x01];
    field(0x12, &shape, &mut tensor);
    // TypeProto: tensor_type.
    let mut type_proto = Vec::new();
    field(0x0a, &tensor, &mut type_proto);
    // ValueInfoProto: name, type.
    let mut vi = Vec::new();
    field(0x0a, name.as_bytes(), &mut vi);
    field(0x12, &type_proto, &mut vi);
    pb::ValueInfoProto::decode(vi.as_slice()).unwrap()
}

fn identity_node(name: &str, input: &str, output: &str) -> pb::NodeProto {
    pb::NodeProto {
        input: vec![input.to_string()],
        output: vec![output.to_string()],
        name: name.to_string(),
        op_type: "Identity".to_string(),
        domain: String::new(),
        attribute: vec![],
        doc_string: String::new(),
    }
}

fn model(graph: pb::GraphProto) -> Vec<u8> {
    let m = pb::ModelProto {
        ir_version: 8,
        opset_import: vec![pb::OperatorSetIdProto { domain: String::new(), version: 13 }],
        graph: Some(graph),
        ..Default::default()
    };
    m.encode_to_vec()
}

/// A graph that passes its single `[1, 3]` input straight through to
/// its output: the logits are the input values.
fn passthrough_model() -> Vec<u8> {
    model(pb::GraphProto {
        node: vec![identity_node("n0", "x", "y")],
        name: "passthrough".to_string(),
        input: vec![value_info("x", &[1, 3])],
        output: vec![value_info("y", &[1, 3])],
        ..Default::default()
    })
}

/// A recurrent graph over `[1, 3]` tensors: the logits are the first
/// incoming state tensor, the first outgoing state tensor is the main
/// input, and the remaining three state tensors pass through.
fn recurrent_model() -> Vec<u8> {
    model(pb::GraphProto {
        node: vec![
            identity_node("ny", "s1", "y"),
            identity_node("n1", "x", "t1"),
            identity_node("n2", "s2", "t2"),
            identity_node("n3", "s3", "t3"),
            identity_node("n4", "s4", "t4"),
        ],
        name: "recurrent".to_string(),
        input: vec![
            value_info("x", &[1, 3]),
            value_info("s1", &[1, 3]),
            value_info("s2", &[1, 3]),
            value_info("s3", &[1, 3]),
            value_info("s4", &[1, 3]),
        ],
        output: vec![
            value_info("y", &[1, 3]),
            value_info("t1", &[1, 3]),
            value_info("t2", &[1, 3]),
            value_info("t3", &[1, 3]),
            value_info("t4", &[1, 3]),
        ],
        ..Default::default()
    })
}

fn bits(xs: &[f32]) -> Vec<u32> {
    xs.iter().map(|x| x.to_bits()).collect()
}

fn stateless_engine() -> Engine {
    Engine::new(ShapeContract::new(vec![1, 3], None, None).unwrap())
}

fn recurrent_engine() -> Engine {
    Engine::new(ShapeContract::new(vec![1, 3], None, Some(vec![1, 3])).unwrap())
}

#[test]
fn compile_succeeds_and_inference_becomes_available() {
    let mut eng = stateless_engine();
    let input = bits(&[0.1, 0.2, 0.9]);
    let before = eng.get_action(&input, &vec![]);
    assert_eq!(before, Err(EngineError::ModelNotReady));
    assert_eq!(before.unwrap_err().message(), "Model not initialized".to_string());

    eng.append_model_bytes(&passthrough_model());
    assert_eq!(eng.setup_model(), Ok(()));
    let after = eng.get_action(&input, &vec![]);
    assert_eq!(after, Ok(Action::Sell));
}

#[test]
fn chunked_upload_compiles_like_whole_upload() {
    let mut eng = stateless_engine();
    let bytes = passthrough_model();
    let (first, second) = bytes.split_at(bytes.len() / 2);
    eng.append_model_bytes(&first.to_vec());
    eng.append_model_bytes(&second.to_vec());
    assert_eq!(eng.setup_model(), Ok(()));
    assert_eq!(eng.get_action(&bits(&[0.9, 0.1, 0.2]), &vec![]), Ok(Action::Hold));
}

#[test]
fn failed_recompile_keeps_previous_plan_usable() {
    let mut eng = stateless_engine();
    eng.append_model_bytes(&passthrough_model());
    assert_eq!(eng.setup_model(), Ok(()));

    // Corrupt byte sequence: compilation must fail ...
    eng.clear_model_bytes();
    eng.append_model_bytes(&vec![1, 2, 3, 4, 5]);
    let r = eng.setup_model();
    assert!(r.is_err());
    assert!(r.unwrap_err().message().starts_with("Failed to compile model: "));

    // ... and the previously compiled plan still serves inference.
    assert_eq!(eng.get_action(&bits(&[0.1, 0.9, 0.2]), &vec![]), Ok(Action::Buy));
}

#[test]
fn wrong_input_length_is_rejected_before_anything_runs() {
    let mut eng = Engine::new(ShapeContract::new(vec![1, 8], None, Some(vec![1, 3])).unwrap());
    let state_before = eng.current_state();
    let r = eng.get_action(&bits(&[0.1, 0.2, 0.3, 0.4, 0.5]), &vec![]);
    assert_eq!(r, Err(EngineError::InputShape { expected: 8, got: 5 }));
    assert_eq!(r.unwrap_err().message(), "Expected 8 input values, got 5".to_string());
    // The recurrent state is untouched by the failed call.
    let state_after = eng.current_state();
    for i in 0..4 {
        assert_eq!(state_before.part(i), state_after.part(i));
        assert_eq!(*state_after.part(i), vec![0u32, 0, 0]);
    }
}

#[test]
fn wrong_aux_length_is_rejected() {
    let mut eng = Engine::new(ShapeContract::new(vec![1, 10, 5], Some(vec![1, 3]), None).unwrap());
    let r = eng.get_action(&bits(&[0.0; 50]), &bits(&[0.0; 2]));
    assert_eq!(r, Err(EngineError::AuxShape { expected: 3, got: 2 }));
    assert_eq!(r.unwrap_err().message(), "Expected 3 auxiliary values, got 2".to_string());
}

#[test]
fn recurrent_state_is_carried_and_reset_restores_fresh_behaviour() {
    let mut eng = recurrent_engine();
    eng.append_model_bytes(&recurrent_model());
    assert_eq!(eng.setup_model(), Ok(()));

    let input = bits(&[0.0, 1.0, 0.5]);

    // Fresh state is all-zero, so the logits (the incoming state) tie
    // and decode to Hold; the call commits the input as new state.
    let first = eng.get_action(&input, &vec![]);
    assert_eq!(first, Ok(Action::Hold));
    assert_eq!(*eng.current_state().part(0), input);

    // Same input again: the carried state now decides, and differs.
    let second = eng.get_action(&input, &vec![]);
    assert_eq!(second, Ok(Action::Buy));

    // After a reset the same call behaves like a fresh first call.
    eng.reset_state();
    assert_eq!(*eng.current_state().part(0), vec![0u32, 0, 0]);
    let third = eng.get_action(&input, &vec![]);
    assert_eq!(third, Ok(Action::Hold));
}

#[test]
fn reset_state_zeroes_every_tensor() {
    let mut eng = recurrent_engine();
    eng.append_model_bytes(&recurrent_model());
    assert_eq!(eng.setup_model(), Ok(()));
    let input = bits(&[0.25, -1.0, 3.5]);
    assert_eq!(eng.get_action(&input, &vec![]), Ok(Action::Hold));
    eng.reset_state();
    let st = eng.current_state();
    for i in 0..4 {
        assert_eq!(*st.part(i), vec![0u32, 0, 0]);
    }
}

#[test]
fn graph_with_too_few_input_slots_is_a_compile_error() {
    // A recurrent contract needs five input slots, but the uploaded
    // graph declares one: setup_model must return a compilation
    // error, not trap.
    let mut eng = recurrent_engine();
    eng.append_model_bytes(&passthrough_model());
    let r = eng.setup_model();
    assert!(r.is_err());
    let msg = r.unwrap_err().message();
    assert_eq!(
        msg,
        "Failed to compile model: graph declares 1 input slots, but the shape contract needs 5"
            .to_string()
    );
    // No plan was ever installed.
    assert_eq!(
        eng.get_action(&bits(&[0.0, 0.0, 0.0]), &vec![]),
        Err(EngineError::ModelNotReady)
    );
}

#[test]
fn clearing_bytes_alone_keeps_serving_the_old_plan() {
    let mut eng = stateless_engine();
    eng.append_model_bytes(&passthrough_model());
    assert_eq!(eng.setup_model(), Ok(()));
    eng.clear_model_bytes();
    assert_eq!(eng.model_bytes(), Vec::<u8>::new());
    assert_eq!(eng.get_action(&bits(&[0.3, 0.2, 0.1]), &vec![]), Ok(Action::Hold));
}
