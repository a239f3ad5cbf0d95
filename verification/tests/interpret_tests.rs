use host_ai_model_backend::action::Action;
use host_ai_model_backend::contract::ShapeContract;
use host_ai_model_backend::engine::interpret_outputs;
use host_ai_model_backend::errors::EngineError;

fn bits(xs: &[f32]) -> Vec<u32> {
    xs.iter().map(|x| x.to_bits()).collect()
}

#[test]
fn stateless_pass_needs_one_output() {
    let r = interpret_outputs(vec![], false, 0);
    assert_eq!(r, Err(EngineError::Output { expected: 1, got: 0 }));
}

#[test]
fn recurrent_pass_needs_five_outputs() {
    let r = interpret_outputs(vec![bits(&[0.1, 0.2, 0.3])], true, 3);
    assert_eq!(r, Err(EngineError::Output { expected: 5, got: 1 }));
}

#[test]
fn empty_logit_vector_is_rejected() {
    let r = interpret_outputs(vec![vec![]], false, 0);
    assert_eq!(r, Err(EngineError::NoOutput));
}

#[test]
fn stateless_pass_decodes_first_output() {
    let r = interpret_outputs(vec![bits(&[0.1, 0.9, 0.2])], false, 0);
    let (a, st) = r.unwrap();
    assert_eq!(a, Action::Buy);
    assert!(st.is_none());
}

#[test]
fn recurrent_pass_returns_the_four_state_tensors() {
    let outputs = vec![
        bits(&[0.9, 0.1, 0.2]),
        vec![1, 2],
        vec![3, 4],
        vec![5, 6],
        vec![7, 8],
    ];
    let (a, st) = interpret_outputs(outputs, true, 2).unwrap();
    assert_eq!(a, Action::Hold);
    let st = st.unwrap();
    assert_eq!(*st.part(0), vec![1, 2]);
    assert_eq!(*st.part(1), vec![3, 4]);
    assert_eq!(*st.part(2), vec![5, 6]);
    assert_eq!(*st.part(3), vec![7, 8]);
}

#[test]
fn wrong_state_tensor_length_is_rejected() {
    let outputs = vec![
        bits(&[0.9, 0.1, 0.2]),
        vec![1, 2],
        vec![3],
        vec![5, 6],
        vec![7, 8],
    ];
    let r = interpret_outputs(outputs, true, 2);
    assert_eq!(r, Err(EngineError::StateShape { expected: 2, got: 1 }));
}

#[test]
fn oversized_logit_vector_with_late_maximum_is_rejected() {
    let r = interpret_outputs(vec![bits(&[0.1, 0.2, 0.3, 0.4, 0.9])], false, 0);
    assert_eq!(r, Err(EngineError::Decode { index: 4 }));
}

#[test]
fn contract_rejects_overflowing_shape() {
    let r = ShapeContract::new(vec![usize::MAX, 2], None, None);
    assert!(r.is_none());
}

#[test]
fn contract_accepts_the_deployed_shapes() {
    let c = ShapeContract::new(vec![1, 10, 5], Some(vec![1, 3]), None).unwrap();
    let mut eng = host_ai_model_backend::engine::Engine::new(c);
    // 50 primary values and 3 auxiliary values pass validation and
    // reach the plan check.
    let r = eng.get_action(&vec![0u32; 50], &vec![0u32; 3]);
    assert_eq!(r, Err(EngineError::ModelNotReady));
}
