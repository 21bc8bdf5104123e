use eval_server::{
    accept_body, conclude, extract_scalar, to_input_tensor, EncodeError, OutputTypeError, Config, RawOutput, Reply,
    RequestError, Step, DEFAULT_LISTEN_ADDR, DEFAULT_MODEL_PATH, STATUS_BAD_REQUEST,
    STATUS_INTERNAL_ERROR, STATUS_OK, ZERO_BITS,
};

fn bits(values: &[f32]) -> Vec<u32> {
    values.iter().map(|v| v.to_bits()).collect()
}

#[test]
fn valid_request_goes_to_model_and_is_scored() {
    let features = bits(&[0.9, 0.75, 0.12, 0.40, 1.23, 0.98]);
    match accept_body(Ok(features.clone())) {
        Step::Infer(t) => {
            assert_eq!(t.rows(), 1);
            assert_eq!(t.cols(), 6);
            assert_eq!(t.data(), &features);
        }
        Step::Respond(r) => panic!("unexpected reply {:?}", r),
    }
    let reply = conclude(Ok(RawOutput::Floats(bits(&[0.73]))));
    assert_eq!(reply, Reply::Scored(0.73f32.to_bits()));
    assert_eq!(reply.status(), STATUS_OK);
    assert_eq!(STATUS_OK, 200);
}

#[test]
fn empty_features_are_bad_request() {
    match accept_body(Ok(Vec::new())) {
        Step::Respond(reply) => {
            assert_eq!(reply, Reply::Failed(RequestError::EmptyFeatures));
            assert_eq!(reply.status(), 400);
            if let Reply::Failed(e) = reply {
                assert_eq!(e.headline(), "features cannot be empty");
                assert_eq!(e.reason(), None);
                assert_eq!(e.message(), "features cannot be empty");
            }
        }
        Step::Infer(_) => panic!("an empty feature list reached the model"),
    }
}

#[test]
fn malformed_body_is_bad_request() {
    let reason = "features: invalid type: string \"not-an-array\", expected a sequence".to_string();
    match accept_body(Err(reason.clone())) {
        Step::Respond(reply) => {
            assert_eq!(reply.status(), STATUS_BAD_REQUEST);
            assert_eq!(reply, Reply::Failed(RequestError::Parse(reason.clone())));
            if let Reply::Failed(e) = reply {
                assert_eq!(e.reason(), Some(&reason));
            }
        }
        Step::Infer(_) => panic!("a malformed body reached the model"),
    }
    match accept_body(Err("EOF while parsing a list at line 1 column 15".to_string())) {
        Step::Respond(reply) => assert_eq!(reply.status(), 400),
        Step::Infer(_) => panic!("a truncated body reached the model"),
    }
}

#[test]
fn tensor_has_one_row_of_the_features() {
    for n in [1usize, 2, 7, 64] {
        let features: Vec<u32> = (0..n as u32).map(|i| (i as f32 * 0.5 - 3.0).to_bits()).collect();
        let t = to_input_tensor(features.clone()).unwrap();
        assert_eq!(t.rows(), 1);
        assert_eq!(t.cols(), n);
        for i in 0..n {
            assert_eq!(t.data()[i], features[i]);
        }
    }
}

#[test]
fn encoding_an_empty_vector_fails() {
    assert_eq!(to_input_tensor(Vec::new()).unwrap_err(), EncodeError::Empty);
}

#[test]
fn values_pass_through_unchanged() {
    let features = bits(&[-0.0, f32::MAX, f32::MIN_POSITIVE, 1e-40]);
    let t = to_input_tensor(features.clone()).unwrap();
    assert_eq!(t.data(), &features);
    assert_eq!(f32::from_bits(t.data()[0]).to_bits(), (-0.0f32).to_bits());
}

#[test]
fn score_is_first_element() {
    let out = RawOutput::Floats(bits(&[0.25, 0.75]));
    assert_eq!(extract_scalar(&out), Ok(0.25f32.to_bits()));
}

#[test]
fn empty_output_scores_zero() {
    let reply = conclude(Ok(RawOutput::Floats(Vec::new())));
    assert_eq!(reply, Reply::Scored(ZERO_BITS));
    assert_eq!(f32::from_bits(ZERO_BITS), 0.0);
    assert_eq!(reply.status(), 200);
}

#[test]
fn unreadable_output_is_internal_error() {
    let reply = conclude(Ok(RawOutput::Unreadable("expected f32, got i64".to_string())));
    assert_eq!(reply, Reply::Failed(RequestError::OutputType("expected f32, got i64".to_string())));
    assert_eq!(reply.status(), STATUS_INTERNAL_ERROR);
    assert_eq!(STATUS_INTERNAL_ERROR, 500);
}

#[test]
fn inference_failure_is_internal_error() {
    let reply = conclude(Err("input rank mismatch".to_string()));
    assert_eq!(reply, Reply::Failed(RequestError::Inference("input rank mismatch".to_string())));
    assert_eq!(reply.status(), 500);
    if let Reply::Failed(e) = reply {
        assert_eq!(e.headline(), "inference error: ");
        assert_eq!(e.message(), "inference error: input rank mismatch");
    }
}

#[test]
fn shape_failure_is_bad_request() {
    let e = RequestError::Shape("incompatible shapes".to_string());
    assert_eq!(e.status(), 400);
    assert_eq!(e.headline(), "bad features shape: ");
    assert_eq!(e.message(), "bad features shape: incompatible shapes");
}

#[test]
fn same_output_gives_same_score() {
    let a = conclude(Ok(RawOutput::Floats(bits(&[0.6180339]))));
    let b = conclude(Ok(RawOutput::Floats(bits(&[0.6180339]))));
    assert_eq!(a, b);
}

#[test]
fn distinct_requests_keep_their_own_features() {
    let xs = bits(&[1.0, 2.0]);
    let ys = bits(&[3.0, 4.0, 5.0]);
    let (tx, ty) = match (accept_body(Ok(xs.clone())), accept_body(Ok(ys.clone()))) {
        (Step::Infer(a), Step::Infer(b)) => (a, b),
        _ => panic!("valid requests were refused"),
    };
    assert_eq!(tx.data(), &xs);
    assert_eq!(ty.data(), &ys);
    assert_eq!(conclude(Ok(RawOutput::Floats(bits(&[0.1])))), Reply::Scored(0.1f32.to_bits()));
    assert_eq!(conclude(Ok(RawOutput::Floats(bits(&[0.9])))), Reply::Scored(0.9f32.to_bits()));
}

#[test]
fn config_defaults() {
    let c = Config::resolve(None, None);
    assert_eq!(c.model_path, "tiny_mlp_evaluator.onnx");
    assert_eq!(c.listen_addr, "0.0.0.0:8080");
    assert_eq!(DEFAULT_MODEL_PATH, "tiny_mlp_evaluator.onnx");
    assert_eq!(DEFAULT_LISTEN_ADDR, "0.0.0.0:8080");
}

#[test]
fn config_takes_given_values() {
    let c = Config::resolve(Some("./m.onnx".to_string()), Some("127.0.0.1:9000".to_string()));
    assert_eq!(c.model_path, "./m.onnx");
    assert_eq!(c.listen_addr, "127.0.0.1:9000");
}

#[test]
fn unreadable_output_is_an_output_type_error() {
    let out = RawOutput::Unreadable("not a float tensor".to_string());
    assert_eq!(extract_scalar(&out), Err(OutputTypeError("not a float tensor".to_string())));
}
