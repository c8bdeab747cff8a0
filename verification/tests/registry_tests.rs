use rkllm_shell::api_models::{ChatCompletionRequest, ChatCompletionRequestMessage,
    GenerateRequest, ModelOptions, Role};
use rkllm_shell::rkllm_runtime::{build_init_params, build_run_params, CompletionRequest,
    ModelResolution, RkllmRuntime, RuntimeError, ThreadSafeLLMHandle, INFER_GENERATE_MODE};

fn options(temperature_bits: u32) -> ModelOptions {
    ModelOptions {
        num_ctx: 2048,
        repeat_last_n: 64,
        repeat_penalty_bits: 1.1f32.to_bits(),
        temperature_bits,
        seed: 0,
        stop: vec![],
        num_predict: -1,
        top_k: 40,
        top_p_bits: 0.9f32.to_bits(),
        min_p_bits: 0.0f32.to_bits(),
    }
}

fn generate_request(model: &str, opts: ModelOptions) -> CompletionRequest {
    CompletionRequest::Generate(GenerateRequest {
        model: model.to_string(),
        prompt: "hello".to_string(),
        suffix: String::new(),
        system: String::new(),
        template: String::new(),
        context: vec![],
        stream: false,
        raw: false,
        options: opts,
        format: None,
        keep_alive: 300,
        think: false,
        images: None,
    })
}

fn chat_request(model: &str, opts: ModelOptions) -> CompletionRequest {
    CompletionRequest::Chat(ChatCompletionRequest {
        messages: vec![ChatCompletionRequestMessage {
            content: "hello".to_string(),
            role: Role::User,
            thunking: None,
            images: None,
        }],
        model: model.to_string(),
        options: opts,
        format: None,
        stream: false,
        keep_alive: 300,
    })
}

#[test]
fn equal_requests_share_a_signature() {
    let r1 = generate_request("m1", options(0.8f32.to_bits()));
    let r2 = chat_request("m1", options(0.8f32.to_bits()));
    let k1 = RkllmRuntime::parse_request_model_key(&r1);
    let k2 = RkllmRuntime::parse_request_model_key(&r2);
    assert!(k1.key_eq(&k2));
}

#[test]
fn equal_requests_resolve_to_the_same_instance() {
    let mut rt = RkllmRuntime::new();
    let r1 = generate_request("m1", options(0.8f32.to_bits()));
    let r2 = chat_request("m1", options(0.8f32.to_bits()));
    let key = match rt.get_request_model(&r1) {
        ModelResolution::RequiresInit(k) => k,
        ModelResolution::Ready(_) => panic!("empty registry served an instance"),
    };
    let m1 = rt.apply_init_result(key, Ok(0x1000)).unwrap();
    let m2 = match rt.get_request_model(&r2) {
        ModelResolution::Ready(m) => m,
        ModelResolution::RequiresInit(_) => panic!("cached signature was not served"),
    };
    assert_eq!(m1, m2);
    assert_eq!(m2.handle.as_llm_handle(), 0x1000);
}

#[test]
fn changing_one_option_changes_the_signature() {
    let r1 = generate_request("m1", options(0.8f32.to_bits()));
    let r2 = generate_request("m1", options(0.9f32.to_bits()));
    let k1 = RkllmRuntime::parse_request_model_key(&r1);
    let k2 = RkllmRuntime::parse_request_model_key(&r2);
    assert!(!k1.key_eq(&k2));
}

#[test]
fn changed_option_gets_its_own_instance() {
    let mut rt = RkllmRuntime::new();
    let r1 = generate_request("m1", options(0.8f32.to_bits()));
    let r2 = generate_request("m1", options(0.9f32.to_bits()));
    let k1 = match rt.get_request_model(&r1) {
        ModelResolution::RequiresInit(k) => k,
        ModelResolution::Ready(_) => panic!("empty registry served an instance"),
    };
    rt.apply_init_result(k1, Ok(0x1000)).unwrap();
    let k2 = match rt.get_request_model(&r2) {
        ModelResolution::RequiresInit(k) => k,
        ModelResolution::Ready(_) => panic!("distinct signature reused an instance"),
    };
    let m2 = rt.apply_init_result(k2, Ok(0x2000)).unwrap();
    assert_eq!(m2.handle.as_llm_handle(), 0x2000);
    match rt.get_request_model(&r1) {
        ModelResolution::Ready(m) => assert_eq!(m.handle.as_llm_handle(), 0x1000),
        ModelResolution::RequiresInit(_) => panic!("first signature lost its instance"),
    }
}

#[test]
fn differing_stop_lists_differ() {
    let mut o1 = options(0.8f32.to_bits());
    o1.stop = vec!["a".to_string(), "b".to_string()];
    let mut o2 = options(0.8f32.to_bits());
    o2.stop = vec!["a".to_string(), "c".to_string()];
    let k1 = RkllmRuntime::parse_request_model_key(&generate_request("m1", o1));
    let k2 = RkllmRuntime::parse_request_model_key(&generate_request("m1", o2));
    assert!(!k1.key_eq(&k2));
}

#[test]
fn failed_init_caches_nothing() {
    let mut rt = RkllmRuntime::new();
    let r = generate_request("m1", options(0.8f32.to_bits()));
    let key = match rt.get_request_model(&r) {
        ModelResolution::RequiresInit(k) => k,
        ModelResolution::Ready(_) => panic!("empty registry served an instance"),
    };
    let outcome = rt.apply_init_result(key, Err(-7));
    assert_eq!(outcome, Err(RuntimeError::InitializationFailed(-7)));
    assert!(rt.running_models.is_empty());
    match rt.get_request_model(&r) {
        ModelResolution::RequiresInit(_) => {},
        ModelResolution::Ready(_) => panic!("a failed initialization was cached"),
    }
}

#[test]
fn one_signature_initializes_once_across_many_requests() {
    let mut rt = RkllmRuntime::new();
    let mut inits = 0;
    let mut served = 0;
    for _ in 0..50 {
        let r = generate_request("m1", options(0.8f32.to_bits()));
        match rt.get_request_model(&r) {
            ModelResolution::Ready(m) => {
                assert_eq!(m.handle.as_llm_handle(), 0x1000);
                served += 1;
            },
            ModelResolution::RequiresInit(k) => {
                inits += 1;
                let m = rt.apply_init_result(k, Ok(0x1000)).unwrap();
                assert_eq!(m.handle.as_llm_handle(), 0x1000);
                served += 1;
            },
        }
    }
    assert_eq!(inits, 1);
    assert_eq!(served, 50);
}

#[test]
fn init_params_carry_the_options() {
    let o = options(0.8f32.to_bits());
    let p = build_init_params("/models/m1.rkllm".to_string(), &o);
    assert_eq!(p.model_path, "/models/m1.rkllm");
    assert_eq!(p.top_k, 40);
    assert_eq!(p.top_p_bits, 0.9f32.to_bits());
    assert_eq!(p.temperature_bits, 0.8f32.to_bits());
    assert_eq!(p.repeat_penalty_bits, 1.1f32.to_bits());
    assert_eq!(f32::from_bits(p.frequency_penalty_bits), 0.0);
    assert_eq!(f32::from_bits(p.presence_penalty_bits), 0.0);
    assert_eq!(p.max_new_tokens, -1);
    assert_eq!(p.max_context_len, 2048);
    assert!(p.skip_special_token);
    assert_eq!(p.base_domain_id, 0);
    assert_eq!(p.embed_flash, 1);
}

#[test]
fn run_params_are_the_fixed_configuration() {
    let p = build_run_params();
    assert_eq!(p.mode, INFER_GENERATE_MODE);
    assert_eq!(p.mode, 0);
    assert!(!p.keep_history);
    assert!(!p.use_prompt_cache);
    assert!(!p.use_lora);
}

#[test]
fn model_path_is_the_fixed_location() {
    let rt = RkllmRuntime::new();
    assert_eq!(
        rt.get_model_path("m1"),
        "/home/vanko/models/DeepSeek-R1-Distill-Qwen-1.5B_W8A8_RK3588.rkllm"
    );
}

#[test]
fn handle_wrapper_returns_its_value() {
    let h = ThreadSafeLLMHandle::new(0xDEAD);
    assert_eq!(h.as_llm_handle(), 0xDEAD);
}
