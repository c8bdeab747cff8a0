use rkllm_shell::session::{classify_state, decimal_string, trampoline_step, FragmentPayload,
    LlmCallState, Session, RUN_ERROR_STATE, RUN_FINISH_STATE, RUN_NORMAL_STATE, RUN_WAITING_STATE};
use rkllm_shell::rkllm_runtime::{RkllmModel, RkllmRuntime, RuntimeError, ThreadSafeLLMHandle};

fn text(s: &str) -> FragmentPayload {
    FragmentPayload::Text(s.to_string())
}

#[test]
fn classify_maps_each_native_state() {
    assert_eq!(classify_state(RUN_NORMAL_STATE), LlmCallState::Normal);
    assert_eq!(classify_state(RUN_WAITING_STATE), LlmCallState::Waiting);
    assert_eq!(classify_state(RUN_FINISH_STATE), LlmCallState::Finish);
    assert_eq!(classify_state(RUN_ERROR_STATE), LlmCallState::Error);
    assert_eq!(classify_state(99), LlmCallState::Unknown(99));
    assert_eq!(classify_state(-1), LlmCallState::Unknown(-1));
}

#[test]
fn single_release_over_a_full_sequence() {
    let mut s = Session::new();
    RkllmRuntime::llm_result_callback(&mut s, text("Hel"), RUN_NORMAL_STATE);
    RkllmRuntime::llm_result_callback(&mut s, text("lo"), RUN_NORMAL_STATE);
    RkllmRuntime::llm_result_callback(&mut s, text(""), RUN_WAITING_STATE);
    RkllmRuntime::llm_result_callback(&mut s, text(""), RUN_FINISH_STATE);
    assert_eq!(s.releases, 1);
    assert!(!s.live);
    assert_eq!(s.queue, vec!["Hel".to_string(), "lo".to_string()]);
}

#[test]
fn no_delivery_after_close() {
    let mut s = Session::new();
    RkllmRuntime::llm_result_callback(&mut s, text("Hel"), RUN_NORMAL_STATE);
    RkllmRuntime::llm_result_callback(&mut s, text(""), RUN_FINISH_STATE);
    assert_eq!(s.releases, 1);
    RkllmRuntime::llm_result_callback(&mut s, text("late"), RUN_NORMAL_STATE);
    RkllmRuntime::llm_result_callback(&mut s, text(""), RUN_ERROR_STATE);
    assert_eq!(s.queue, vec!["Hel".to_string()]);
    assert_eq!(s.releases, 1);
    assert!(!s.live);
}

#[test]
fn fragments_arrive_in_order() {
    let mut s = Session::new();
    RkllmRuntime::llm_result_callback(&mut s, text("Hel"), RUN_NORMAL_STATE);
    RkllmRuntime::llm_result_callback(&mut s, text("lo"), RUN_NORMAL_STATE);
    RkllmRuntime::llm_result_callback(&mut s, text(" world"), RUN_NORMAL_STATE);
    RkllmRuntime::llm_result_callback(&mut s, text(""), RUN_FINISH_STATE);
    let mut stream = s.into_stream();
    assert_eq!(stream.next(), Some("Hel".to_string()));
    assert_eq!(stream.next(), Some("lo".to_string()));
    assert_eq!(stream.next(), Some(" world".to_string()));
    assert_eq!(stream.next(), None);
    assert_eq!(stream.next(), None);
}

#[test]
fn fragments_concatenate_in_order() {
    let mut s = Session::new();
    RkllmRuntime::llm_result_callback(&mut s, text("Hel"), RUN_NORMAL_STATE);
    RkllmRuntime::llm_result_callback(&mut s, text("lo"), RUN_NORMAL_STATE);
    RkllmRuntime::llm_result_callback(&mut s, text(" world"), RUN_NORMAL_STATE);
    RkllmRuntime::llm_result_callback(&mut s, text(""), RUN_FINISH_STATE);
    let mut stream = s.into_stream();
    assert_eq!(stream.collect_remaining(), "Hello world");
    assert_eq!(stream.collect_remaining(), "");
}

#[test]
fn undecodable_text_yields_one_placeholder_and_continues() {
    let mut s = Session::new();
    RkllmRuntime::llm_result_callback(&mut s, FragmentPayload::Undecodable, RUN_NORMAL_STATE);
    assert_eq!(s.queue, vec!["[INVALID_UTF8]".to_string()]);
    assert!(s.live);
    assert_eq!(s.releases, 0);
    RkllmRuntime::llm_result_callback(&mut s, text("ok"), RUN_NORMAL_STATE);
    assert_eq!(s.queue, vec!["[INVALID_UTF8]".to_string(), "ok".to_string()]);
}

#[test]
fn missing_result_and_text_yield_placeholders() {
    let mut s = Session::new();
    RkllmRuntime::llm_result_callback(&mut s, FragmentPayload::MissingResult, RUN_NORMAL_STATE);
    RkllmRuntime::llm_result_callback(&mut s, FragmentPayload::MissingText, RUN_NORMAL_STATE);
    assert_eq!(s.queue, vec!["[NULL_RESULT]".to_string(), "[NULL_TEXT]".to_string()]);
    assert!(s.live);
}

#[test]
fn engine_error_forwards_placeholder_and_terminates() {
    let mut s = Session::new();
    RkllmRuntime::llm_result_callback(&mut s, text(""), RUN_ERROR_STATE);
    assert_eq!(s.queue, vec!["[ERROR]".to_string()]);
    assert!(!s.live);
    assert_eq!(s.releases, 1);
}

#[test]
fn unrecognized_state_forwards_placeholder_and_terminates() {
    let mut s = Session::new();
    RkllmRuntime::llm_result_callback(&mut s, text("ignored"), 42);
    assert_eq!(s.queue, vec!["[UNKNOWN_STATE_42]".to_string()]);
    assert!(!s.live);
    assert_eq!(s.releases, 1);
}

#[test]
fn unrecognized_negative_state_keeps_its_sign() {
    let mut s = Session::new();
    RkllmRuntime::llm_result_callback(&mut s, text("ignored"), -1);
    assert_eq!(s.queue, vec!["[UNKNOWN_STATE_-1]".to_string()]);
    assert!(!s.live);
    assert_eq!(s.releases, 1);
}

#[test]
fn decimal_rendering_is_exact() {
    assert_eq!(decimal_string(0), "0");
    assert_eq!(decimal_string(7), "7");
    assert_eq!(decimal_string(10), "10");
    assert_eq!(decimal_string(99), "99");
    assert_eq!(decimal_string(120534), "120534");
    assert_eq!(decimal_string(-8), "-8");
    assert_eq!(decimal_string(-120534), "-120534");
    assert_eq!(decimal_string(i32::MAX), "2147483647");
    assert_eq!(decimal_string(i32::MIN), "-2147483648");
}

#[test]
fn empty_normal_fragment_is_not_forwarded() {
    let e = trampoline_step(LlmCallState::Normal, text(""));
    assert_eq!(e.forward, None);
    assert!(!e.terminal);
    let e = trampoline_step(LlmCallState::Waiting, text("x"));
    assert_eq!(e.forward, None);
    assert!(!e.terminal);
    let e = trampoline_step(LlmCallState::Finish, text("x"));
    assert_eq!(e.forward, None);
    assert!(e.terminal);
}

#[test]
fn rejected_run_call_releases_exactly_once() {
    let model = RkllmModel { handle: ThreadSafeLLMHandle::new(7) };
    let (prompt, mut session) = model.prepare_run(&vec!["a".to_string(), "b".to_string()]);
    assert_eq!(prompt, "a\nb");
    let r = RkllmModel::complete_run_start(&mut session, -3);
    assert_eq!(r, Err(RuntimeError::InvocationFailed(-3)));
    assert!(!session.live);
    assert_eq!(session.releases, 1);
}

#[test]
fn accepted_run_call_leaves_the_session_to_the_trampoline() {
    let model = RkllmModel { handle: ThreadSafeLLMHandle::new(7) };
    let (prompt, mut session) = model.prepare_run(&vec!["hi".to_string()]);
    assert_eq!(prompt, "hi");
    let r = RkllmModel::complete_run_start(&mut session, 0);
    assert_eq!(r, Ok(()));
    assert!(session.live);
    assert_eq!(session.releases, 0);
}
