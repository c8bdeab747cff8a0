use rkllm_shell::defaults::{default_context_window, default_embed_truncation, default_keep_alive,
    default_min_p_bits, default_num_predict, default_raw, default_repeat_last_n,
    default_repeat_penalty_bits, default_seed, default_stop, default_stream,
    default_temperature_bits, default_think, default_top_k, default_top_p_bits};
use rkllm_shell::api_models::default_model_options;

#[test]
fn default_values_are_exact() {
    assert_eq!(default_context_window(), 2048);
    assert_eq!(default_repeat_last_n(), 64);
    assert_eq!(default_seed(), 0);
    assert_eq!(default_num_predict(), -1);
    assert_eq!(default_top_k(), 40);
    assert_eq!(default_keep_alive(), 300);
    assert!(default_stop().is_empty());
    assert!(!default_stream());
    assert!(!default_raw());
    assert!(!default_think());
    assert!(!default_embed_truncation());
}

#[test]
fn default_bit_patterns_match_their_binary32_values() {
    assert_eq!(default_repeat_penalty_bits(), 1.1f32.to_bits());
    assert_eq!(default_temperature_bits(), 0.8f32.to_bits());
    assert_eq!(default_top_p_bits(), 0.9f32.to_bits());
    assert_eq!(default_min_p_bits(), 0.0f32.to_bits());
}

#[test]
fn default_options_use_the_defaults() {
    let o = default_model_options();
    assert_eq!(o.num_ctx, 2048);
    assert_eq!(o.repeat_last_n, 64);
    assert_eq!(o.repeat_penalty_bits, 1.1f32.to_bits());
    assert_eq!(o.temperature_bits, 0.8f32.to_bits());
    assert_eq!(o.seed, 0);
    assert!(o.stop.is_empty());
    assert_eq!(o.num_predict, -1);
    assert_eq!(o.top_k, 40);
    assert_eq!(o.top_p_bits, 0.9f32.to_bits());
    assert_eq!(o.min_p_bits, 0.0f32.to_bits());
}
