//! Request and response shapes of the service layer, and the sampling
//! options that feed engine initialization.
//!
//! The four options that the native engine takes as binary32 values
//! (repetition penalty, temperature, top-p, min-p) are carried as their
//! raw bit patterns: the bridge never computes with them, it only passes
//! them through and folds them into the configuration signature, so the
//! bit pattern is exactly the information that matters.

use vstd::prelude::*;
use crate::defaults::{default_context_window, default_min_p_bits, default_num_predict,
    default_repeat_last_n, default_repeat_penalty_bits, default_seed, default_stop,
    default_temperature_bits, default_top_k, default_top_p_bits};

verus! {

/// Latency tier requested for processing.
#[derive(Clone, Copy, Debug, PartialEq, Eq, Structural)]
pub enum ServiceTier {
    Auto,
    Default,
    Flex,
}

/// Author of one conversation message.
#[derive(Clone, Copy, Debug, PartialEq, Eq, Structural)]
pub enum Role {
    System,
    User,
    Assistant,
    Tool,
}

/// One turn of a conversation.
#[derive(Clone, Debug)]
pub struct ChatCompletionRequestMessage {
    /// The message text.
    pub content: String,
    /// Who authored the message.
    pub role: Role,
    /// For thinking models, the model's thinking process.
    pub thunking: Option<String>,
    /// Optional images for multimodal models.
    pub images: Option<Vec<Vec<i32>>>,
}

/// Every sampling parameter that affects native initialization.
#[derive(Clone, Debug)]
pub struct ModelOptions {
    /// Context window size used to generate the next token.
    pub num_ctx: i32,
    /// How far back the model looks to prevent repetition.
    pub repeat_last_n: i32,
    /// Bit pattern of the repetition penalty (a binary32 value).
    pub repeat_penalty_bits: u32,
    /// Bit pattern of the sampling temperature (a binary32 value).
    pub temperature_bits: u32,
    /// Random number seed for generation.
    pub seed: i32,
    /// Stop sequences that end generation when encountered.
    pub stop: Vec<String>,
    /// Maximum number of tokens to predict (-1: unbounded).
    pub num_predict: i32,
    /// Top-k sampling cutoff.
    pub top_k: i32,
    /// Bit pattern of the top-p cutoff (a binary32 value).
    pub top_p_bits: u32,
    /// Bit pattern of the min-p cutoff (a binary32 value).
    pub min_p_bits: u32,
}

/// Mathematical value of a set of sampling options.
#[verifier::ext_equal]
pub ghost struct OptionsV {
    pub num_ctx: int,
    pub repeat_last_n: int,
    pub repeat_penalty_bits: int,
    pub temperature_bits: int,
    pub seed: int,
    pub stop: Seq<Seq<char>>,
    pub num_predict: int,
    pub top_k: int,
    pub top_p_bits: int,
    pub min_p_bits: int,
}

impl View for ModelOptions {
    type V = OptionsV;

    open spec fn view(&self) -> OptionsV {
        OptionsV {
            num_ctx: self.num_ctx as int,
            repeat_last_n: self.repeat_last_n as int,
            repeat_penalty_bits: self.repeat_penalty_bits as int,
            temperature_bits: self.temperature_bits as int,
            seed: self.seed as int,
            stop: crate::session::texts_of(self.stop@),
            num_predict: self.num_predict as int,
            top_k: self.top_k as int,
            top_p_bits: self.top_p_bits as int,
            min_p_bits: self.min_p_bits as int,
        }
    }
}

/// The options a request gets when it sets none of its own.
pub open spec fn spec_default_options() -> OptionsV {
    OptionsV {
        num_ctx: 2048,
        repeat_last_n: 64,
        repeat_penalty_bits: 0x3F8CCCCD,
        temperature_bits: 0x3F4CCCCD,
        seed: 0,
        stop: Seq::empty(),
        num_predict: -1,
        top_k: 40,
        top_p_bits: 0x3F666666,
        min_p_bits: 0,
    }
}

/// Builds the options a request gets when it sets none of its own.
pub fn default_model_options() -> (r: ModelOptions)
    ensures
        r@ == spec_default_options(),
{
    let r = ModelOptions {
        num_ctx: default_context_window(),
        repeat_last_n: default_repeat_last_n(),
        repeat_penalty_bits: default_repeat_penalty_bits(),
        temperature_bits: default_temperature_bits(),
        seed: default_seed(),
        stop: default_stop(),
        num_predict: default_num_predict(),
        top_k: default_top_k(),
        top_p_bits: default_top_p_bits(),
        min_p_bits: default_min_p_bits(),
    };
    proof {
        assert(r@ =~= spec_default_options());
    }
    r
}

/// A multi-turn completion request.
#[derive(Clone, Debug)]
pub struct ChatCompletionRequest {
    /// The conversation so far.
    pub messages: Vec<ChatCompletionRequestMessage>,
    /// Model identifier.
    pub model: String,
    /// Sampling options.
    pub options: ModelOptions,
    /// Optional response format description, passed through verbatim.
    pub format: Option<String>,
    /// Whether the response streams.
    pub stream: bool,
    /// Seconds the model stays loaded after this request.
    pub keep_alive: u64,
}

/// A single-prompt completion request.
#[derive(Clone, Debug)]
pub struct GenerateRequest {
    /// Model identifier.
    pub model: String,
    /// The prompt text.
    pub prompt: String,
    /// Text appended after the generated output.
    pub suffix: String,
    /// System instructions.
    pub system: String,
    /// Prompt template.
    pub template: String,
    /// Context carried over from an earlier request.
    pub context: Vec<i32>,
    /// Whether the response streams.
    pub stream: bool,
    /// Whether the prompt is passed through raw.
    pub raw: bool,
    /// Sampling options.
    pub options: ModelOptions,
    /// Optional response format description, passed through verbatim.
    pub format: Option<String>,
    /// Seconds the model stays loaded after this request.
    pub keep_alive: u64,
    /// Whether thinking output is requested.
    pub think: bool,
    /// Optional images for multimodal models.
    pub images: Option<Vec<Vec<i32>>>,
}

/// A request to pull a model.
#[derive(Clone, Debug)]
pub struct PullRequest {
    /// Model identifier.
    pub model: String,
    /// Whether progress streams.
    pub stream: bool,
}

/// Progress of a long-running model operation.
#[derive(Clone, Debug)]
pub struct ProgressResponse {
    /// Human-readable status.
    pub status: String,
    /// Digest of the artifact being transferred.
    pub digest: String,
    /// Total bytes to transfer.
    pub total: i64,
    /// Bytes transferred so far.
    pub completed: i64,
}

/// Input of an embedding request: one text or several.
#[derive(Clone, Debug)]
pub enum EmbedInput {
    /// A single text to embed.
    Single(String),
    /// Several texts to embed.
    Multiple(Vec<String>),
}

/// A request to embed one or more texts.
#[derive(Clone, Debug)]
pub struct EmbedRequest {
    /// Model identifier.
    pub model: String,
    /// The input to embed.
    pub input: EmbedInput,
    /// Seconds the model stays loaded after this request.
    pub keep_alive: u64,
    /// Whether over-long inputs are truncated.
    pub truncate: bool,
    /// Sampling options.
    pub options: ModelOptions,
}

/// A request to delete a model.
#[derive(Clone, Debug)]
pub struct DeleteRequest {
    /// Model identifier.
    pub model: String,
}

/// A request to show a model's details.
#[derive(Clone, Debug)]
pub struct ShowRequest {
    /// Model identifier.
    pub model: String,
    /// System instructions.
    pub system: String,
    /// Whether verbose details are requested.
    pub verbose: bool,
    /// Sampling options.
    pub options: ModelOptions,
}

/// Details of one locally available model.
#[derive(Clone, Debug)]
pub struct ModelDetails {
    /// Model this one derives from.
    pub parent_model: String,
    /// On-disk format.
    pub format: String,
    /// Model family.
    pub family: String,
    /// Families the model belongs to.
    pub families: Vec<String>,
    /// Parameter count, human-readable.
    pub parameter_size: String,
    /// Quantization level, human-readable.
    pub quantization_level: String,
}

} // verus!
