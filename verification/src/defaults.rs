//! Default values for the sampling options of an inference request.
//!
//! The four options that the native engine takes as binary32 values are
//! carried here as their raw bit patterns, so that the signature logic can
//! treat every option as a plain integer value.

use vstd::prelude::*;

verus! {

/// Context window size used when a request does not set one.
pub fn default_context_window() -> (r: i32)
    ensures
        r == 2048,
{
    2048
}

/// Repetition look-back window used when a request does not set one.
pub fn default_repeat_last_n() -> (r: i32)
    ensures
        r == 64,
{
    64
}

/// Bit pattern of the default repetition penalty (binary32 value 1.1).
pub fn default_repeat_penalty_bits() -> (r: u32)
    ensures
        r == 0x3F8CCCCDu32,
{
    0x3F8CCCCD
}

/// Bit pattern of the default sampling temperature (binary32 value 0.8).
pub fn default_temperature_bits() -> (r: u32)
    ensures
        r == 0x3F4CCCCDu32,
{
    0x3F4CCCCD
}

/// Random seed used when a request does not set one.
pub fn default_seed() -> (r: i32)
    ensures
        r == 0,
{
    0
}

/// Token budget used when a request does not set one (-1: unbounded).
pub fn default_num_predict() -> (r: i32)
    ensures
        r == -1,
{
    -1
}

/// Top-k sampling cutoff used when a request does not set one.
pub fn default_top_k() -> (r: i32)
    ensures
        r == 40,
{
    40
}

/// Bit pattern of the default top-p cutoff (binary32 value 0.9).
pub fn default_top_p_bits() -> (r: u32)
    ensures
        r == 0x3F666666u32,
{
    0x3F666666
}

/// Stop sequences used when a request does not set any: none.
pub fn default_stop() -> (r: Vec<String>)
    ensures
        r@ == Seq::<String>::empty(),
{
    Vec::new()
}

/// Bit pattern of the default min-p cutoff (binary32 value 0.0).
pub fn default_min_p_bits() -> (r: u32)
    ensures
        r == 0u32,
{
    0
}

/// Whether responses stream by default.
pub fn default_stream() -> (r: bool)
    ensures
        r == false,
{
    false
}

/// Seconds a model stays loaded after a request, when not set.
pub fn default_keep_alive() -> (r: u64)
    ensures
        r == 300,
{
    300
}

/// Whether prompts are passed through raw by default.
pub fn default_raw() -> (r: bool)
    ensures
        r == false,
{
    false
}

/// Whether thinking output is requested by default.
pub fn default_think() -> (r: bool)
    ensures
        r == false,
{
    false
}

/// Whether embedding inputs are truncated by default.
pub fn default_embed_truncation() -> (r: bool)
    ensures
        r == false,
{
    false
}

} // verus!
