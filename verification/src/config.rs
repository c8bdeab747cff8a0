//! Process configuration, as the verified core sees it: plain values.
//! Reading and merging configuration files is the shell's (unverified)
//! work; it hands the result over in this shape.

use vstd::prelude::*;

verus! {

/// Configuration the shell runs with.
#[derive(Clone, Debug)]
pub struct Config {
    /// Directory the model files live in, if configured.
    pub models_path: Option<String>,
    /// Directory the configuration was loaded from.
    pub dir: String,
}

} // verus!
