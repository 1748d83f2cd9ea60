//! What the admission rules read of a model and of a serving run.

use vstd::prelude::*;

verus! {

/// Configuration of a model.
pub struct ModelConfig {
    /// Architecture of the model, such as `deepseek_v4`.
    pub model_type: String,
    /// Compression ratios of the layers.
    pub compress_ratios: Vec<usize>,
}

impl ModelConfig {
    /// Whether the model is a DeepSeek V4.
    pub open spec fn is_v4(self) -> bool {
        self.model_type@ == "deepseek_v4"@
    }

    /// Whether the model is a DeepSeek V4.
    pub fn is_deepseek_v4(&self) -> (res: bool)
        ensures
            res == self.is_v4(),
            res == (self.model_type@ == "deepseek_v4"@),
    {
        self.model_type == "deepseek_v4".to_owned()
    }
}

/// Options of a serving run.
pub struct ServeArgs {
    /// Speculative decoding.
    pub speculative: bool,
    /// Speculative decoding by the model itself.
    pub self_speculative: bool,
    /// Speculative decoding from n-grams.
    pub ngram_speculative: bool,
    /// Speculative decoding with DFlash.
    pub dflash: bool,
    /// Sequences that are served together.
    pub max_batch_size: usize,
    /// Tokens of a sequence, prompt and output together.
    pub max_seq_len: usize,
    /// Whether prefixes are cached.
    pub prefix_caching_enabled: bool,
    /// High-speed swap.
    pub high_speed_swap: bool,
    /// Swap space in gigabytes.
    pub swap_space_gb: usize,
}

} // verus!
