//! Temporary limits of V4 serving: its compressor state is eager and holds one sequence.

use vstd::prelude::*;

use crate::config::{ModelConfig, ServeArgs};

verus! {

/// Longest sequence of a V4 run, prompt and output together.
pub const MAX_SEQ_LEN: usize = 2048;

/// The limit of V4 serving that a run breaks.
#[derive(Clone, Copy, Debug, PartialEq, Eq, Structural)]
pub enum BringupError {
    Speculation,
    BatchSize,
    SeqLen,
    PrefixCaching,
    Swap,
    PrefillBudget,
}

impl BringupError {
    /// The message for this error.
    pub open spec fn text(self) -> Seq<char> {
        match self {
            BringupError::Speculation =>
                "DeepSeek V4 bring-up requires speculation off; native DSpark is not implemented"@,
            BringupError::BatchSize =>
                "DeepSeek V4 bring-up requires --max-batch-size 1: compressor state is single-sequence"@,
            BringupError::SeqLen =>
                "DeepSeek V4 bring-up requires --max-seq-len in 1..=2048 (prompt plus output); sparse index selection is not implemented"@,
            BringupError::PrefixCaching =>
                "DeepSeek V4 bring-up requires prefix caching off: KV alone cannot restore compressor state"@,
            BringupError::Swap =>
                "DeepSeek V4 bring-up requires --swap-space-gb 0 and high-speed swap off"@,
            BringupError::PrefillBudget =>
                "DeepSeek V4 bring-up requires a prefill budget at least --max-seq-len; chunk continuation is not implemented"@,
        }
    }

    /// The message for this error.
    pub fn message(self) -> (res: &'static str)
        ensures
            res@ == self.text(),
    {
        match self {
            BringupError::Speculation =>
                "DeepSeek V4 bring-up requires speculation off; native DSpark is not implemented",
            BringupError::BatchSize =>
                "DeepSeek V4 bring-up requires --max-batch-size 1: compressor state is single-sequence",
            BringupError::SeqLen =>
                "DeepSeek V4 bring-up requires --max-seq-len in 1..=2048 (prompt plus output); sparse index selection is not implemented",
            BringupError::PrefixCaching =>
                "DeepSeek V4 bring-up requires prefix caching off: KV alone cannot restore compressor state",
            BringupError::Swap =>
                "DeepSeek V4 bring-up requires --swap-space-gb 0 and high-speed swap off",
            BringupError::PrefillBudget =>
                "DeepSeek V4 bring-up requires a prefill budget at least --max-seq-len; chunk continuation is not implemented",
        }
    }
}

/// Whether the run decodes speculatively in any way.
pub open spec fn speculates(args: ServeArgs) -> bool {
    args.speculative || args.self_speculative || args.ngram_speculative || args.dflash
}

/// Whether the run keeps to the limits of V4 serving.
pub open spec fn within_limits(args: ServeArgs) -> bool {
    &&& !speculates(args)
    &&& args.max_batch_size == 1
    &&& 1 <= args.max_seq_len <= MAX_SEQ_LEN
    &&& !args.prefix_caching_enabled
    &&& !args.high_speed_swap
    &&& args.swap_space_gb == 0
}

/// The first limit of V4 serving that the run breaks.
pub open spec fn broken_limit(args: ServeArgs) -> Option<BringupError> {
    if speculates(args) {
        Some(BringupError::Speculation)
    } else if args.max_batch_size != 1 {
        Some(BringupError::BatchSize)
    } else if !(1 <= args.max_seq_len <= MAX_SEQ_LEN) {
        Some(BringupError::SeqLen)
    } else if args.prefix_caching_enabled {
        Some(BringupError::PrefixCaching)
    } else if args.high_speed_swap || args.swap_space_gb != 0 {
        Some(BringupError::Swap)
    } else {
        None
    }
}

/// What [`validate_v4_bringup`] returns.
pub open spec fn bringup_verdict(args: ServeArgs, config: ModelConfig) -> Result<
    (),
    BringupError,
> {
    if !config.is_v4() {
        Ok(())
    } else {
        match broken_limit(args) {
            Some(limit) => Err(limit),
            None => Ok(()),
        }
    }
}

/// What [`validate_v4_prefill_budget`] returns.
pub open spec fn prefill_verdict(
    config: ModelConfig,
    max_seq_len: nat,
    prefill_budget: nat,
) -> Result<(), BringupError> {
    if config.is_v4() && prefill_budget < max_seq_len {
        Err(BringupError::PrefillBudget)
    } else {
        Ok(())
    }
}

/// Checks the options of a run against the limits of V4 serving. Models of other kinds
/// have none of these limits.
pub fn validate_v4_bringup(args: &ServeArgs, config: &ModelConfig) -> (res: Result<
    (),
    BringupError,
>)
    ensures
        res is Ok <==> (config.is_v4() ==> within_limits(*args)),
        config.model_type@ != "deepseek_v4"@ ==> res is Ok,
        config.model_type@ == "deepseek_v4"@ ==> (res is Ok <==> {
            &&& !args.speculative
            &&& !args.self_speculative
            &&& !args.ngram_speculative
            &&& !args.dflash
            &&& args.max_batch_size == 1
            &&& 1 <= args.max_seq_len <= 2048
            &&& !args.prefix_caching_enabled
            &&& !args.high_speed_swap
            &&& args.swap_space_gb == 0
        }),
        res == bringup_verdict(*args, *config),
{
    if !config.is_deepseek_v4() {
        return Ok(());
    }
    if args.speculative || args.self_speculative || args.ngram_speculative || args.dflash {
        return Err(BringupError::Speculation);
    }
    if args.max_batch_size != 1 {
        return Err(BringupError::BatchSize);
    }
    if args.max_seq_len < 1 || args.max_seq_len > MAX_SEQ_LEN {
        return Err(BringupError::SeqLen);
    }
    if args.prefix_caching_enabled {
        return Err(BringupError::PrefixCaching);
    }
    if args.high_speed_swap || args.swap_space_gb != 0 {
        return Err(BringupError::Swap);
    }
    Ok(())
}

/// Checks the resolved prefill budget, automatic memory-budget adjustments included.
///
/// V4 prefill resets and seeds the compressor state for a whole prompt; to continue a
/// partly processed prompt would reset it at the wrong offset.
pub fn validate_v4_prefill_budget(
    config: &ModelConfig,
    max_seq_len: usize,
    prefill_budget: usize,
) -> (res: Result<(), BringupError>)
    ensures
        res is Ok <==> (config.is_v4() ==> max_seq_len <= prefill_budget),
        config.model_type@ != "deepseek_v4"@ ==> res is Ok,
        config.model_type@ == "deepseek_v4"@ ==> (res is Ok <==> max_seq_len <= prefill_budget),
        res == prefill_verdict(*config, max_seq_len as nat, prefill_budget as nat),
{
    if config.is_deepseek_v4() && prefill_budget < max_seq_len {
        return Err(BringupError::PrefillBudget);
    }
    Ok(())
}

} // verus!
