//! What holds of every serving run that the admission rules let through.

use vstd::prelude::*;

use crate::config::{ModelConfig, ServeArgs};
use crate::context_budget::fits;
use crate::v4_bringup::{
    bringup_verdict, prefill_verdict, within_limits, BringupError, MAX_SEQ_LEN,
};

verus! {

/// Law: a V4 run is let through when it keeps to every limit, and refused when it breaks
/// any one of them.
pub proof fn law_every_limit_binds(args: ServeArgs, config: ModelConfig)
    requires
        config.is_v4(),
    ensures
        bringup_verdict(args, config) is Ok <==> within_limits(args),
        args.speculative || args.self_speculative || args.ngram_speculative || args.dflash
            || args.max_batch_size != 1 || args.max_seq_len == 0 || args.max_seq_len > MAX_SEQ_LEN
            || args.prefix_caching_enabled || args.high_speed_swap || args.swap_space_gb > 0
            ==> bringup_verdict(args, config) is Err,
{
}

/// Law: models of other kinds keep all they can do; no rule refuses them anything.
pub proof fn law_other_models_are_unrestricted(
    args: ServeArgs,
    config: ModelConfig,
    max_seq_len: nat,
    prefill_budget: nat,
    prompt_len: nat,
    requested: nat,
)
    requires
        !config.is_v4(),
    ensures
        bringup_verdict(args, config) == Ok::<(), BringupError>(()),
        prefill_verdict(config, max_seq_len, prefill_budget) == Ok::<(), BringupError>(()),
        fits(config.is_v4(), max_seq_len, prompt_len, requested),
{
}

/// Law: of the model only its type matters; V4 configurations with older compression
/// tables are held to the same limits.
pub proof fn law_only_the_model_type_matters(
    args: ServeArgs,
    config: ModelConfig,
    other: ModelConfig,
    max_seq_len: nat,
    prefill_budget: nat,
)
    requires
        config.model_type@ == other.model_type@,
    ensures
        bringup_verdict(args, config) == bringup_verdict(args, other),
        prefill_verdict(config, max_seq_len, prefill_budget) == prefill_verdict(
            other,
            max_seq_len,
            prefill_budget,
        ),
{
}

/// Law: a V4 run that is let through never continues a prompt. Whatever request fits its
/// context has its whole prompt within the prefill budget, and all its tokens within the
/// longest V4 sequence.
pub proof fn law_prompts_are_prefilled_whole(
    args: ServeArgs,
    config: ModelConfig,
    prefill_budget: nat,
    prompt_len: nat,
    requested: nat,
)
    requires
        config.is_v4(),
        bringup_verdict(args, config) is Ok,
        prefill_verdict(config, args.max_seq_len as nat, prefill_budget) is Ok,
        fits(true, args.max_seq_len as nat, prompt_len, requested),
    ensures
        prompt_len <= prefill_budget,
        prompt_len + requested <= MAX_SEQ_LEN,
{
}

/// Law: the rules single out the models whose type is `deepseek_v4` and no others. Every
/// other model passes them, whatever its options, its budget and its requests.
pub proof fn law_only_deepseek_v4_is_limited(
    args: ServeArgs,
    config: ModelConfig,
    max_seq_len: nat,
    prefill_budget: nat,
    prompt_len: nat,
    requested: nat,
)
    ensures
        config.is_v4() <==> config.model_type@ == "deepseek_v4"@,
        config.model_type@ != "deepseek_v4"@ ==> {
            &&& bringup_verdict(args, config) is Ok
            &&& prefill_verdict(config, max_seq_len, prefill_budget) is Ok
            &&& fits(config.is_v4(), max_seq_len, prompt_len, requested)
        },
{
}

/// Law: a V4 run without speculation, of one sequence of 1 to 2048 tokens, without prefix
/// caching and without swap is let through; and no other V4 run is.
pub proof fn law_constrained_runs_are_accepted(args: ServeArgs, config: ModelConfig)
    requires
        config.model_type@ == "deepseek_v4"@,
    ensures
        bringup_verdict(args, config) is Ok <==> {
            &&& !args.speculative
            &&& !args.self_speculative
            &&& !args.ngram_speculative
            &&& !args.dflash
            &&& args.max_batch_size == 1
            &&& 1 <= args.max_seq_len <= 2048
            &&& !args.prefix_caching_enabled
            &&& !args.high_speed_swap
            &&& args.swap_space_gb == 0
        },
{
}

/// Law: a refusal names a limit that the run breaks, and the run keeps to the limits that
/// come before it: speculation, batch size, sequence length, prefix caching, swap.
pub proof fn law_refusals_name_the_first_broken_limit(
    args: ServeArgs,
    config: ModelConfig,
    error: BringupError,
)
    requires
        bringup_verdict(args, config) == Err::<(), BringupError>(error),
    ensures
        config.model_type@ == "deepseek_v4"@,
        error != BringupError::PrefillBudget,
        error == BringupError::Speculation <==> args.speculative || args.self_speculative
            || args.ngram_speculative || args.dflash,
        error == BringupError::BatchSize ==> args.max_batch_size != 1,
        error == BringupError::SeqLen ==> {
            &&& args.max_batch_size == 1
            &&& args.max_seq_len == 0 || args.max_seq_len > 2048
        },
        error == BringupError::PrefixCaching ==> {
            &&& args.max_batch_size == 1
            &&& 1 <= args.max_seq_len <= 2048
            &&& args.prefix_caching_enabled
        },
        error == BringupError::Swap ==> {
            &&& args.max_batch_size == 1
            &&& 1 <= args.max_seq_len <= 2048
            &&& !args.prefix_caching_enabled
            &&& args.high_speed_swap || args.swap_space_gb > 0
        },
{
}

/// Law: the prefill budget of a V4 run is accepted when it covers the longest sequence, and
/// refused as a budget otherwise.
pub proof fn law_prefill_budgets_cover_the_sequence(
    config: ModelConfig,
    max_seq_len: nat,
    prefill_budget: nat,
)
    requires
        config.model_type@ == "deepseek_v4"@,
    ensures
        max_seq_len <= prefill_budget ==> prefill_verdict(config, max_seq_len, prefill_budget)
            == Ok::<(), BringupError>(()),
        max_seq_len > prefill_budget ==> prefill_verdict(config, max_seq_len, prefill_budget)
            == Err::<(), BringupError>(BringupError::PrefillBudget),
{
}

} // verus!
