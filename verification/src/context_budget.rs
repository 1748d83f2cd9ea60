//! How many tokens a request may use.

use vstd::prelude::*;

verus! {

/// Whether a request fits: a V4 run counts the prompt and all the output that is asked
/// for, other runs count nothing here.
pub open spec fn fits(is_v4: bool, max_seq_len: nat, prompt_len: nat, requested: nat) -> bool {
    is_v4 ==> prompt_len + requested <= max_seq_len
}

/// Whether a request fits in the context of the run.
///
/// A V4 run counts emitted output as well as prompt tokens. The scheduler's ceiling on
/// cache entries alone would leave out the last sampled token, which is not yet in the
/// cache.
pub fn fits_context(is_v4: bool, max_seq_len: usize, prompt_len: usize, requested: usize) -> (res:
    bool)
    ensures
        res == fits(is_v4, max_seq_len as nat, prompt_len as nat, requested as nat),
        res <==> !is_v4 || prompt_len + requested <= max_seq_len,
{
    if !is_v4 {
        return true;
    }
    match prompt_len.checked_add(requested) {
        Some(total) => total <= max_seq_len,
        None => false,
    }
}

/// Cache entries of a request that has emitted all its output: every token but the one
/// that was sampled last.
pub open spec fn cache_entries(prompt_len: nat, requested: nat) -> int {
    prompt_len + requested - 1
}

/// Law: prompt and output tokens count alike; only their total decides.
pub proof fn law_only_the_total_counts(
    is_v4: bool,
    max_seq_len: nat,
    prompt_len: nat,
    requested: nat,
    other_prompt_len: nat,
    other_requested: nat,
)
    requires
        prompt_len + requested == other_prompt_len + other_requested,
    ensures
        fits(is_v4, max_seq_len, prompt_len, requested) == fits(
            is_v4,
            max_seq_len,
            other_prompt_len,
            other_requested,
        ),
{
}

/// Law: what fits still fits with a shorter prompt, less output or a longer context.
pub proof fn law_smaller_requests_fit(
    is_v4: bool,
    max_seq_len: nat,
    prompt_len: nat,
    requested: nat,
    longer_max_seq_len: nat,
    shorter_prompt_len: nat,
    less_requested: nat,
)
    requires
        fits(is_v4, max_seq_len, prompt_len, requested),
        max_seq_len <= longer_max_seq_len,
        shorter_prompt_len <= prompt_len,
        less_requested <= requested,
    ensures
        fits(is_v4, longer_max_seq_len, shorter_prompt_len, less_requested),
{
}

/// Law: a ceiling on cache entries alone admits exactly one token too many. What a V4 run
/// refuses although its cache would hold it is one token over the context.
pub proof fn law_the_last_token_counts(max_seq_len: nat, prompt_len: nat, requested: nat)
    ensures
        fits(true, max_seq_len, prompt_len, requested) ==> cache_entries(prompt_len, requested)
            < max_seq_len,
        cache_entries(prompt_len, requested) <= max_seq_len && !fits(
            true,
            max_seq_len,
            prompt_len,
            requested,
        ) <==> prompt_len + requested == max_seq_len + 1,
{
}

/// Law: a request to a V4 run fits when prompt and output together are no more than the
/// context, and only then; a request to any other run fits.
pub proof fn law_what_fits(is_v4: bool, max_seq_len: nat, prompt_len: nat, requested: nat)
    ensures
        is_v4 ==> (fits(is_v4, max_seq_len, prompt_len, requested) <==> prompt_len + requested
            <= max_seq_len),
        !is_v4 ==> fits(is_v4, max_seq_len, prompt_len, requested),
{
}

} // verus!
