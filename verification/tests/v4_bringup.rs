use deepseek_v4::config::{ModelConfig, ServeArgs};
use deepseek_v4::context_budget::fits_context;
use deepseek_v4::v4_bringup::{validate_v4_bringup, validate_v4_prefill_budget, BringupError};

fn qwen3_next_80b_nvfp4() -> ModelConfig {
    ModelConfig {
        model_type: "qwen3_next".to_string(),
        compress_ratios: vec![],
    }
}

fn config() -> ModelConfig {
    let mut config = qwen3_next_80b_nvfp4();
    config.model_type = "deepseek_v4".into();
    config.compress_ratios = vec![0, 0, 4, 128];
    config
}

fn args() -> ServeArgs {
    ServeArgs {
        speculative: false,
        self_speculative: false,
        ngram_speculative: false,
        dflash: false,
        max_batch_size: 1,
        max_seq_len: 2048,
        prefix_caching_enabled: false,
        high_speed_swap: false,
        swap_space_gb: 0,
    }
}

/// Options that break every limit of V4 serving.
fn unrestricted_args() -> ServeArgs {
    ServeArgs {
        speculative: true,
        self_speculative: true,
        ngram_speculative: true,
        dflash: true,
        max_batch_size: 8,
        max_seq_len: 32768,
        prefix_caching_enabled: true,
        high_speed_swap: true,
        swap_space_gb: 4,
    }
}

#[test]
fn constrained_target_and_old_v4_configs_are_accepted() {
    let mut config = config();
    assert!(validate_v4_bringup(&args(), &config).is_ok());
    config.compress_ratios = vec![0, 4, 128];
    assert!(validate_v4_bringup(&args(), &config).is_ok());
}

#[test]
fn unsafe_execution_modes_are_refused() {
    let config = config();
    let mutations: [fn(&mut ServeArgs); 10] = [
        |a: &mut ServeArgs| a.max_batch_size = 2,
        |a: &mut ServeArgs| a.max_seq_len = 2049,
        |a: &mut ServeArgs| a.max_seq_len = 0,
        |a: &mut ServeArgs| a.speculative = true,
        |a: &mut ServeArgs| a.self_speculative = true,
        |a: &mut ServeArgs| a.ngram_speculative = true,
        |a: &mut ServeArgs| a.dflash = true,
        |a: &mut ServeArgs| a.prefix_caching_enabled = true,
        |a: &mut ServeArgs| a.swap_space_gb = 1,
        |a: &mut ServeArgs| a.high_speed_swap = true,
    ];
    for mutate in mutations {
        let mut args = args();
        mutate(&mut args);
        assert!(validate_v4_bringup(&args, &config).is_err());
    }
}

#[test]
fn chunk_continuation_is_refused() {
    assert!(validate_v4_prefill_budget(&config(), 2048, 2048).is_ok());
    assert!(validate_v4_prefill_budget(&config(), 2048, 1024).is_err());
}

#[test]
fn other_models_keep_existing_capabilities() {
    let config = qwen3_next_80b_nvfp4();
    assert!(validate_v4_bringup(&unrestricted_args(), &config).is_ok());
    assert!(validate_v4_prefill_budget(&config, 32768, 1024).is_ok());
}

#[test]
fn the_first_broken_limit_is_reported() {
    let config = config();
    let mut args = unrestricted_args();
    assert_eq!(validate_v4_bringup(&args, &config), Err(BringupError::Speculation));
    args.speculative = false;
    args.self_speculative = false;
    args.ngram_speculative = false;
    assert_eq!(validate_v4_bringup(&args, &config), Err(BringupError::Speculation));
    args.dflash = false;
    assert_eq!(validate_v4_bringup(&args, &config), Err(BringupError::BatchSize));
    args.max_batch_size = 0;
    assert_eq!(validate_v4_bringup(&args, &config), Err(BringupError::BatchSize));
    args.max_batch_size = 1;
    assert_eq!(validate_v4_bringup(&args, &config), Err(BringupError::SeqLen));
    args.max_seq_len = 1;
    assert_eq!(validate_v4_bringup(&args, &config), Err(BringupError::PrefixCaching));
    args.prefix_caching_enabled = false;
    assert_eq!(validate_v4_bringup(&args, &config), Err(BringupError::Swap));
    args.swap_space_gb = 0;
    assert_eq!(validate_v4_bringup(&args, &config), Err(BringupError::Swap));
    args.high_speed_swap = false;
    assert_eq!(validate_v4_bringup(&args, &config), Ok(()));
}

#[test]
fn the_prefill_budget_has_its_own_error() {
    assert_eq!(
        validate_v4_prefill_budget(&config(), 1, 0),
        Err(BringupError::PrefillBudget)
    );
    assert_eq!(validate_v4_prefill_budget(&config(), 0, 0), Ok(()));
}

#[test]
fn model_types_are_compared_whole() {
    for model_type in ["", "deepseek_v", "deepseek_v4_", "DeepSeek_V4", "deepseek_v3"] {
        let mut config = config();
        config.model_type = model_type.to_string();
        assert!(!config.is_deepseek_v4());
        assert!(validate_v4_bringup(&unrestricted_args(), &config).is_ok());
        assert!(validate_v4_prefill_budget(&config, 2, 1).is_ok());
    }
    assert!(config().is_deepseek_v4());
}

#[test]
fn messages_name_the_limit() {
    let expected = [
        (
            BringupError::Speculation,
            "DeepSeek V4 bring-up requires speculation off; native DSpark is not implemented",
        ),
        (
            BringupError::BatchSize,
            "DeepSeek V4 bring-up requires --max-batch-size 1: compressor state is single-sequence",
        ),
        (
            BringupError::SeqLen,
            "DeepSeek V4 bring-up requires --max-seq-len in 1..=2048 (prompt plus output); sparse index selection is not implemented",
        ),
        (
            BringupError::PrefixCaching,
            "DeepSeek V4 bring-up requires prefix caching off: KV alone cannot restore compressor state",
        ),
        (
            BringupError::Swap,
            "DeepSeek V4 bring-up requires --swap-space-gb 0 and high-speed swap off",
        ),
        (
            BringupError::PrefillBudget,
            "DeepSeek V4 bring-up requires a prefill budget at least --max-seq-len; chunk continuation is not implemented",
        ),
    ];
    for (error, message) in expected {
        assert_eq!(error.message(), message);
    }
}

#[test]
fn accepted_runs_prefill_every_prompt_whole() {
    let config = config();
    let mut args = args();
    args.max_seq_len = 100;
    let budget = 100;
    assert!(validate_v4_bringup(&args, &config).is_ok());
    assert!(validate_v4_prefill_budget(&config, args.max_seq_len, budget).is_ok());
    for prompt in 0..=120 {
        for requested in [0, 1, 20, 100] {
            if fits_context(config.is_deepseek_v4(), args.max_seq_len, prompt, requested) {
                assert!(prompt <= budget);
                assert!(prompt + requested <= 2048);
            }
        }
    }
}
