# deepseek_v4

Admission rules for DeepSeek V4, verified with Verus.

- `weights`: the tensors of a checkpoint, found by name.
- `v4_quant`: which packed format an expert's tensor group has, or what is wrong with it;
  `quant_error` holds the refusals and their messages, `v4_quant_laws` what holds of every group.
- `v4_bringup`: the limits that a V4 serving run keeps to.
- `context_budget`: how many tokens a request may use.
- `serving_laws`: what the rules guarantee together.
- `config`: what the rules read of a model and of a run.
- `text`: numbers, shapes and names as text.
