//! Admission rules for DeepSeek V4 checkpoints and serving runs.

pub mod config;
pub mod context_budget;
pub mod quant_error;
pub mod serving_laws;
pub mod text;
pub mod v4_bringup;
pub mod v4_quant;
pub mod v4_quant_laws;
pub mod weights;
