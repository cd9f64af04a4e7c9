//! Conditional-probability metrics engine for daily, session and bar market
//! contexts: pattern and outcome keys, interval-weighted counting, base rates,
//! lifts and confidence scores.

pub mod keys;
pub mod models;
pub mod labels;
pub mod aggregate;
pub mod rates;
pub mod contexts;
pub mod prepare;
pub mod windows;
pub mod joins;
pub mod service;
pub mod pipeline;
pub mod scores;
pub mod cli;
pub mod fetchable;
pub mod tally;
pub mod ordering;
pub mod view_contexts;
pub mod calculator;
pub mod rate_inputs;
pub mod unified;
pub mod ml_features;
pub mod laws;
