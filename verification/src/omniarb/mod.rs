//! Scoring and ranking of bridging routes.

pub mod data_fetcher;
pub mod matrix_parser;
pub mod model_bridge;
pub mod ranker;
pub mod tar_scorer;
