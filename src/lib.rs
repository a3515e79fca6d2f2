//! Discovery-to-decision logic of a bot that buys newly listed tokens: risk
//! scoring of oracle reports, trade sizing, the retrying assessment, pair
//! filtering, swap planning and swap-event classification.
pub mod address;
pub mod amount_in_calculator;
pub mod config_models;
pub mod errors;
pub mod formatter;
pub mod processed_trade;
pub mod processor;
pub mod score_calculator;
pub mod security_checker;
pub mod swaps_listener;
pub mod token_api_response_models;
pub mod trading;
