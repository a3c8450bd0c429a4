//! Verified core of the Preset.gg API, which turns a text prompt and an
//! Audius track into a Vital synthesizer preset with the help of Gemini.
//!
//! The library holds the API's decisions and texts: request validation, the
//! per-IP rate limiter, the generation pipeline as a state machine, the
//! Gemini messages and retry rule, the Vital parameter table and preset
//! metadata, Audius fetching rules, wallet tiers, configuration and CORS.
//! The server performs the network calls and hands the outcomes back.

pub mod text;
pub mod errors;
pub mod status;
pub mod json;
pub mod config;
pub mod cors;
pub mod tiers;
pub mod token_gate;
pub mod auth;
pub mod rate_limit;
pub mod schema;
pub mod vital;
pub mod serum;
pub mod gemini;
pub mod audius;
pub mod stream;
pub mod supabase;
pub mod presets;
pub mod health;
pub mod generate;
