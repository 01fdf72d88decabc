//! Video generation requests: the unified request, the models it adapts to,
//! their provider descriptions and their prices.

pub mod types;
pub mod token_costs;
pub mod types_v2;
pub mod generator;
pub mod input;
pub mod veo3;
pub mod inttest;
pub mod video_model;
pub mod wan;
pub mod falai;
pub mod llm_handler;
pub mod ltx2;
pub mod lumalabs;
pub mod speech_to_video;
pub mod stable_audio;
pub mod talkinghead;
pub mod adapter_registry;
pub mod adaptation_laws;
pub mod client_rules;
