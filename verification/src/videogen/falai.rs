//! The Seedance model served by fal.ai.

use vstd::prelude::*;
use vstd::string::*;
use super::generator::{FlowControlFromEnv, VideoGenerator};
use super::video_model::{VideoModel, VideoModelView};
use super::types::Veo3AspectRatio;
use crate::global_constants::SEEDANCE_COST_USD_CENTS;
use super::types::{invalid_input, ImageData, VideoGenError, VideoGenProvider};

verus! {

broadcast use vstd::string::group_string_axioms;

/// Input of the Seedance model served by fal.ai.
#[derive(Clone, Debug)]
pub struct FalAiModel {
    pub prompt: String,
    /// Name of the model at fal.ai.
    pub model: String,
    pub seed: Option<u64>,
    /// Number of frames to generate, from 1 to 300.
    pub num_frames: Option<u32>,
}

/// Checks of a fal.ai input: a prompt, a model name, and a frame count from 1 to 300.
pub open spec fn falai_check(m: FalAiModel) -> Result<(), Seq<char>> {
    if m.prompt@.len() == 0 {
        Err("Prompt cannot be empty"@)
    } else if m.model@.len() == 0 {
        Err("Model name cannot be empty"@)
    } else if m.num_frames matches Some(n) && (n == 0 || n > 300) {
        Err("Number of frames must be between 1 and 300"@)
    } else {
        Ok(())
    }
}

impl VideoGenerator for FalAiModel {
    open spec fn same_apart_from_image(&self, other: &Self) -> bool {
        *self == *other
    }

    open spec fn model_id_text(&self) -> Seq<char> {
        "doubao-seedance-1-0-pro"@
    }

    open spec fn provider_of(&self) -> VideoGenProvider {
        VideoGenProvider::FalAi
    }

    open spec fn input_check(&self) -> Result<(), Seq<char>> {
        falai_check(*self)
    }

    open spec fn prompt_text(&self) -> Seq<char> {
        self.prompt@
    }

    open spec fn image_of(&self) -> Option<ImageData> {
        None
    }

    open spec fn flow_control_of(&self) -> Option<(u32, u32)> {
        None
    }

    open spec fn webhook_callbacks(&self) -> bool {
        false
    }

    fn model_id(&self) -> (r: &'static str) {
        "doubao-seedance-1-0-pro"
    }

    fn provider(&self) -> (r: VideoGenProvider) {
        VideoGenProvider::FalAi
    }

    fn validate_input(&self) -> (r: Result<(), VideoGenError>) {
        if self.prompt.as_str().is_empty() {
            return Err(invalid_input("Prompt cannot be empty"));
        }
        if self.model.as_str().is_empty() {
            return Err(invalid_input("Model name cannot be empty"));
        }
        if let Some(num_frames) = self.num_frames {
            if num_frames == 0 || num_frames > 300 {
                return Err(invalid_input("Number of frames must be between 1 and 300"));
            }
        }
        Ok(())
    }

    fn get_prompt(&self) -> (r: &str) {
        self.prompt.as_str()
    }

    fn get_image(&self) -> (r: Option<&ImageData>) {
        None
    }

    fn get_image_mut(&mut self) -> (r: Option<&mut ImageData>) {
        None
    }

    fn flow_control_config(&self) -> (r: Option<(u32, u32)>) {
        None
    }

    fn supports_webhook_callbacks(&self) -> (r: bool) {
        false
    }
}

impl FlowControlFromEnv for FalAiModel {
    open spec fn env_prefix_text(&self) -> Seq<char> {
        "FALAI"@
    }

    fn env_prefix(&self) -> (r: &'static str) {
        "FALAI"
    }
}

/// The first-version description of the Seedance model.
pub open spec fn falai_model_info() -> VideoModelView {
    VideoModelView {
        id: "doubao-seedance-1-0-pro"@,
        name: "Seedance 1.0 Pro"@,
        description: "From Tiktok"@,
        cost_usd_cents: SEEDANCE_COST_USD_CENTS,
        supports_image: true,
        provider: VideoGenProvider::FalAi,
        max_duration_seconds: 8,
        supported_aspect_ratios: seq![Veo3AspectRatio::Ratio16x9],
        model_icon: Some("/img/ai-models/bytedance.svg"@),
        is_available: false,
    }
}

impl FalAiModel {
    /// The first-version description of the Seedance model (not available yet).
    pub fn model_info() -> (r: VideoModel)
        ensures
            r@ == falai_model_info(),
    {
        let r = VideoModel {
            id: "doubao-seedance-1-0-pro".to_string(),
            name: "Seedance 1.0 Pro".to_string(),
            description: "From Tiktok".to_string(),
            cost_usd_cents: SEEDANCE_COST_USD_CENTS,
            supports_image: true,
            provider: VideoGenProvider::FalAi,
            max_duration_seconds: 8,
            supported_aspect_ratios: vec![Veo3AspectRatio::Ratio16x9],
            model_icon: Some("/img/ai-models/bytedance.svg".to_string()),
            is_available: false,
        };
        assert(r@.supported_aspect_ratios =~= falai_model_info().supported_aspect_ratios);
        r
    }
}

} // verus!
