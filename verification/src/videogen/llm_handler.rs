//! The language model that writes audio and video descriptions from a user prompt.

use vstd::prelude::*;
use vstd::string::*;
use super::generator::{FlowControlFromEnv, VideoGenerator};
use super::input::VideoGenInput;
use super::inttest::check_prompt;
use super::types::{follows_outcome, invalid_input, ImageData, VideoGenError, VideoGenProvider};
use super::types_v2::{cost_of, text_entry, CostInfo, ExtraValueView, ProviderInfo, ProviderInfoView, VideoGenRequestV2};

verus! {

broadcast use vstd::string::group_string_axioms;

/// Input of the prompt-writing language model.
#[derive(Clone, Debug)]
pub struct LlmHandlerModel {
    pub user_prompt: String,
}

/// The descriptions that the language model writes.
#[derive(Clone, Debug)]
pub struct LlmHandlerResponse {
    pub audio_description: String,
    pub video_description: String,
}

/// Checks of the language model's input: a user prompt.
pub open spec fn llm_check(user_prompt: Seq<char>) -> Result<(), Seq<char>> {
    if user_prompt.len() == 0 {
        Err("User prompt cannot be empty"@)
    } else {
        Ok(())
    }
}

impl VideoGenerator for LlmHandlerModel {
    open spec fn same_apart_from_image(&self, other: &Self) -> bool {
        *self == *other
    }

    open spec fn model_id_text(&self) -> Seq<char> {
        "llm_handler"@
    }

    open spec fn provider_of(&self) -> VideoGenProvider {
        VideoGenProvider::LlmHandler
    }

    open spec fn input_check(&self) -> Result<(), Seq<char>> {
        llm_check(self.user_prompt@)
    }

    open spec fn prompt_text(&self) -> Seq<char> {
        self.user_prompt@
    }

    open spec fn image_of(&self) -> Option<ImageData> {
        None
    }

    open spec fn flow_control_of(&self) -> Option<(u32, u32)> {
        None
    }

    open spec fn webhook_callbacks(&self) -> bool {
        false
    }

    fn model_id(&self) -> (r: &'static str) {
        "llm_handler"
    }

    fn provider(&self) -> (r: VideoGenProvider) {
        VideoGenProvider::LlmHandler
    }

    fn validate_input(&self) -> (r: Result<(), VideoGenError>) {
        if self.user_prompt.as_str().is_empty() {
            return Err(invalid_input("User prompt cannot be empty"));
        }
        Ok(())
    }

    fn get_prompt(&self) -> (r: &str) {
        self.user_prompt.as_str()
    }

    fn get_image(&self) -> (r: Option<&ImageData>) {
        None
    }

    fn get_image_mut(&mut self) -> (r: Option<&mut ImageData>) {
        None
    }

    fn flow_control_config(&self) -> (r: Option<(u32, u32)>) {
        None
    }

    fn supports_webhook_callbacks(&self) -> (r: bool) {
        false
    }
}

impl FlowControlFromEnv for LlmHandlerModel {
    open spec fn env_prefix_text(&self) -> Seq<char> {
        "LLM_HANDLER"@
    }

    fn env_prefix(&self) -> (r: &'static str) {
        "LLM_HANDLER"
    }
}

/// The description of the prompt-writing language model for the metadata API.
pub open spec fn llm_handler_info() -> ProviderInfoView {
    ProviderInfoView {
        id: "llm_handler"@,
        name: "LLM Prompt Generator"@,
        description: "Generates optimized audio and video descriptions from user prompts"@,
        cost: cost_of(1),
        supports_image: false,
        supports_negative_prompt: false,
        supports_audio: false,
        supports_audio_input: false,
        supports_seed: false,
        allowed_aspect_ratios: Seq::empty(),
        allowed_resolutions: Seq::empty(),
        allowed_durations: Seq::empty(),
        default_aspect_ratio: None,
        default_resolution: None,
        default_duration: None,
        is_available: true,
        is_internal: true,
        model_icon: None,
        ios_model_icon: None,
        extra_info: seq![("type"@, ExtraValueView::Text("prompt_generator"@))],
    }
}

/// The language model input that a unified request adapts to, or the
/// message of the first check it fails.
pub open spec fn llm_handler_from_unified(u: VideoGenRequestV2) -> Result<VideoGenInput, Seq<char>> {
    if u.image is Some {
        Err("LLM Handler does not support image input"@)
    } else if u.prompt@.len() == 0 {
        Err("Prompt cannot be empty"@)
    } else {
        Ok(VideoGenInput::LlmHandler(LlmHandlerModel { user_prompt: u.prompt }))
    }
}

impl LlmHandlerModel {
    /// Adapts a unified request to the language model: a prompt and no image.
    pub fn from_unified_request(unified: VideoGenRequestV2) -> (r: Result<VideoGenInput, VideoGenError>)
        ensures
            follows_outcome(r, llm_handler_from_unified(unified)),
    {
        if unified.image.is_some() {
            return Err(invalid_input("LLM Handler does not support image input"));
        }
        check_prompt(&unified.prompt)?;
        Ok(VideoGenInput::LlmHandler(LlmHandlerModel { user_prompt: unified.prompt }))
    }

    /// The description of the prompt-writing language model for the metadata API.
    pub fn get_provider_info() -> (r: ProviderInfo)
        ensures
            r@ == llm_handler_info(),
    {
        let r = ProviderInfo {
            id: "llm_handler".to_string(),
            name: "LLM Prompt Generator".to_string(),
            description: "Generates optimized audio and video descriptions from user prompts".to_string(),
            cost: CostInfo::from_usd_cents(1),
            supports_image: false,
            supports_negative_prompt: false,
            supports_audio: false,
            supports_audio_input: false,
            supports_seed: false,
            allowed_aspect_ratios: vec![],
            allowed_resolutions: vec![],
            allowed_durations: vec![],
            default_aspect_ratio: None,
            default_resolution: None,
            default_duration: None,
            is_available: true,
            is_internal: true,
            model_icon: None,
            ios_model_icon: None,
            extra_info: vec![text_entry("type", "prompt_generator")],
        };
        assert(r@.allowed_aspect_ratios =~= llm_handler_info().allowed_aspect_ratios);
        assert(r@.allowed_resolutions =~= llm_handler_info().allowed_resolutions);
        assert(r@.allowed_durations =~= llm_handler_info().allowed_durations);
        assert(r@.extra_info =~= llm_handler_info().extra_info);
        r
    }
}

} // verus!
