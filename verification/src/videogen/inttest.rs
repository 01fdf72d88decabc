//! The internal test model, which always returns the same video.

use vstd::prelude::*;
use vstd::string::*;
use super::generator::{FlowControlFromEnv, VideoGenerator};
use super::input::VideoGenInput;
use super::video_model::{VideoModel, VideoModelView};
use crate::global_constants::INTTEST_COST_USD_CENTS;
use super::types::Veo3AspectRatio;
use super::types::{follows_check, follows_outcome, invalid_input, ImageData, VideoGenError, VideoGenProvider};
use super::types_v2::{cost_of, AspectRatioV2, CostInfo, ProviderInfo, ProviderInfoView, ResolutionV2, VideoGenRequestV2};

verus! {

broadcast use vstd::string::group_string_axioms;

/// Input of the internal test model.
#[derive(Clone, Debug)]
pub struct IntTestModel {
    pub prompt: String,
    pub image: Option<ImageData>,
}

/// Checks of an input that needs a prompt.
pub open spec fn prompt_check(prompt: Seq<char>) -> Result<(), Seq<char>> {
    if prompt.len() == 0 {
        Err("Prompt cannot be empty"@)
    } else {
        Ok(())
    }
}

/// Fails with "Prompt cannot be empty" on an empty prompt.
pub fn check_prompt(prompt: &String) -> (r: Result<(), VideoGenError>)
    ensures
        follows_check(r, prompt_check(prompt@)),
{
    if prompt.as_str().is_empty() {
        return Err(invalid_input("Prompt cannot be empty"));
    }
    Ok(())
}

impl VideoGenerator for IntTestModel {
    open spec fn same_apart_from_image(&self, other: &Self) -> bool {
        self.prompt == other.prompt
    }

    open spec fn model_id_text(&self) -> Seq<char> {
        "inttest"@
    }

    open spec fn provider_of(&self) -> VideoGenProvider {
        VideoGenProvider::IntTest
    }

    open spec fn input_check(&self) -> Result<(), Seq<char>> {
        prompt_check(self.prompt@)
    }

    open spec fn prompt_text(&self) -> Seq<char> {
        self.prompt@
    }

    open spec fn image_of(&self) -> Option<ImageData> {
        self.image
    }

    open spec fn flow_control_of(&self) -> Option<(u32, u32)> {
        None
    }

    open spec fn webhook_callbacks(&self) -> bool {
        false
    }

    fn model_id(&self) -> (r: &'static str) {
        "inttest"
    }

    fn provider(&self) -> (r: VideoGenProvider) {
        VideoGenProvider::IntTest
    }

    fn validate_input(&self) -> (r: Result<(), VideoGenError>) {
        check_prompt(&self.prompt)
    }

    fn get_prompt(&self) -> (r: &str) {
        self.prompt.as_str()
    }

    fn get_image(&self) -> (r: Option<&ImageData>) {
        self.image.as_ref()
    }

    fn get_image_mut(&mut self) -> (r: Option<&mut ImageData>) {
        self.image.as_mut()
    }

    fn flow_control_config(&self) -> (r: Option<(u32, u32)>) {
        None
    }

    fn supports_webhook_callbacks(&self) -> (r: bool) {
        false
    }
}

impl FlowControlFromEnv for IntTestModel {
    open spec fn env_prefix_text(&self) -> Seq<char> {
        "INTTEST"@
    }

    fn env_prefix(&self) -> (r: &'static str) {
        "INTTEST"
    }
}

/// The description of the internal test model for the metadata API.
pub open spec fn inttest_info() -> ProviderInfoView {
    ProviderInfoView {
        id: "inttest"@,
        name: "Internal Test"@,
        description: "Internal test model for development"@,
        cost: cost_of(INTTEST_COST_USD_CENTS),
        supports_image: true,
        supports_negative_prompt: false,
        supports_audio: false,
        supports_audio_input: false,
        supports_seed: false,
        allowed_aspect_ratios: seq![AspectRatioV2::Ratio16x9],
        allowed_resolutions: seq![ResolutionV2::R1080p],
        allowed_durations: seq![5u8],
        default_aspect_ratio: Some(AspectRatioV2::Ratio16x9),
        default_resolution: Some(ResolutionV2::R1080p),
        default_duration: Some(5),
        is_available: true,
        is_internal: true,
        model_icon: Some("https://yral.com/img/yral/favicon.svg"@),
        ios_model_icon: None,
        extra_info: Seq::empty(),
    }
}

/// The first-version description of the internal test model.
pub open spec fn inttest_model_info() -> VideoModelView {
    VideoModelView {
        id: "inttest"@,
        name: "IntTest"@,
        description: "Test model that always returns the same video"@,
        cost_usd_cents: INTTEST_COST_USD_CENTS,
        supports_image: true,
        provider: VideoGenProvider::IntTest,
        max_duration_seconds: 5,
        supported_aspect_ratios: seq![Veo3AspectRatio::Ratio16x9],
        model_icon: Some("/img/yral/favicon.svg"@),
        is_available: true,
    }
}

/// The test model that a unified request adapts to, or the message of the
/// first check it fails.
pub open spec fn inttest_from_unified(u: VideoGenRequestV2) -> Result<VideoGenInput, Seq<char>> {
    match prompt_check(u.prompt@) {
        Err(m) => Err(m),
        Ok(()) => Ok(VideoGenInput::IntTest(IntTestModel { prompt: u.prompt, image: u.image })),
    }
}

impl IntTestModel {
    /// Adapts a unified request to the test model, which takes its prompt and image.
    pub fn from_unified_request(unified: VideoGenRequestV2) -> (r: Result<VideoGenInput, VideoGenError>)
        ensures
            follows_outcome(r, inttest_from_unified(unified)),
    {
        Self::validate_unified_parameters(&unified)?;
        Ok(VideoGenInput::IntTest(IntTestModel { prompt: unified.prompt, image: unified.image }))
    }

    /// Checks a unified request: it needs a prompt.
    pub fn validate_unified_parameters(unified: &VideoGenRequestV2) -> (r: Result<(), VideoGenError>)
        ensures
            follows_check(r, prompt_check(unified.prompt@)),
    {
        check_prompt(&unified.prompt)
    }

    /// The description of the internal test model for the metadata API.
    pub fn get_provider_info() -> (r: ProviderInfo)
        ensures
            r@ == inttest_info(),
    {
        let r = ProviderInfo {
            id: "inttest".to_string(),
            name: "Internal Test".to_string(),
            description: "Internal test model for development".to_string(),
            cost: CostInfo::from_usd_cents(INTTEST_COST_USD_CENTS),
            supports_image: true,
            supports_negative_prompt: false,
            supports_audio: false,
            supports_audio_input: false,
            supports_seed: false,
            allowed_aspect_ratios: vec![AspectRatioV2::Ratio16x9],
            allowed_resolutions: vec![ResolutionV2::R1080p],
            allowed_durations: vec![5],
            default_aspect_ratio: Some(AspectRatioV2::Ratio16x9),
            default_resolution: Some(ResolutionV2::R1080p),
            default_duration: Some(5),
            is_available: true,
            is_internal: true,
            model_icon: Some("https://yral.com/img/yral/favicon.svg".to_string()),
            ios_model_icon: None,
            extra_info: vec![],
        };
        assert(r@.allowed_aspect_ratios =~= inttest_info().allowed_aspect_ratios);
        assert(r@.allowed_resolutions =~= inttest_info().allowed_resolutions);
        assert(r@.allowed_durations =~= inttest_info().allowed_durations);
        assert(r@.extra_info =~= inttest_info().extra_info);
        r
    }

    /// The first-version description of the test model.
    pub fn model_info() -> (r: VideoModel)
        ensures
            r@ == inttest_model_info(),
    {
        let r = VideoModel {
            id: "inttest".to_string(),
            name: "IntTest".to_string(),
            description: "Test model that always returns the same video".to_string(),
            cost_usd_cents: INTTEST_COST_USD_CENTS,
            supports_image: true,
            provider: VideoGenProvider::IntTest,
            max_duration_seconds: 5,
            supported_aspect_ratios: vec![Veo3AspectRatio::Ratio16x9],
            model_icon: Some("/img/yral/favicon.svg".to_string()),
            is_available: true,
        };
        assert(r@.supported_aspect_ratios =~= inttest_model_info().supported_aspect_ratios);
        r
    }
}

} // verus!
