//! Lightricks' LTX-2 model, self-hosted.

use vstd::prelude::*;
use vstd::string::*;
use super::generator::{FlowControlFromEnv, VideoGenerator};
use super::input::VideoGenInput;
use crate::global_constants::LTX2_COST_USD_CENTS;
use super::types::{follows_check, follows_outcome, invalid_input, ImageData, VideoGenError, VideoGenProvider};
use super::types_v2::{cost_of, text_entry, AspectRatioV2, CostInfo, ExtraValueView, ProviderInfo, ProviderInfoView, ResolutionV2, VideoGenRequestV2};

verus! {

broadcast use vstd::string::group_string_axioms;

/// Input of LTX-2: text-to-video, image-to-video, or both.
#[derive(Clone, Debug)]
pub struct Ltx2Model {
    pub prompt: String,
    pub image: Option<ImageData>,
}

/// Checks of an LTX-2 input: a prompt or an image.
pub open spec fn ltx2_check(prompt: Seq<char>, image: Option<ImageData>) -> Result<(), Seq<char>> {
    if prompt.len() == 0 && image is None {
        Err("Either prompt or image must be provided"@)
    } else {
        Ok(())
    }
}

fn check_prompt_or_image(prompt: &String, image: &Option<ImageData>) -> (r: Result<(), VideoGenError>)
    ensures
        follows_check(r, ltx2_check(prompt@, *image)),
{
    if prompt.as_str().is_empty() && image.is_none() {
        return Err(invalid_input("Either prompt or image must be provided"));
    }
    Ok(())
}

impl VideoGenerator for Ltx2Model {
    open spec fn same_apart_from_image(&self, other: &Self) -> bool {
        self.prompt == other.prompt
    }

    open spec fn model_id_text(&self) -> Seq<char> {
        "ltx2"@
    }

    open spec fn provider_of(&self) -> VideoGenProvider {
        VideoGenProvider::Ltx2
    }

    open spec fn input_check(&self) -> Result<(), Seq<char>> {
        ltx2_check(self.prompt@, self.image)
    }

    open spec fn prompt_text(&self) -> Seq<char> {
        self.prompt@
    }

    open spec fn image_of(&self) -> Option<ImageData> {
        self.image
    }

    open spec fn flow_control_of(&self) -> Option<(u32, u32)> {
        None
    }

    open spec fn webhook_callbacks(&self) -> bool {
        true
    }

    fn model_id(&self) -> (r: &'static str) {
        "ltx2"
    }

    fn provider(&self) -> (r: VideoGenProvider) {
        VideoGenProvider::Ltx2
    }

    fn validate_input(&self) -> (r: Result<(), VideoGenError>) {
        check_prompt_or_image(&self.prompt, &self.image)
    }

    fn get_prompt(&self) -> (r: &str) {
        self.prompt.as_str()
    }

    fn get_image(&self) -> (r: Option<&ImageData>) {
        self.image.as_ref()
    }

    fn get_image_mut(&mut self) -> (r: Option<&mut ImageData>) {
        self.image.as_mut()
    }

    fn flow_control_config(&self) -> (r: Option<(u32, u32)>) {
        None
    }

    fn supports_webhook_callbacks(&self) -> (r: bool) {
        true
    }
}

impl FlowControlFromEnv for Ltx2Model {
    open spec fn env_prefix_text(&self) -> Seq<char> {
        "LTX2"@
    }

    fn env_prefix(&self) -> (r: &'static str) {
        "LTX2"
    }
}

/// The description of LTX-2 for the metadata API.
pub open spec fn ltx2_info() -> ProviderInfoView {
    ProviderInfoView {
        id: "ltx2"@,
        name: "LTX-2 Video"@,
        description: "Lightricks LTX-2 19B distilled model for fast, high-quality video generation. Supports text-to-video and image-to-video."@,
        cost: cost_of(LTX2_COST_USD_CENTS),
        supports_image: true,
        supports_negative_prompt: false,
        supports_audio: true,
        supports_audio_input: false,
        supports_seed: false,
        allowed_aspect_ratios: seq![AspectRatioV2::Ratio16x9, AspectRatioV2::Ratio9x16],
        allowed_resolutions: seq![ResolutionV2::R720p, ResolutionV2::R1080p],
        allowed_durations: seq![5u8],
        default_aspect_ratio: Some(AspectRatioV2::Ratio16x9),
        default_resolution: Some(ResolutionV2::R720p),
        default_duration: Some(5),
        is_available: true,
        is_internal: false,
        model_icon: Some("https://yral.com/img/yral/favicon.svg"@),
        ios_model_icon: Some("https://yral.com/img/yral/android-chrome-192x192.png"@),
        extra_info: seq![("architecture"@, ExtraValueView::Text("DiT"@)), ("model_size"@, ExtraValueView::Text("19B distilled"@)), ("inference_time"@, ExtraValueView::Text("~7 seconds (cached)"@)), ("hosting"@, ExtraValueView::Text("Self-hosted H100"@))],
    }
}

/// The LTX-2 input that a unified request adapts to, or the message of the
/// first check it fails.
pub open spec fn ltx2_from_unified(u: VideoGenRequestV2) -> Result<VideoGenInput, Seq<char>> {
    if u.negative_prompt is Some {
        Err("LTX-2 negative prompt is hardcoded and cannot be customized"@)
    } else if u.seed is Some {
        Err("LTX-2 seed is not configurable"@)
    } else if u.duration_seconds matches Some(d) && d != 5 {
        Err("LTX-2 only supports 5 second duration"@)
    } else if u.resolution matches Some(res) && res != ResolutionV2::R720p && res != ResolutionV2::R1080p {
        Err("LTX-2 supports 720p and 1080p resolutions"@)
    } else {
        match ltx2_check(u.prompt@, u.image) {
            Err(m) => Err(m),
            Ok(()) => Ok(VideoGenInput::Ltx2(Ltx2Model { prompt: u.prompt, image: u.image })),
        }
    }
}

impl Ltx2Model {
    /// Adapts a unified request to LTX-2: no negative prompt or seed, only
    /// 5-second generations at 720p or 1080p.
    pub fn from_unified_request(unified: VideoGenRequestV2) -> (r: Result<VideoGenInput, VideoGenError>)
        ensures
            follows_outcome(r, ltx2_from_unified(unified)),
    {
        if unified.negative_prompt.is_some() {
            return Err(invalid_input("LTX-2 negative prompt is hardcoded and cannot be customized"));
        }
        if unified.seed.is_some() {
            return Err(invalid_input("LTX-2 seed is not configurable"));
        }
        if let Some(duration) = unified.duration_seconds {
            if duration != 5 {
                return Err(invalid_input("LTX-2 only supports 5 second duration"));
            }
        }
        if let Some(res) = unified.resolution {
            if res != ResolutionV2::R720p && res != ResolutionV2::R1080p {
                return Err(invalid_input("LTX-2 supports 720p and 1080p resolutions"));
            }
        }
        check_prompt_or_image(&unified.prompt, &unified.image)?;
        Ok(VideoGenInput::Ltx2(Ltx2Model { prompt: unified.prompt, image: unified.image }))
    }

    /// The description of LTX-2 for the metadata API.
    pub fn get_provider_info() -> (r: ProviderInfo)
        ensures
            r@ == ltx2_info(),
    {
        let r = ProviderInfo {
            id: "ltx2".to_string(),
            name: "LTX-2 Video".to_string(),
            description: "Lightricks LTX-2 19B distilled model for fast, high-quality video generation. Supports text-to-video and image-to-video.".to_string(),
            cost: CostInfo::from_usd_cents(LTX2_COST_USD_CENTS),
            supports_image: true,
            supports_negative_prompt: false,
            supports_audio: true,
            supports_audio_input: false,
            supports_seed: false,
            allowed_aspect_ratios: vec![AspectRatioV2::Ratio16x9, AspectRatioV2::Ratio9x16],
            allowed_resolutions: vec![ResolutionV2::R720p, ResolutionV2::R1080p],
            allowed_durations: vec![5],
            default_aspect_ratio: Some(AspectRatioV2::Ratio16x9),
            default_resolution: Some(ResolutionV2::R720p),
            default_duration: Some(5),
            is_available: true,
            is_internal: false,
            model_icon: Some("https://yral.com/img/yral/favicon.svg".to_string()),
            ios_model_icon: Some("https://yral.com/img/yral/android-chrome-192x192.png".to_string()),
            extra_info: vec![text_entry("architecture", "DiT"), text_entry("model_size", "19B distilled"), text_entry("inference_time", "~7 seconds (cached)"), text_entry("hosting", "Self-hosted H100")],
        };
        assert(r@.allowed_aspect_ratios =~= ltx2_info().allowed_aspect_ratios);
        assert(r@.allowed_resolutions =~= ltx2_info().allowed_resolutions);
        assert(r@.allowed_durations =~= ltx2_info().allowed_durations);
        assert(r@.extra_info =~= ltx2_info().extra_info);
        r
    }
}

} // verus!
