//! Luma Labs' Ray 2 Flash model.

use vstd::prelude::*;
use vstd::string::*;
use super::generator::{FlowControlFromEnv, VideoGenerator};
use super::input::VideoGenInput;
use super::inttest::check_prompt;
use super::types::{LumaLabsDuration, LumaLabsResolution};
use crate::global_constants::RAY2FLASH_COST_USD_CENTS;
use crate::decimal::{decimal, u64_to_decimal};
use crate::text::contains_char;
use super::types::{follows_check, invalid_input, is_invalid_input, ImageData, VideoGenError, VideoGenProvider};
use super::types_v2::{aspect_ratio_label, cost_of, AspectRatioV2, CostInfo, ProviderInfo, ProviderInfoView, ResolutionV2, VideoGenRequestV2};

verus! {

broadcast use vstd::string::group_string_axioms;

/// Input of Luma Labs' model.
#[derive(Clone, Debug)]
pub struct LumaLabsModel {
    pub prompt: String,
    pub image: Option<ImageData>,
    pub resolution: LumaLabsResolution,
    pub duration: LumaLabsDuration,
    /// Aspect ratio written as `width:height`.
    pub aspect_ratio: Option<String>,
    pub loop_video: bool,
}

/// Checks of a Luma Labs input: a prompt, and an aspect ratio with a `:`.
pub open spec fn lumalabs_check(m: LumaLabsModel) -> Result<(), Seq<char>> {
    if m.prompt@.len() == 0 {
        Err("Prompt cannot be empty"@)
    } else if m.aspect_ratio matches Some(a) && !a@.contains(':') {
        Err("Aspect ratio must be in format 'width:height'"@)
    } else {
        Ok(())
    }
}

impl VideoGenerator for LumaLabsModel {
    open spec fn same_apart_from_image(&self, other: &Self) -> bool {
        self.prompt == other.prompt && self.resolution == other.resolution && self.duration == other.duration && self.aspect_ratio == other.aspect_ratio && self.loop_video == other.loop_video
    }

    open spec fn model_id_text(&self) -> Seq<char> {
        "ray2flash"@
    }

    open spec fn provider_of(&self) -> VideoGenProvider {
        VideoGenProvider::LumaLabs
    }

    open spec fn input_check(&self) -> Result<(), Seq<char>> {
        lumalabs_check(*self)
    }

    open spec fn prompt_text(&self) -> Seq<char> {
        self.prompt@
    }

    open spec fn image_of(&self) -> Option<ImageData> {
        self.image
    }

    open spec fn flow_control_of(&self) -> Option<(u32, u32)> {
        None
    }

    open spec fn webhook_callbacks(&self) -> bool {
        false
    }

    fn model_id(&self) -> (r: &'static str) {
        "ray2flash"
    }

    fn provider(&self) -> (r: VideoGenProvider) {
        VideoGenProvider::LumaLabs
    }

    fn validate_input(&self) -> (r: Result<(), VideoGenError>) {
        if self.prompt.as_str().is_empty() {
            return Err(invalid_input("Prompt cannot be empty"));
        }
        if let Some(aspect_ratio) = &self.aspect_ratio {
            if !contains_char(aspect_ratio.as_str(), ':') {
                return Err(invalid_input("Aspect ratio must be in format 'width:height'"));
            }
        }
        Ok(())
    }

    fn get_prompt(&self) -> (r: &str) {
        self.prompt.as_str()
    }

    fn get_image(&self) -> (r: Option<&ImageData>) {
        self.image.as_ref()
    }

    fn get_image_mut(&mut self) -> (r: Option<&mut ImageData>) {
        self.image.as_mut()
    }

    fn flow_control_config(&self) -> (r: Option<(u32, u32)>) {
        None
    }

    fn supports_webhook_callbacks(&self) -> (r: bool) {
        false
    }
}

impl FlowControlFromEnv for LumaLabsModel {
    open spec fn env_prefix_text(&self) -> Seq<char> {
        "LUMALABS"@
    }

    fn env_prefix(&self) -> (r: &'static str) {
        "LUMALABS"
    }
}

/// The description of Luma Labs' model for the metadata API.
pub open spec fn lumalabs_info() -> ProviderInfoView {
    ProviderInfoView {
        id: "lumalabs"@,
        name: "Luma Labs"@,
        description: "Luma Labs Dream Machine for high-quality video generation"@,
        cost: cost_of(RAY2FLASH_COST_USD_CENTS),
        supports_image: true,
        supports_negative_prompt: false,
        supports_audio: false,
        supports_audio_input: false,
        supports_seed: false,
        allowed_aspect_ratios: seq![AspectRatioV2::Ratio16x9, AspectRatioV2::Ratio9x16, AspectRatioV2::Ratio1x1, AspectRatioV2::Ratio4x3, AspectRatioV2::Ratio3x4],
        allowed_resolutions: seq![ResolutionV2::R540p, ResolutionV2::R720p, ResolutionV2::R1080p, ResolutionV2::R4k],
        allowed_durations: seq![9u8],
        default_aspect_ratio: Some(AspectRatioV2::Ratio16x9),
        default_resolution: Some(ResolutionV2::R1080p),
        default_duration: Some(9),
        is_available: true,
        is_internal: false,
        model_icon: Some("https://yral.com/img/ai-models/lumalabs.png"@),
        ios_model_icon: None,
        extra_info: Seq::empty(),
    }
}

/// The Luma Labs resolution of a unified request: 1080p where none is given.
pub open spec fn luma_resolution(r: Option<ResolutionV2>) -> LumaLabsResolution {
    match r {
        Some(ResolutionV2::R540p) => LumaLabsResolution::R540p,
        Some(ResolutionV2::R720p) => LumaLabsResolution::R720p,
        Some(ResolutionV2::R1080p) => LumaLabsResolution::R1080p,
        Some(ResolutionV2::R4k) => LumaLabsResolution::R4k,
        None => LumaLabsResolution::R1080p,
    }
}

/// The Luma Labs duration of a unified request (5 seconds where none is
/// given), or the message that refuses any duration but 5 and 9 seconds.
pub open spec fn luma_duration(d: Option<u8>) -> Result<LumaLabsDuration, Seq<char>> {
    match d {
        None => Ok(LumaLabsDuration::D5s),
        Some(s) => if s == 5 {
            Ok(LumaLabsDuration::D5s)
        } else if s == 9 {
            Ok(LumaLabsDuration::D9s)
        } else {
            Err("LumaLabs only supports 5 or 9 second durations, got: "@ + decimal(s as nat))
        },
    }
}

/// Checks of a unified request for Luma Labs: a prompt, and no negative
/// prompt, seed or audio setting.
pub open spec fn luma_unified_check(u: VideoGenRequestV2) -> Result<(), Seq<char>> {
    if u.prompt@.len() == 0 {
        Err("Prompt cannot be empty"@)
    } else if u.negative_prompt is Some {
        Err("LumaLabs does not support negative prompts"@)
    } else if u.seed is Some {
        Err("LumaLabs does not support seed parameter"@)
    } else if u.generate_audio is Some {
        Err("LumaLabs does not have configurable audio generation"@)
    } else {
        Ok(())
    }
}

/// The aspect ratio that a unified request gives Luma Labs: its label, or `16:9`.
pub open spec fn luma_aspect_ratio(a: Option<AspectRatioV2>) -> Seq<char> {
    match a {
        Some(a) => aspect_ratio_label(a),
        None => "16:9"@,
    }
}

/// `r` is the Luma Labs input that `u` adapts to, or the error of the first
/// check that `u` fails: the duration first, then the other checks.
pub open spec fn luma_adapts(u: VideoGenRequestV2, r: Result<VideoGenInput, VideoGenError>) -> bool {
    match luma_duration(u.duration_seconds) {
        Err(msg) => is_invalid_input(r, msg),
        Ok(d) => match luma_unified_check(u) {
            Err(msg) => is_invalid_input(r, msg),
            Ok(()) => r matches Ok(VideoGenInput::LumaLabs(m)) && {
                &&& m.prompt == u.prompt
                &&& m.image == u.image
                &&& m.resolution == luma_resolution(u.resolution)
                &&& m.duration == d
                &&& m.aspect_ratio matches Some(a) && a@ == luma_aspect_ratio(u.aspect_ratio)
                &&& !m.loop_video
            },
        },
    }
}

impl LumaLabsModel {
    /// Adapts a unified request to Luma Labs: 5 or 9 seconds (5 by default),
    /// 1080p by default, and a `16:9` aspect ratio by default.
    pub fn from_unified_request(unified: VideoGenRequestV2) -> (r: Result<VideoGenInput, VideoGenError>)
        ensures
            luma_adapts(unified, r),
    {
        let resolution = match unified.resolution {
            Some(ResolutionV2::R540p) => LumaLabsResolution::R540p,
            Some(ResolutionV2::R720p) => LumaLabsResolution::R720p,
            Some(ResolutionV2::R1080p) => LumaLabsResolution::R1080p,
            Some(ResolutionV2::R4k) => LumaLabsResolution::R4k,
            None => LumaLabsResolution::R1080p,
        };
        let duration = match unified.duration_seconds {
            None => LumaLabsDuration::D5s,
            Some(5) => LumaLabsDuration::D5s,
            Some(9) => LumaLabsDuration::D9s,
            Some(other) => {
                let shown = u64_to_decimal(other as u64);
                let mut msg = "LumaLabs only supports 5 or 9 second durations, got: ".to_string();
                msg.append(shown.as_str());
                return Err(VideoGenError::InvalidInput(msg));
            },
        };
        Self::validate_unified_parameters(&unified)?;
        let aspect_ratio = match unified.aspect_ratio {
            Some(a) => a.label().to_string(),
            None => "16:9".to_string(),
        };
        Ok(VideoGenInput::LumaLabs(LumaLabsModel {
            prompt: unified.prompt,
            image: unified.image,
            resolution,
            duration,
            aspect_ratio: Some(aspect_ratio),
            loop_video: false,
        }))
    }

    /// Checks a unified request: a prompt, and no negative prompt, seed or audio setting.
    pub fn validate_unified_parameters(unified: &VideoGenRequestV2) -> (r: Result<(), VideoGenError>)
        ensures
            follows_check(r, luma_unified_check(*unified)),
    {
        check_prompt(&unified.prompt)?;
        if unified.negative_prompt.is_some() {
            return Err(invalid_input("LumaLabs does not support negative prompts"));
        }
        if unified.seed.is_some() {
            return Err(invalid_input("LumaLabs does not support seed parameter"));
        }
        if unified.generate_audio.is_some() {
            return Err(invalid_input("LumaLabs does not have configurable audio generation"));
        }
        Ok(())
    }

    /// The description of Luma Labs' model for the metadata API.
    pub fn get_provider_info() -> (r: ProviderInfo)
        ensures
            r@ == lumalabs_info(),
    {
        let r = ProviderInfo {
            id: "lumalabs".to_string(),
            name: "Luma Labs".to_string(),
            description: "Luma Labs Dream Machine for high-quality video generation".to_string(),
            cost: CostInfo::from_usd_cents(RAY2FLASH_COST_USD_CENTS),
            supports_image: true,
            supports_negative_prompt: false,
            supports_audio: false,
            supports_audio_input: false,
            supports_seed: false,
            allowed_aspect_ratios: vec![AspectRatioV2::Ratio16x9, AspectRatioV2::Ratio9x16, AspectRatioV2::Ratio1x1, AspectRatioV2::Ratio4x3, AspectRatioV2::Ratio3x4],
            allowed_resolutions: vec![ResolutionV2::R540p, ResolutionV2::R720p, ResolutionV2::R1080p, ResolutionV2::R4k],
            allowed_durations: vec![9],
            default_aspect_ratio: Some(AspectRatioV2::Ratio16x9),
            default_resolution: Some(ResolutionV2::R1080p),
            default_duration: Some(9),
            is_available: true,
            is_internal: false,
            model_icon: Some("https://yral.com/img/ai-models/lumalabs.png".to_string()),
            ios_model_icon: None,
            extra_info: vec![],
        };
        assert(r@.allowed_aspect_ratios =~= lumalabs_info().allowed_aspect_ratios);
        assert(r@.allowed_resolutions =~= lumalabs_info().allowed_resolutions);
        assert(r@.allowed_durations =~= lumalabs_info().allowed_durations);
        assert(r@.extra_info =~= lumalabs_info().extra_info);
        r
    }
}

} // verus!
