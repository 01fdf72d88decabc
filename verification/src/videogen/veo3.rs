//! Google Veo3 and Veo3 Fast.

use vstd::prelude::*;
use vstd::string::*;
use crate::global_constants::{VEO3_COST_USD_CENTS, VEO3_FAST_COST_USD_CENTS};
use crate::text::concat3;
use super::generator::{FlowControlFromEnv, VideoGenerator};
use super::input::VideoGenInput;
use super::types::{follows_check, follows_outcome, invalid_input, ImageData, Veo3AspectRatio, VideoGenError, VideoGenProvider};
use super::types_v2::{aspect_ratio_label, cost_of, AspectRatioV2, CostInfo, ProviderInfo, ProviderInfoView, VideoGenRequestV2};

verus! {

broadcast use vstd::string::group_string_axioms;

/// Input of the Veo3 model.
#[derive(Clone, Debug)]
pub struct Veo3Model {
    pub prompt: String,
    pub negative_prompt: Option<String>,
    pub image: Option<ImageData>,
    pub aspect_ratio: Veo3AspectRatio,
    pub duration_seconds: u8,
    pub generate_audio: bool,
}

/// Input of the Veo3 Fast model.
#[derive(Clone, Debug)]
pub struct Veo3FastModel {
    pub prompt: String,
    pub negative_prompt: Option<String>,
    pub image: Option<ImageData>,
    pub aspect_ratio: Veo3AspectRatio,
    pub duration_seconds: u8,
    pub generate_audio: bool,
}

/// Checks of a Veo3 input: a prompt and a duration of 1 to 8 seconds.
pub open spec fn veo3_input_check(prompt: Seq<char>, duration_seconds: u8) -> Result<(), Seq<char>> {
    if prompt.len() == 0 {
        Err("Prompt cannot be empty"@)
    } else if duration_seconds == 0 || duration_seconds > 8 {
        Err("Duration must be between 1 and 8 seconds"@)
    } else {
        Ok(())
    }
}

fn check_veo3_input(prompt: &String, duration_seconds: u8) -> (r: Result<(), VideoGenError>)
    ensures
        follows_check(r, veo3_input_check(prompt@, duration_seconds)),
{
    if prompt.as_str().is_empty() {
        return Err(invalid_input("Prompt cannot be empty"));
    }
    if duration_seconds == 0 || duration_seconds > 8 {
        return Err(invalid_input("Duration must be between 1 and 8 seconds"));
    }
    Ok(())
}

impl VideoGenerator for Veo3Model {
    open spec fn same_apart_from_image(&self, other: &Self) -> bool {
        self.prompt == other.prompt && self.negative_prompt == other.negative_prompt && self.aspect_ratio == other.aspect_ratio && self.duration_seconds == other.duration_seconds && self.generate_audio == other.generate_audio
    }

    open spec fn model_id_text(&self) -> Seq<char> {
        "veo3"@
    }

    open spec fn provider_of(&self) -> VideoGenProvider {
        VideoGenProvider::Veo3
    }

    open spec fn input_check(&self) -> Result<(), Seq<char>> {
        veo3_input_check(self.prompt@, self.duration_seconds)
    }

    open spec fn prompt_text(&self) -> Seq<char> {
        self.prompt@
    }

    open spec fn image_of(&self) -> Option<ImageData> {
        self.image
    }

    open spec fn flow_control_of(&self) -> Option<(u32, u32)> {
        None
    }

    open spec fn webhook_callbacks(&self) -> bool {
        false
    }

    fn model_id(&self) -> (r: &'static str) {
        "veo3"
    }

    fn provider(&self) -> (r: VideoGenProvider) {
        VideoGenProvider::Veo3
    }

    fn validate_input(&self) -> (r: Result<(), VideoGenError>) {
        check_veo3_input(&self.prompt, self.duration_seconds)
    }

    fn get_prompt(&self) -> (r: &str) {
        self.prompt.as_str()
    }

    fn get_image(&self) -> (r: Option<&ImageData>) {
        self.image.as_ref()
    }

    fn get_image_mut(&mut self) -> (r: Option<&mut ImageData>) {
        self.image.as_mut()
    }

    fn flow_control_config(&self) -> (r: Option<(u32, u32)>) {
        None
    }

    fn supports_webhook_callbacks(&self) -> (r: bool) {
        false
    }
}

impl FlowControlFromEnv for Veo3Model {
    open spec fn env_prefix_text(&self) -> Seq<char> {
        "VEO3"@
    }

    fn env_prefix(&self) -> (r: &'static str) {
        "VEO3"
    }
}

impl VideoGenerator for Veo3FastModel {
    open spec fn same_apart_from_image(&self, other: &Self) -> bool {
        self.prompt == other.prompt && self.negative_prompt == other.negative_prompt && self.aspect_ratio == other.aspect_ratio && self.duration_seconds == other.duration_seconds && self.generate_audio == other.generate_audio
    }

    open spec fn model_id_text(&self) -> Seq<char> {
        "veo3_fast"@
    }

    open spec fn provider_of(&self) -> VideoGenProvider {
        VideoGenProvider::Veo3Fast
    }

    open spec fn input_check(&self) -> Result<(), Seq<char>> {
        veo3_input_check(self.prompt@, self.duration_seconds)
    }

    open spec fn prompt_text(&self) -> Seq<char> {
        self.prompt@
    }

    open spec fn image_of(&self) -> Option<ImageData> {
        self.image
    }

    open spec fn flow_control_of(&self) -> Option<(u32, u32)> {
        None
    }

    open spec fn webhook_callbacks(&self) -> bool {
        false
    }

    fn model_id(&self) -> (r: &'static str) {
        "veo3_fast"
    }

    fn provider(&self) -> (r: VideoGenProvider) {
        VideoGenProvider::Veo3Fast
    }

    fn validate_input(&self) -> (r: Result<(), VideoGenError>) {
        check_veo3_input(&self.prompt, self.duration_seconds)
    }

    fn get_prompt(&self) -> (r: &str) {
        self.prompt.as_str()
    }

    fn get_image(&self) -> (r: Option<&ImageData>) {
        self.image.as_ref()
    }

    fn get_image_mut(&mut self) -> (r: Option<&mut ImageData>) {
        self.image.as_mut()
    }

    fn flow_control_config(&self) -> (r: Option<(u32, u32)>) {
        None
    }

    fn supports_webhook_callbacks(&self) -> (r: bool) {
        false
    }
}

impl FlowControlFromEnv for Veo3FastModel {
    open spec fn env_prefix_text(&self) -> Seq<char> {
        "VEO3_FAST"@
    }

    fn env_prefix(&self) -> (r: &'static str) {
        "VEO3_FAST"
    }
}

/// Checks of a unified request for Veo3; `name` is the model's name in the
/// messages (`Veo3` or `Veo3Fast`).
pub open spec fn veo3_unified_check(u: VideoGenRequestV2, name: Seq<char>) -> Result<(), Seq<char>> {
    if u.duration_seconds matches Some(d) && (d == 0 || d > 8) {
        Err("Duration must be between 1 and 8 seconds for "@ + name)
    } else if u.prompt@.len() == 0 {
        Err("Prompt cannot be empty"@)
    } else if u.seed is Some {
        Err(name + " does not support seed parameter"@)
    } else if u.resolution is Some {
        if name == "Veo3"@ {
            Err("Veo3 does not support resolution parameter. Use aspect_ratio instead"@)
        } else {
            Err(name + " does not support resolution parameter"@)
        }
    } else if u.image is Some {
        Err(name + " does not support image input"@)
    } else {
        Ok(())
    }
}

/// The Veo3 input that a unified request adapts to, or the message of the
/// first check it fails.
pub open spec fn veo3_from_unified(u: VideoGenRequestV2) -> Result<VideoGenInput, Seq<char>> {
    match u.aspect_ratio {
        Some(a) if a != AspectRatioV2::Ratio16x9 && a != AspectRatioV2::Ratio9x16 => Err(
            "Veo3 does not support "@ + aspect_ratio_label(a) + " aspect ratio. Supported: 16:9, 9:16"@,
        ),
        _ => match veo3_unified_check(u, "Veo3"@) {
            Err(m) => Err(m),
            Ok(()) => Ok(
                VideoGenInput::Veo3(
                    Veo3Model {
                        prompt: u.prompt,
                        negative_prompt: u.negative_prompt,
                        image: u.image,
                        aspect_ratio: if u.aspect_ratio == Some(AspectRatioV2::Ratio9x16) {
                            Veo3AspectRatio::Ratio9x16
                        } else {
                            Veo3AspectRatio::Ratio16x9
                        },
                        duration_seconds: match u.duration_seconds {
                            Some(d) => d,
                            None => 8,
                        },
                        generate_audio: match u.generate_audio {
                            Some(g) => g,
                            None => true,
                        },
                    },
                ),
            ),
        },
    }
}

/// The Veo3 Fast input that a unified request adapts to, or the message of
/// the first check it fails.
pub open spec fn veo3_fast_from_unified(u: VideoGenRequestV2) -> Result<VideoGenInput, Seq<char>> {
    match u.aspect_ratio {
        Some(a) if a != AspectRatioV2::Ratio16x9 => Err(
            "Veo3Fast only supports 16:9 aspect ratio, got: "@ + aspect_ratio_label(a),
        ),
        _ => match veo3_unified_check(u, "Veo3Fast"@) {
            Err(m) => Err(m),
            Ok(()) => Ok(
                VideoGenInput::Veo3Fast(
                    Veo3FastModel {
                        prompt: u.prompt,
                        negative_prompt: u.negative_prompt,
                        image: u.image,
                        aspect_ratio: Veo3AspectRatio::Ratio16x9,
                        duration_seconds: match u.duration_seconds {
                            Some(d) => d,
                            None => 8,
                        },
                        generate_audio: match u.generate_audio {
                            Some(g) => g,
                            None => true,
                        },
                    },
                ),
            ),
        },
    }
}

/// The description of a Veo3 model; `fast` selects Veo3 Fast.
pub open spec fn veo3_info(fast: bool) -> ProviderInfoView {
    ProviderInfoView {
        id: if fast { "veo3_fast"@ } else { "veo3"@ },
        name: if fast { "Veo3 Fast"@ } else { "Veo3"@ },
        description: if fast { "Google Veo3 - Faster and cheaper"@ } else { "Google's advanced video generation model"@ },
        cost: cost_of(if fast { VEO3_FAST_COST_USD_CENTS } else { VEO3_COST_USD_CENTS }),
        supports_image: false,
        supports_negative_prompt: true,
        supports_audio: true,
        supports_audio_input: false,
        supports_seed: false,
        allowed_aspect_ratios: seq![AspectRatioV2::Ratio16x9, AspectRatioV2::Ratio9x16],
        allowed_resolutions: Seq::empty(),
        allowed_durations: seq![8u8],
        default_aspect_ratio: Some(AspectRatioV2::Ratio16x9),
        default_resolution: None,
        default_duration: Some(8),
        is_available: true,
        is_internal: false,
        model_icon: Some("https://yral.com/img/ai-models/veo3.svg"@),
        ios_model_icon: Some("https://yral.com/img/ai-models/veo3.png"@),
        extra_info: Seq::empty(),
    }
}

/// Checks of a unified request shared by Veo3 and Veo3 Fast.
fn check_veo3_unified(unified: &VideoGenRequestV2, fast: bool) -> (r: Result<(), VideoGenError>)
    ensures
        follows_check(r, veo3_unified_check(*unified, if fast { "Veo3Fast"@ } else { "Veo3"@ })),
{
    proof {
        reveal_strlit("Veo3");
        reveal_strlit("Veo3Fast");
    }
    let name = if fast { "Veo3Fast" } else { "Veo3" };
    if let Some(duration) = unified.duration_seconds {
        if duration == 0 || duration > 8 {
            return Err(VideoGenError::InvalidInput(
                crate::text::concat2("Duration must be between 1 and 8 seconds for ", name),
            ));
        }
    }
    if unified.prompt.as_str().is_empty() {
        return Err(invalid_input("Prompt cannot be empty"));
    }
    if unified.seed.is_some() {
        return Err(VideoGenError::InvalidInput(crate::text::concat2(name, " does not support seed parameter")));
    }
    if unified.resolution.is_some() {
        if fast {
            return Err(VideoGenError::InvalidInput(
                crate::text::concat2(name, " does not support resolution parameter"),
            ));
        } else {
            return Err(invalid_input("Veo3 does not support resolution parameter. Use aspect_ratio instead"));
        }
    }
    if unified.image.is_some() {
        return Err(VideoGenError::InvalidInput(crate::text::concat2(name, " does not support image input")));
    }
    Ok(())
}

impl Veo3Model {
    /// Adapts a unified request to Veo3: the aspect ratio defaults to 16:9,
    /// the duration to 8 seconds and audio generation to on.
    pub fn from_unified_request(unified: VideoGenRequestV2) -> (r: Result<VideoGenInput, VideoGenError>)
        ensures
            follows_outcome(r, veo3_from_unified(unified)),
    {
        let aspect_ratio = match unified.aspect_ratio {
            Some(AspectRatioV2::Ratio16x9) | None => Veo3AspectRatio::Ratio16x9,
            Some(AspectRatioV2::Ratio9x16) => Veo3AspectRatio::Ratio9x16,
            Some(other) => {
                let msg = concat3("Veo3 does not support ", other.label(), " aspect ratio. Supported: 16:9, 9:16");
                return Err(VideoGenError::InvalidInput(msg));
            },
        };
        let duration_seconds = unified.duration_seconds.unwrap_or(8);
        let generate_audio = unified.generate_audio.unwrap_or(true);
        Self::validate_unified_parameters(&unified)?;
        Ok(VideoGenInput::Veo3(Veo3Model {
            prompt: unified.prompt,
            negative_prompt: unified.negative_prompt,
            image: unified.image,
            aspect_ratio,
            duration_seconds,
            generate_audio,
        }))
    }

    /// Checks a unified request against what Veo3 supports.
    pub fn validate_unified_parameters(unified: &VideoGenRequestV2) -> (r: Result<(), VideoGenError>)
        ensures
            follows_check(r, veo3_unified_check(*unified, "Veo3"@)),
    {
        check_veo3_unified(unified, false)
    }

    /// The description of Veo3 for the metadata API.
    pub fn get_provider_info() -> (r: ProviderInfo)
        ensures
            r@ == veo3_info(false),
    {
        let r = ProviderInfo {
            id: "veo3".to_string(),
            name: "Veo3".to_string(),
            description: "Google's advanced video generation model".to_string(),
            cost: CostInfo::from_usd_cents(VEO3_COST_USD_CENTS),
            supports_image: false,
            supports_negative_prompt: true,
            supports_audio: true,
            supports_audio_input: false,
            supports_seed: false,
            allowed_aspect_ratios: vec![AspectRatioV2::Ratio16x9, AspectRatioV2::Ratio9x16],
            allowed_resolutions: vec![],
            allowed_durations: vec![8],
            default_aspect_ratio: Some(AspectRatioV2::Ratio16x9),
            default_resolution: None,
            default_duration: Some(8),
            is_available: true,
            is_internal: false,
            model_icon: Some("https://yral.com/img/ai-models/veo3.svg".to_string()),
            ios_model_icon: Some("https://yral.com/img/ai-models/veo3.png".to_string()),
            extra_info: vec![],
        };
        assert(r@.allowed_aspect_ratios =~= veo3_info(false).allowed_aspect_ratios);
        assert(r@.allowed_resolutions =~= veo3_info(false).allowed_resolutions);
        assert(r@.allowed_durations =~= veo3_info(false).allowed_durations);
        assert(r@.extra_info =~= veo3_info(false).extra_info);
        r
    }
}

impl Veo3FastModel {
    /// Adapts a unified request to Veo3 Fast: only 16:9 is supported, the
    /// duration defaults to 8 seconds and audio generation to on.
    pub fn from_unified_request(unified: VideoGenRequestV2) -> (r: Result<VideoGenInput, VideoGenError>)
        ensures
            follows_outcome(r, veo3_fast_from_unified(unified)),
    {
        let aspect_ratio = match unified.aspect_ratio {
            Some(AspectRatioV2::Ratio16x9) | None => Veo3AspectRatio::Ratio16x9,
            Some(other) => {
                let msg = crate::text::concat2("Veo3Fast only supports 16:9 aspect ratio, got: ", other.label());
                return Err(VideoGenError::InvalidInput(msg));
            },
        };
        let duration_seconds = unified.duration_seconds.unwrap_or(8);
        let generate_audio = unified.generate_audio.unwrap_or(true);
        Self::validate_unified_parameters(&unified)?;
        Ok(VideoGenInput::Veo3Fast(Veo3FastModel {
            prompt: unified.prompt,
            negative_prompt: unified.negative_prompt,
            image: unified.image,
            aspect_ratio,
            duration_seconds,
            generate_audio,
        }))
    }

    /// Checks a unified request against what Veo3 Fast supports.
    pub fn validate_unified_parameters(unified: &VideoGenRequestV2) -> (r: Result<(), VideoGenError>)
        ensures
            follows_check(r, veo3_unified_check(*unified, "Veo3Fast"@)),
    {
        check_veo3_unified(unified, true)
    }

    /// The description of Veo3 Fast for the metadata API.
    pub fn get_provider_info() -> (r: ProviderInfo)
        ensures
            r@ == veo3_info(true),
    {
        let r = ProviderInfo {
            id: "veo3_fast".to_string(),
            name: "Veo3 Fast".to_string(),
            description: "Google Veo3 - Faster and cheaper".to_string(),
            cost: CostInfo::from_usd_cents(VEO3_FAST_COST_USD_CENTS),
            supports_image: false,
            supports_negative_prompt: true,
            supports_audio: true,
            supports_audio_input: false,
            supports_seed: false,
            allowed_aspect_ratios: vec![AspectRatioV2::Ratio16x9, AspectRatioV2::Ratio9x16],
            allowed_resolutions: vec![],
            allowed_durations: vec![8],
            default_aspect_ratio: Some(AspectRatioV2::Ratio16x9),
            default_resolution: None,
            default_duration: Some(8),
            is_available: true,
            is_internal: false,
            model_icon: Some("https://yral.com/img/ai-models/veo3.svg".to_string()),
            ios_model_icon: Some("https://yral.com/img/ai-models/veo3.png".to_string()),
            extra_info: vec![],
        };
        assert(r@.allowed_aspect_ratios =~= veo3_info(true).allowed_aspect_ratios);
        assert(r@.allowed_resolutions =~= veo3_info(true).allowed_resolutions);
        assert(r@.allowed_durations =~= veo3_info(true).allowed_durations);
        assert(r@.extra_info =~= veo3_info(true).extra_info);
        r
    }
}

} // verus!
