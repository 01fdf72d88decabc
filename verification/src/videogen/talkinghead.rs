//! The talking-head model: a face and a voice clip become a video.

use vstd::prelude::*;
use vstd::string::*;
use super::generator::{FlowControlFromEnv, VideoGenerator};
use super::input::VideoGenInput;
use crate::global_constants::TALKINGHEAD_COST_USD_CENTS;
use crate::text::str_eq;
use super::types::{follows_check, invalid_input, is_invalid_input, AudioData, ImageData, VideoGenError, VideoGenProvider};
use super::types_v2::{cost_of, CostInfo, ProviderInfo, ProviderInfoView, VideoGenRequestV2};

verus! {

broadcast use vstd::string::group_string_axioms;

/// The prompt that a talking-head input carries in place of a text prompt.
pub const TALKINGHEAD_PROMPT_PLACEHOLDER: &'static str = "[TalkingHead: Audio-based generation]";

/// Input of the talking-head model.
#[derive(Clone, Debug)]
pub struct TalkingHeadModel {
    /// Input image (face).
    pub image: ImageData,
    /// Input audio (voice).
    pub audio: AudioData,
    /// Placeholder prompt: the audio is the input.
    pub prompt: String,
}

impl VideoGenerator for TalkingHeadModel {
    open spec fn same_apart_from_image(&self, other: &Self) -> bool {
        self.audio == other.audio && self.prompt == other.prompt
    }

    open spec fn model_id_text(&self) -> Seq<char> {
        "talkinghead"@
    }

    open spec fn provider_of(&self) -> VideoGenProvider {
        VideoGenProvider::TalkingHead
    }

    open spec fn input_check(&self) -> Result<(), Seq<char>> {
        Ok(())
    }

    open spec fn prompt_text(&self) -> Seq<char> {
        self.prompt@
    }

    open spec fn image_of(&self) -> Option<ImageData> {
        Some(self.image)
    }

    open spec fn flow_control_of(&self) -> Option<(u32, u32)> {
        None
    }

    open spec fn webhook_callbacks(&self) -> bool {
        false
    }

    fn model_id(&self) -> (r: &'static str) {
        "talkinghead"
    }

    fn provider(&self) -> (r: VideoGenProvider) {
        VideoGenProvider::TalkingHead
    }

    fn validate_input(&self) -> (r: Result<(), VideoGenError>) {
        Ok(())
    }

    fn get_prompt(&self) -> (r: &str) {
        self.prompt.as_str()
    }

    fn get_image(&self) -> (r: Option<&ImageData>) {
        Some(&self.image)
    }

    fn get_image_mut(&mut self) -> (r: Option<&mut ImageData>) {
        Some(&mut self.image)
    }

    fn flow_control_config(&self) -> (r: Option<(u32, u32)>) {
        None
    }

    fn supports_webhook_callbacks(&self) -> (r: bool) {
        false
    }
}

impl FlowControlFromEnv for TalkingHeadModel {
    open spec fn env_prefix_text(&self) -> Seq<char> {
        "TALKINGHEAD"@
    }

    fn env_prefix(&self) -> (r: &'static str) {
        "TALKINGHEAD"
    }
}

/// The description of the talking-head model for the metadata API.
pub open spec fn talkinghead_info() -> ProviderInfoView {
    ProviderInfoView {
        id: "talkinghead"@,
        name: "Talking Head"@,
        description: "Generate realistic talking head videos from image and audio"@,
        cost: cost_of(TALKINGHEAD_COST_USD_CENTS),
        supports_image: true,
        supports_negative_prompt: false,
        supports_audio: true,
        supports_audio_input: true,
        supports_seed: false,
        allowed_aspect_ratios: Seq::empty(),
        allowed_resolutions: Seq::empty(),
        allowed_durations: Seq::empty(),
        default_aspect_ratio: None,
        default_resolution: None,
        default_duration: None,
        is_available: true,
        is_internal: false,
        model_icon: Some("https://yral.com/img/yral/favicon.svg"@),
        ios_model_icon: None,
        extra_info: Seq::empty(),
    }
}

/// Checks of a unified request for the talking-head model: an image and an
/// audio clip, no prompt but the placeholder, and none of the video settings.
pub open spec fn talkinghead_check(u: VideoGenRequestV2) -> Result<(), Seq<char>> {
    if u.image is None {
        Err("TalkingHead requires an image (face) input"@)
    } else if u.audio is None {
        Err("TalkingHead requires an audio (voice) input"@)
    } else if u.prompt@.len() != 0 && u.prompt@ != TALKINGHEAD_PROMPT_PLACEHOLDER@ {
        Err("TalkingHead does not use text prompts. Audio serves as the input."@)
    } else if u.negative_prompt is Some {
        Err("TalkingHead does not support negative prompts"@)
    } else if u.seed is Some {
        Err("TalkingHead does not support seed parameter"@)
    } else if u.resolution is Some {
        Err("TalkingHead does not support resolution parameter"@)
    } else if u.aspect_ratio is Some {
        Err("TalkingHead does not support aspect ratio parameter"@)
    } else if u.duration_seconds is Some {
        Err("TalkingHead duration is determined by audio length"@)
    } else {
        Ok(())
    }
}

impl TalkingHeadModel {
    /// The input audio.
    pub fn get_audio(&self) -> (r: &AudioData)
        ensures
            *r == self.audio,
    {
        &self.audio
    }

    /// The input audio, to be changed in place.
    pub fn get_audio_mut(&mut self) -> (r: &mut AudioData)
        ensures
            *r == old(self).audio,
            final(self).audio == *final(r),
            final(self).image == old(self).image,
            final(self).prompt == old(self).prompt,
    {
        &mut self.audio
    }

    /// Adapts a unified request to the talking-head model: its image and
    /// audio, with the placeholder prompt.
    pub fn from_unified_request(unified: VideoGenRequestV2) -> (r: Result<VideoGenInput, VideoGenError>)
        ensures
            match talkinghead_check(unified) {
                Err(msg) => is_invalid_input(r, msg),
                Ok(()) => r matches Ok(VideoGenInput::TalkingHead(m)) && {
                    &&& unified.image == Some(m.image)
                    &&& unified.audio == Some(m.audio)
                    &&& m.prompt@ == TALKINGHEAD_PROMPT_PLACEHOLDER@
                },
            },
    {
        Self::validate_unified_parameters(&unified)?;
        match (unified.image, unified.audio) {
            (Some(image), Some(audio)) => Ok(VideoGenInput::TalkingHead(TalkingHeadModel {
                image,
                audio,
                prompt: TALKINGHEAD_PROMPT_PLACEHOLDER.to_string(),
            })),
            (None, _) => Err(invalid_input("TalkingHead requires an image input")),
            (_, None) => Err(invalid_input("TalkingHead requires an audio input")),
        }
    }

    /// Checks a unified request: an image and an audio clip, no text prompt
    /// but the placeholder, no negative prompt, seed, resolution, aspect
    /// ratio or duration.
    pub fn validate_unified_parameters(unified: &VideoGenRequestV2) -> (r: Result<(), VideoGenError>)
        ensures
            follows_check(r, talkinghead_check(*unified)),
    {
        if unified.image.is_none() {
            return Err(invalid_input("TalkingHead requires an image (face) input"));
        }
        if unified.audio.is_none() {
            return Err(invalid_input("TalkingHead requires an audio (voice) input"));
        }
        if !unified.prompt.as_str().is_empty() && !str_eq(unified.prompt.as_str(), TALKINGHEAD_PROMPT_PLACEHOLDER) {
            return Err(invalid_input("TalkingHead does not use text prompts. Audio serves as the input."));
        }
        if unified.negative_prompt.is_some() {
            return Err(invalid_input("TalkingHead does not support negative prompts"));
        }
        if unified.seed.is_some() {
            return Err(invalid_input("TalkingHead does not support seed parameter"));
        }
        if unified.resolution.is_some() {
            return Err(invalid_input("TalkingHead does not support resolution parameter"));
        }
        if unified.aspect_ratio.is_some() {
            return Err(invalid_input("TalkingHead does not support aspect ratio parameter"));
        }
        if unified.duration_seconds.is_some() {
            return Err(invalid_input("TalkingHead duration is determined by audio length"));
        }
        Ok(())
    }

    /// The description of the talking-head model for the metadata API.
    pub fn get_provider_info() -> (r: ProviderInfo)
        ensures
            r@ == talkinghead_info(),
    {
        let r = ProviderInfo {
            id: "talkinghead".to_string(),
            name: "Talking Head".to_string(),
            description: "Generate realistic talking head videos from image and audio".to_string(),
            cost: CostInfo::from_usd_cents(TALKINGHEAD_COST_USD_CENTS),
            supports_image: true,
            supports_negative_prompt: false,
            supports_audio: true,
            supports_audio_input: true,
            supports_seed: false,
            allowed_aspect_ratios: vec![],
            allowed_resolutions: vec![],
            allowed_durations: vec![],
            default_aspect_ratio: None,
            default_resolution: None,
            default_duration: None,
            is_available: true,
            is_internal: false,
            model_icon: Some("https://yral.com/img/yral/favicon.svg".to_string()),
            ios_model_icon: None,
            extra_info: vec![],
        };
        assert(r@.allowed_aspect_ratios =~= talkinghead_info().allowed_aspect_ratios);
        assert(r@.allowed_resolutions =~= talkinghead_info().allowed_resolutions);
        assert(r@.allowed_durations =~= talkinghead_info().allowed_durations);
        assert(r@.extra_info =~= talkinghead_info().extra_info);
        r
    }
}

} // verus!
