//! The speech-to-video model: a voice clip, and optionally a face, become a video.

use vstd::prelude::*;
use vstd::string::*;
use super::generator::VideoGenerator;
use super::input::VideoGenInput;
use crate::global_constants::WAN2_5_COST_USD_CENTS;
use super::types::{follows_outcome, invalid_input, AudioData, ImageData, VideoGenError, VideoGenProvider};
use super::types_v2::{cost_of, text_entry, AspectRatioV2, CostInfo, ExtraValueView, ProviderInfo, ProviderInfoView, ResolutionV2, VideoGenRequestV2};

verus! {

broadcast use vstd::string::group_string_axioms;

/// Input of the speech-to-video model.
#[derive(Clone, Debug)]
pub struct SpeechToVideoModel {
    /// Input voice.
    pub audio: AudioData,
    /// Optional image for image-to-video generation with speech.
    pub image: Option<ImageData>,
}

impl VideoGenerator for SpeechToVideoModel {
    open spec fn same_apart_from_image(&self, other: &Self) -> bool {
        self.audio == other.audio
    }

    open spec fn model_id_text(&self) -> Seq<char> {
        "speech_to_video"@
    }

    open spec fn provider_of(&self) -> VideoGenProvider {
        VideoGenProvider::SpeechToVideo
    }

    open spec fn input_check(&self) -> Result<(), Seq<char>> {
        Ok(())
    }

    open spec fn prompt_text(&self) -> Seq<char> {
        ""@
    }

    open spec fn image_of(&self) -> Option<ImageData> {
        self.image
    }

    open spec fn flow_control_of(&self) -> Option<(u32, u32)> {
        None
    }

    open spec fn webhook_callbacks(&self) -> bool {
        true
    }

    fn model_id(&self) -> (r: &'static str) {
        "speech_to_video"
    }

    fn provider(&self) -> (r: VideoGenProvider) {
        VideoGenProvider::SpeechToVideo
    }

    fn validate_input(&self) -> (r: Result<(), VideoGenError>) {
        Ok(())
    }

    fn get_prompt(&self) -> (r: &str) {
        ""
    }

    fn get_image(&self) -> (r: Option<&ImageData>) {
        self.image.as_ref()
    }

    fn get_image_mut(&mut self) -> (r: Option<&mut ImageData>) {
        self.image.as_mut()
    }

    fn flow_control_config(&self) -> (r: Option<(u32, u32)>) {
        None
    }

    fn supports_webhook_callbacks(&self) -> (r: bool) {
        true
    }
}

/// The description of the speech-to-video model for the metadata API.
pub open spec fn speech_to_video_info() -> ProviderInfoView {
    ProviderInfoView {
        id: "speech_to_video"@,
        name: "SpeechToVideo"@,
        description: "Generates videos from speech and optional image input using advanced AI models."@,
        cost: cost_of(WAN2_5_COST_USD_CENTS),
        supports_image: true,
        supports_negative_prompt: false,
        supports_audio: true,
        supports_audio_input: true,
        supports_seed: false,
        allowed_aspect_ratios: seq![AspectRatioV2::Ratio9x16],
        allowed_resolutions: seq![ResolutionV2::R720p],
        allowed_durations: seq![5u8],
        default_aspect_ratio: Some(AspectRatioV2::Ratio9x16),
        default_resolution: Some(ResolutionV2::R720p),
        default_duration: None,
        is_available: true,
        is_internal: false,
        model_icon: Some("https://yral.com/img/yral/favicon.svg"@),
        ios_model_icon: Some("https://yral.com/img/yral/android-chrome-192x192.png"@),
        extra_info: seq![("architecture"@, ExtraValueView::Text("MoE Flow-Matching"@)), ("model_size"@, ExtraValueView::Text("14B"@)), ("speed"@, ExtraValueView::Text("optimized"@))],
    }
}

/// The speech-to-video input that a unified request adapts to: it needs audio.
pub open spec fn speech_to_video_from_unified(u: VideoGenRequestV2) -> Result<VideoGenInput, Seq<char>> {
    match u.audio {
        Some(audio) => Ok(VideoGenInput::SpeechToVideo(SpeechToVideoModel { audio, image: u.image })),
        None => Err("Audio data is required for SpeechToVideoModel"@),
    }
}

impl SpeechToVideoModel {
    /// Adapts a unified request to the speech-to-video model, which takes its audio and image.
    pub fn from_unified_request(request: VideoGenRequestV2) -> (r: Result<VideoGenInput, VideoGenError>)
        ensures
            follows_outcome(r, speech_to_video_from_unified(request)),
    {
        match request.audio {
            Some(audio) => Ok(VideoGenInput::SpeechToVideo(SpeechToVideoModel { audio, image: request.image })),
            None => Err(invalid_input("Audio data is required for SpeechToVideoModel")),
        }
    }

    /// The description of the speech-to-video model for the metadata API.
    pub fn get_provider_info() -> (r: ProviderInfo)
        ensures
            r@ == speech_to_video_info(),
    {
        let r = ProviderInfo {
            id: "speech_to_video".to_string(),
            name: "SpeechToVideo".to_string(),
            description: "Generates videos from speech and optional image input using advanced AI models.".to_string(),
            cost: CostInfo::from_usd_cents(WAN2_5_COST_USD_CENTS),
            supports_image: true,
            supports_negative_prompt: false,
            supports_audio: true,
            supports_audio_input: true,
            supports_seed: false,
            allowed_aspect_ratios: vec![AspectRatioV2::Ratio9x16],
            allowed_resolutions: vec![ResolutionV2::R720p],
            allowed_durations: vec![5],
            default_aspect_ratio: Some(AspectRatioV2::Ratio9x16),
            default_resolution: Some(ResolutionV2::R720p),
            default_duration: None,
            is_available: true,
            is_internal: false,
            model_icon: Some("https://yral.com/img/yral/favicon.svg".to_string()),
            ios_model_icon: Some("https://yral.com/img/yral/android-chrome-192x192.png".to_string()),
            extra_info: vec![text_entry("architecture", "MoE Flow-Matching"), text_entry("model_size", "14B"), text_entry("speed", "optimized")],
        };
        assert(r@.allowed_aspect_ratios =~= speech_to_video_info().allowed_aspect_ratios);
        assert(r@.allowed_resolutions =~= speech_to_video_info().allowed_resolutions);
        assert(r@.allowed_durations =~= speech_to_video_info().allowed_durations);
        assert(r@.extra_info =~= speech_to_video_info().extra_info);
        r
    }
}

} // verus!
