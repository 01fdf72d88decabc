//! Alibaba's Wan 2.2, Wan 2.5 and Wan 2.5 Fast models.

use vstd::prelude::*;
use vstd::string::*;
use super::generator::{FlowControlFromEnv, VideoGenerator};
use super::input::VideoGenInput;
use super::inttest::{check_prompt, prompt_check};
use crate::global_constants::{WAN2_2_COST_USD_CENTS, WAN2_5_COST_USD_CENTS};
use crate::text::concat2;
use super::types::{follows_check, follows_outcome, ImageData, VideoGenError, VideoGenProvider};
use super::types_v2::{cost_of, text_entry, text_list_entry, AspectRatioV2, CostInfo, ExtraValueView, ProviderInfo, ProviderInfoView, ResolutionV2, VideoGenRequestV2};

verus! {

broadcast use vstd::string::group_string_axioms;

/// Input of Wan 2.2 (text-to-video, or image-to-video when `is_i2v`).
#[derive(Clone, Debug)]
pub struct Wan22Model {
    pub prompt: String,
    /// Image for image-to-video generation.
    pub image: Option<ImageData>,
    /// Whether the image-to-video endpoint is used.
    pub is_i2v: bool,
}

/// Input of Wan 2.5.
#[derive(Clone, Debug)]
pub struct Wan25Model {
    pub prompt: String,
    /// Image for image-to-video generation.
    pub image: Option<ImageData>,
}

/// Input of Wan 2.5 Fast.
#[derive(Clone, Debug)]
pub struct Wan25FastModel {
    pub prompt: String,
    /// Image for image-to-video generation.
    pub image: Option<ImageData>,
}

/// Checks of a unified request for a Wan model called `name`; the Wan 2.5
/// models (`fixed_noise`) also refuse a negative prompt and a seed.
pub open spec fn wan_unified_check(u: VideoGenRequestV2, name: Seq<char>, fixed_noise: bool) -> Result<(), Seq<char>> {
    if fixed_noise && u.negative_prompt is Some {
        Err(name + " negative prompt is hardcoded and cannot be customized"@)
    } else if fixed_noise && u.seed is Some {
        Err(name + " seed is hardcoded to -1 (random)"@)
    } else if u.duration_seconds matches Some(d) && d != 5 {
        Err(name + " only supports 5 second duration"@)
    } else if u.resolution matches Some(res) && res != ResolutionV2::R720p {
        Err(name + " only supports 720p resolution"@)
    } else if u.prompt@.len() == 0 {
        Err("Prompt cannot be empty"@)
    } else {
        Ok(())
    }
}

fn check_wan_unified(unified: &VideoGenRequestV2, name: &str, fixed_noise: bool) -> (r: Result<(), VideoGenError>)
    ensures
        follows_check(r, wan_unified_check(*unified, name@, fixed_noise)),
{
    if fixed_noise && unified.negative_prompt.is_some() {
        return Err(VideoGenError::InvalidInput(concat2(name, " negative prompt is hardcoded and cannot be customized")));
    }
    if fixed_noise && unified.seed.is_some() {
        return Err(VideoGenError::InvalidInput(concat2(name, " seed is hardcoded to -1 (random)")));
    }
    if let Some(duration) = unified.duration_seconds {
        if duration != 5 {
            return Err(VideoGenError::InvalidInput(concat2(name, " only supports 5 second duration")));
        }
    }
    if let Some(res) = unified.resolution {
        if res != ResolutionV2::R720p {
            return Err(VideoGenError::InvalidInput(concat2(name, " only supports 720p resolution")));
        }
    }
    check_prompt(&unified.prompt)
}

impl VideoGenerator for Wan22Model {
    open spec fn same_apart_from_image(&self, other: &Self) -> bool {
        self.prompt == other.prompt && self.is_i2v == other.is_i2v
    }

    open spec fn model_id_text(&self) -> Seq<char> {
        "wan2_2"@
    }

    open spec fn provider_of(&self) -> VideoGenProvider {
        VideoGenProvider::Wan22
    }

    open spec fn input_check(&self) -> Result<(), Seq<char>> {
        prompt_check(self.prompt@)
    }

    open spec fn prompt_text(&self) -> Seq<char> {
        self.prompt@
    }

    open spec fn image_of(&self) -> Option<ImageData> {
        self.image
    }

    open spec fn flow_control_of(&self) -> Option<(u32, u32)> {
        None
    }

    open spec fn webhook_callbacks(&self) -> bool {
        false
    }

    fn model_id(&self) -> (r: &'static str) {
        "wan2_2"
    }

    fn provider(&self) -> (r: VideoGenProvider) {
        VideoGenProvider::Wan22
    }

    fn validate_input(&self) -> (r: Result<(), VideoGenError>) {
        check_prompt(&self.prompt)
    }

    fn get_prompt(&self) -> (r: &str) {
        self.prompt.as_str()
    }

    fn get_image(&self) -> (r: Option<&ImageData>) {
        self.image.as_ref()
    }

    fn get_image_mut(&mut self) -> (r: Option<&mut ImageData>) {
        self.image.as_mut()
    }

    fn flow_control_config(&self) -> (r: Option<(u32, u32)>) {
        None
    }

    fn supports_webhook_callbacks(&self) -> (r: bool) {
        false
    }
}

impl FlowControlFromEnv for Wan22Model {
    open spec fn env_prefix_text(&self) -> Seq<char> {
        "WAN2_2"@
    }

    fn env_prefix(&self) -> (r: &'static str) {
        "WAN2_2"
    }
}

impl VideoGenerator for Wan25Model {
    open spec fn same_apart_from_image(&self, other: &Self) -> bool {
        self.prompt == other.prompt
    }

    open spec fn model_id_text(&self) -> Seq<char> {
        "wan2_5"@
    }

    open spec fn provider_of(&self) -> VideoGenProvider {
        VideoGenProvider::Wan25
    }

    open spec fn input_check(&self) -> Result<(), Seq<char>> {
        prompt_check(self.prompt@)
    }

    open spec fn prompt_text(&self) -> Seq<char> {
        self.prompt@
    }

    open spec fn image_of(&self) -> Option<ImageData> {
        self.image
    }

    open spec fn flow_control_of(&self) -> Option<(u32, u32)> {
        None
    }

    open spec fn webhook_callbacks(&self) -> bool {
        true
    }

    fn model_id(&self) -> (r: &'static str) {
        "wan2_5"
    }

    fn provider(&self) -> (r: VideoGenProvider) {
        VideoGenProvider::Wan25
    }

    fn validate_input(&self) -> (r: Result<(), VideoGenError>) {
        check_prompt(&self.prompt)
    }

    fn get_prompt(&self) -> (r: &str) {
        self.prompt.as_str()
    }

    fn get_image(&self) -> (r: Option<&ImageData>) {
        self.image.as_ref()
    }

    fn get_image_mut(&mut self) -> (r: Option<&mut ImageData>) {
        self.image.as_mut()
    }

    fn flow_control_config(&self) -> (r: Option<(u32, u32)>) {
        None
    }

    fn supports_webhook_callbacks(&self) -> (r: bool) {
        true
    }
}

impl FlowControlFromEnv for Wan25Model {
    open spec fn env_prefix_text(&self) -> Seq<char> {
        "WAN2_5"@
    }

    fn env_prefix(&self) -> (r: &'static str) {
        "WAN2_5"
    }
}

impl VideoGenerator for Wan25FastModel {
    open spec fn same_apart_from_image(&self, other: &Self) -> bool {
        self.prompt == other.prompt
    }

    open spec fn model_id_text(&self) -> Seq<char> {
        "wan2_5_fast"@
    }

    open spec fn provider_of(&self) -> VideoGenProvider {
        VideoGenProvider::Wan25Fast
    }

    open spec fn input_check(&self) -> Result<(), Seq<char>> {
        prompt_check(self.prompt@)
    }

    open spec fn prompt_text(&self) -> Seq<char> {
        self.prompt@
    }

    open spec fn image_of(&self) -> Option<ImageData> {
        self.image
    }

    open spec fn flow_control_of(&self) -> Option<(u32, u32)> {
        None
    }

    open spec fn webhook_callbacks(&self) -> bool {
        true
    }

    fn model_id(&self) -> (r: &'static str) {
        "wan2_5_fast"
    }

    fn provider(&self) -> (r: VideoGenProvider) {
        VideoGenProvider::Wan25Fast
    }

    fn validate_input(&self) -> (r: Result<(), VideoGenError>) {
        check_prompt(&self.prompt)
    }

    fn get_prompt(&self) -> (r: &str) {
        self.prompt.as_str()
    }

    fn get_image(&self) -> (r: Option<&ImageData>) {
        self.image.as_ref()
    }

    fn get_image_mut(&mut self) -> (r: Option<&mut ImageData>) {
        self.image.as_mut()
    }

    fn flow_control_config(&self) -> (r: Option<(u32, u32)>) {
        None
    }

    fn supports_webhook_callbacks(&self) -> (r: bool) {
        true
    }
}

impl FlowControlFromEnv for Wan25FastModel {
    open spec fn env_prefix_text(&self) -> Seq<char> {
        "WAN2_5_FAST"@
    }

    fn env_prefix(&self) -> (r: &'static str) {
        "WAN2_5_FAST"
    }
}

/// The description of Wan 2.2 for the metadata API.
pub open spec fn wan22_info() -> ProviderInfoView {
    ProviderInfoView {
        id: "wan2_2"@,
        name: "Wan 2.2 T2V"@,
        description: "Alibaba's Wan 2.2 MoE model for cinematic 720p text-to-video generation with superior motion coherence"@,
        cost: cost_of(WAN2_2_COST_USD_CENTS),
        supports_image: true,
        supports_negative_prompt: false,
        supports_audio: false,
        supports_audio_input: false,
        supports_seed: false,
        allowed_aspect_ratios: seq![AspectRatioV2::Ratio9x16],
        allowed_resolutions: seq![ResolutionV2::R720p],
        allowed_durations: seq![5u8],
        default_aspect_ratio: Some(AspectRatioV2::Ratio9x16),
        default_resolution: Some(ResolutionV2::R720p),
        default_duration: Some(5),
        is_available: true,
        is_internal: false,
        model_icon: Some("https://yral.com/img/yral/favicon.svg"@),
        ios_model_icon: Some("https://yral.com/img/yral/android-chrome-192x192.png"@),
        extra_info: seq![("architecture"@, ExtraValueView::Text("MoE Flow-Matching"@)), ("model_size"@, ExtraValueView::Text("14B"@)), ("supports_modes"@, ExtraValueView::TextList(seq!["t2v"@, "i2v"@]))],
    }
}

/// The Wan 2.2 input that a unified request adapts to, or the message of
/// the first check it fails.
pub open spec fn wan22_from_unified(u: VideoGenRequestV2) -> Result<VideoGenInput, Seq<char>> {
    match wan_unified_check(u, "Wan 2.2"@, false) {
        Err(m) => Err(m),
        Ok(()) => Ok(VideoGenInput::Wan22(Wan22Model { prompt: u.prompt, image: u.image, is_i2v: u.image is Some })),
    }
}

impl Wan22Model {
    /// Adapts a unified request to Wan 2.2: only 5-second, 720p generations.
    pub fn from_unified_request(unified: VideoGenRequestV2) -> (r: Result<VideoGenInput, VideoGenError>)
        ensures
            follows_outcome(r, wan22_from_unified(unified)),
    {
        let is_i2v = unified.image.is_some();
        check_wan_unified(&unified, "Wan 2.2", false)?;
        Ok(VideoGenInput::Wan22(Wan22Model { prompt: unified.prompt, image: unified.image, is_i2v }))
    }

    /// The description of Wan 2.2 for the metadata API.
    pub fn get_provider_info() -> (r: ProviderInfo)
        ensures
            r@ == wan22_info(),
    {
        let r = ProviderInfo {
            id: "wan2_2".to_string(),
            name: "Wan 2.2 T2V".to_string(),
            description: "Alibaba's Wan 2.2 MoE model for cinematic 720p text-to-video generation with superior motion coherence".to_string(),
            cost: CostInfo::from_usd_cents(WAN2_2_COST_USD_CENTS),
            supports_image: true,
            supports_negative_prompt: false,
            supports_audio: false,
            supports_audio_input: false,
            supports_seed: false,
            allowed_aspect_ratios: vec![AspectRatioV2::Ratio9x16],
            allowed_resolutions: vec![ResolutionV2::R720p],
            allowed_durations: vec![5],
            default_aspect_ratio: Some(AspectRatioV2::Ratio9x16),
            default_resolution: Some(ResolutionV2::R720p),
            default_duration: Some(5),
            is_available: true,
            is_internal: false,
            model_icon: Some("https://yral.com/img/yral/favicon.svg".to_string()),
            ios_model_icon: Some("https://yral.com/img/yral/android-chrome-192x192.png".to_string()),
            extra_info: vec![text_entry("architecture", "MoE Flow-Matching"), text_entry("model_size", "14B"), text_list_entry("supports_modes", "t2v", "i2v")],
        };
        assert(r@.allowed_aspect_ratios =~= wan22_info().allowed_aspect_ratios);
        assert(r@.allowed_resolutions =~= wan22_info().allowed_resolutions);
        assert(r@.allowed_durations =~= wan22_info().allowed_durations);
        assert(r@.extra_info =~= wan22_info().extra_info);
        r
    }
}

/// The description of Wan 2.5 for the metadata API.
pub open spec fn wan25_info() -> ProviderInfoView {
    ProviderInfoView {
        id: "wan2_5"@,
        name: "Wan 2.5"@,
        description: "Alibaba's Wan 2.5 MoE model for cinematic 720p video generation with superior motion coherence. Supports image-to-video."@,
        cost: cost_of(WAN2_5_COST_USD_CENTS),
        supports_image: true,
        supports_negative_prompt: false,
        supports_audio: true,
        supports_audio_input: false,
        supports_seed: false,
        allowed_aspect_ratios: seq![AspectRatioV2::Ratio9x16],
        allowed_resolutions: seq![ResolutionV2::R720p],
        allowed_durations: seq![5u8],
        default_aspect_ratio: Some(AspectRatioV2::Ratio9x16),
        default_resolution: Some(ResolutionV2::R720p),
        default_duration: Some(5),
        is_available: true,
        is_internal: false,
        model_icon: Some("https://yral.com/img/yral/favicon.svg"@),
        ios_model_icon: Some("https://yral.com/img/yral/android-chrome-192x192.png"@),
        extra_info: seq![("architecture"@, ExtraValueView::Text("MoE Flow-Matching"@)), ("model_size"@, ExtraValueView::Text("14B"@))],
    }
}

/// The Wan 2.5 input that a unified request adapts to, or the message of
/// the first check it fails.
pub open spec fn wan25_from_unified(u: VideoGenRequestV2) -> Result<VideoGenInput, Seq<char>> {
    match wan_unified_check(u, "Wan 2.5"@, true) {
        Err(m) => Err(m),
        Ok(()) => Ok(VideoGenInput::Wan25(Wan25Model { prompt: u.prompt, image: u.image })),
    }
}

impl Wan25Model {
    /// Adapts a unified request to Wan 2.5: only 5-second, 720p generations.
    pub fn from_unified_request(unified: VideoGenRequestV2) -> (r: Result<VideoGenInput, VideoGenError>)
        ensures
            follows_outcome(r, wan25_from_unified(unified)),
    {
        check_wan_unified(&unified, "Wan 2.5", true)?;
        Ok(VideoGenInput::Wan25(Wan25Model { prompt: unified.prompt, image: unified.image }))
    }

    /// The description of Wan 2.5 for the metadata API.
    pub fn get_provider_info() -> (r: ProviderInfo)
        ensures
            r@ == wan25_info(),
    {
        let r = ProviderInfo {
            id: "wan2_5".to_string(),
            name: "Wan 2.5".to_string(),
            description: "Alibaba's Wan 2.5 MoE model for cinematic 720p video generation with superior motion coherence. Supports image-to-video.".to_string(),
            cost: CostInfo::from_usd_cents(WAN2_5_COST_USD_CENTS),
            supports_image: true,
            supports_negative_prompt: false,
            supports_audio: true,
            supports_audio_input: false,
            supports_seed: false,
            allowed_aspect_ratios: vec![AspectRatioV2::Ratio9x16],
            allowed_resolutions: vec![ResolutionV2::R720p],
            allowed_durations: vec![5],
            default_aspect_ratio: Some(AspectRatioV2::Ratio9x16),
            default_resolution: Some(ResolutionV2::R720p),
            default_duration: Some(5),
            is_available: true,
            is_internal: false,
            model_icon: Some("https://yral.com/img/yral/favicon.svg".to_string()),
            ios_model_icon: Some("https://yral.com/img/yral/android-chrome-192x192.png".to_string()),
            extra_info: vec![text_entry("architecture", "MoE Flow-Matching"), text_entry("model_size", "14B")],
        };
        assert(r@.allowed_aspect_ratios =~= wan25_info().allowed_aspect_ratios);
        assert(r@.allowed_resolutions =~= wan25_info().allowed_resolutions);
        assert(r@.allowed_durations =~= wan25_info().allowed_durations);
        assert(r@.extra_info =~= wan25_info().extra_info);
        r
    }
}

/// The description of Wan 2.5 Fast for the metadata API.
pub open spec fn wan25_fast_info() -> ProviderInfoView {
    ProviderInfoView {
        id: "wan2_5_fast"@,
        name: "Wan 2.5 Fast"@,
        description: "Alibaba's Wan 2.5 Fast model for quick 720p video generation with optimized speed. Supports image-to-video."@,
        cost: cost_of(WAN2_5_COST_USD_CENTS),
        supports_image: true,
        supports_negative_prompt: false,
        supports_audio: true,
        supports_audio_input: false,
        supports_seed: false,
        allowed_aspect_ratios: seq![AspectRatioV2::Ratio9x16],
        allowed_resolutions: seq![ResolutionV2::R720p],
        allowed_durations: seq![5u8],
        default_aspect_ratio: Some(AspectRatioV2::Ratio9x16),
        default_resolution: Some(ResolutionV2::R720p),
        default_duration: Some(5),
        is_available: true,
        is_internal: false,
        model_icon: Some("https://yral.com/img/yral/favicon.svg"@),
        ios_model_icon: Some("https://yral.com/img/yral/android-chrome-192x192.png"@),
        extra_info: seq![("architecture"@, ExtraValueView::Text("MoE Flow-Matching"@)), ("model_size"@, ExtraValueView::Text("14B"@)), ("speed"@, ExtraValueView::Text("optimized"@))],
    }
}

/// The Wan 2.5 Fast input that a unified request adapts to, or the message of
/// the first check it fails.
pub open spec fn wan25_fast_from_unified(u: VideoGenRequestV2) -> Result<VideoGenInput, Seq<char>> {
    match wan_unified_check(u, "Wan 2.5 Fast"@, true) {
        Err(m) => Err(m),
        Ok(()) => Ok(VideoGenInput::Wan25Fast(Wan25FastModel { prompt: u.prompt, image: u.image })),
    }
}

impl Wan25FastModel {
    /// Adapts a unified request to Wan 2.5 Fast: only 5-second, 720p generations.
    pub fn from_unified_request(unified: VideoGenRequestV2) -> (r: Result<VideoGenInput, VideoGenError>)
        ensures
            follows_outcome(r, wan25_fast_from_unified(unified)),
    {
        check_wan_unified(&unified, "Wan 2.5 Fast", true)?;
        Ok(VideoGenInput::Wan25Fast(Wan25FastModel { prompt: unified.prompt, image: unified.image }))
    }

    /// The description of Wan 2.5 Fast for the metadata API.
    pub fn get_provider_info() -> (r: ProviderInfo)
        ensures
            r@ == wan25_fast_info(),
    {
        let r = ProviderInfo {
            id: "wan2_5_fast".to_string(),
            name: "Wan 2.5 Fast".to_string(),
            description: "Alibaba's Wan 2.5 Fast model for quick 720p video generation with optimized speed. Supports image-to-video.".to_string(),
            cost: CostInfo::from_usd_cents(WAN2_5_COST_USD_CENTS),
            supports_image: true,
            supports_negative_prompt: false,
            supports_audio: true,
            supports_audio_input: false,
            supports_seed: false,
            allowed_aspect_ratios: vec![AspectRatioV2::Ratio9x16],
            allowed_resolutions: vec![ResolutionV2::R720p],
            allowed_durations: vec![5],
            default_aspect_ratio: Some(AspectRatioV2::Ratio9x16),
            default_resolution: Some(ResolutionV2::R720p),
            default_duration: Some(5),
            is_available: true,
            is_internal: false,
            model_icon: Some("https://yral.com/img/yral/favicon.svg".to_string()),
            ios_model_icon: Some("https://yral.com/img/yral/android-chrome-192x192.png".to_string()),
            extra_info: vec![text_entry("architecture", "MoE Flow-Matching"), text_entry("model_size", "14B"), text_entry("speed", "optimized")],
        };
        assert(r@.allowed_aspect_ratios =~= wan25_fast_info().allowed_aspect_ratios);
        assert(r@.allowed_resolutions =~= wan25_fast_info().allowed_resolutions);
        assert(r@.allowed_durations =~= wan25_fast_info().allowed_durations);
        assert(r@.extra_info =~= wan25_fast_info().extra_info);
        r
    }
}

} // verus!
