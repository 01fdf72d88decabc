//! Stability AI's Stable Audio model, which makes sound effects and music.

use vstd::prelude::*;
use vstd::string::*;
use super::generator::{FlowControlFromEnv, VideoGenerator};
use super::input::VideoGenInput;
use super::inttest::check_prompt;
use crate::text::str_eq;
use super::types::{invalid_input, is_invalid_input, ImageData, VideoGenError, VideoGenProvider};
use super::types_v2::{cost_of, names_distinct, text_entry, CostInfo, ExtraValue, ExtraValueView, ProviderInfo, ProviderInfoView, VideoGenRequestV2};

verus! {

broadcast use vstd::string::group_string_axioms;

/// Input of Stable Audio.
#[derive(Clone, Debug)]
pub struct StableAudioModel {
    pub prompt: String,
    /// Duration in seconds.
    pub duration: u32,
}

impl Default for StableAudioModel {
    /// No prompt, and 90 seconds.
    fn default() -> (r: Self)
        ensures
            r.prompt@.len() == 0,
            r.duration == 90,
    {
        StableAudioModel { prompt: String::new(), duration: 90 }
    }
}

/// Checks of a Stable Audio input: a prompt, and 1 to 180 seconds.
pub open spec fn stable_audio_check(m: StableAudioModel) -> Result<(), Seq<char>> {
    if m.prompt@.len() == 0 {
        Err("Audio prompt cannot be empty"@)
    } else if m.duration < 1 || m.duration > 180 {
        Err("Duration must be between 1 and 180 seconds"@)
    } else {
        Ok(())
    }
}

impl VideoGenerator for StableAudioModel {
    open spec fn same_apart_from_image(&self, other: &Self) -> bool {
        *self == *other
    }

    open spec fn model_id_text(&self) -> Seq<char> {
        "stable_audio"@
    }

    open spec fn provider_of(&self) -> VideoGenProvider {
        VideoGenProvider::StableAudio
    }

    open spec fn input_check(&self) -> Result<(), Seq<char>> {
        stable_audio_check(*self)
    }

    open spec fn prompt_text(&self) -> Seq<char> {
        self.prompt@
    }

    open spec fn image_of(&self) -> Option<ImageData> {
        None
    }

    open spec fn flow_control_of(&self) -> Option<(u32, u32)> {
        None
    }

    open spec fn webhook_callbacks(&self) -> bool {
        false
    }

    fn model_id(&self) -> (r: &'static str) {
        "stable_audio"
    }

    fn provider(&self) -> (r: VideoGenProvider) {
        VideoGenProvider::StableAudio
    }

    fn validate_input(&self) -> (r: Result<(), VideoGenError>) {
        if self.prompt.as_str().is_empty() {
            return Err(invalid_input("Audio prompt cannot be empty"));
        }
        if self.duration < 1 || self.duration > 180 {
            return Err(invalid_input("Duration must be between 1 and 180 seconds"));
        }
        Ok(())
    }

    fn get_prompt(&self) -> (r: &str) {
        self.prompt.as_str()
    }

    fn get_image(&self) -> (r: Option<&ImageData>) {
        None
    }

    fn get_image_mut(&mut self) -> (r: Option<&mut ImageData>) {
        None
    }

    fn flow_control_config(&self) -> (r: Option<(u32, u32)>) {
        None
    }

    fn supports_webhook_callbacks(&self) -> (r: bool) {
        false
    }
}

impl FlowControlFromEnv for StableAudioModel {
    open spec fn env_prefix_text(&self) -> Seq<char> {
        "STABLE_AUDIO"@
    }

    fn env_prefix(&self) -> (r: &'static str) {
        "STABLE_AUDIO"
    }
}

/// The description of Stable Audio for the metadata API.
pub open spec fn stable_audio_info() -> ProviderInfoView {
    ProviderInfoView {
        id: "stable_audio"@,
        name: "Stable Audio 2.5"@,
        description: "Stability AI's advanced audio generation model for creating high-quality sound effects and music"@,
        cost: cost_of(5),
        supports_image: false,
        supports_negative_prompt: false,
        supports_audio: true,
        supports_audio_input: false,
        supports_seed: false,
        allowed_aspect_ratios: Seq::empty(),
        allowed_resolutions: Seq::empty(),
        allowed_durations: seq![5u8, 10u8, 15u8, 30u8, 60u8, 90u8, 120u8, 180u8],
        default_aspect_ratio: None,
        default_resolution: None,
        default_duration: Some(90),
        is_available: true,
        is_internal: false,
        model_icon: Some("https://replicate.com/stability-ai.png"@),
        ios_model_icon: Some("https://replicate.com/stability-ai.png"@),
        extra_info: seq![("type"@, ExtraValueView::Text("audio_generator"@)), ("provider"@, ExtraValueView::Text("replicate"@))],
    }
}

/// The value of the first free-form parameter called `name`, if any.
pub open spec fn extra_named(params: Seq<(String, ExtraValue)>, name: Seq<char>) -> Option<ExtraValue>
    decreases params.len(),
{
    if params.len() == 0 {
        None
    } else if params[0].0@ == name {
        Some(params[0].1)
    } else {
        extra_named(params.drop_first(), name)
    }
}

/// Where no name occurs twice, as in the map the parameters come from, the
/// value found for a name is that of the one entry with that name, and
/// nothing is found for a name no entry has.
pub proof fn lemma_extra_named_is_map_lookup(params: Seq<(String, ExtraValue)>, name: Seq<char>)
    requires
        names_distinct(params),
    ensures
        forall|i: int| 0 <= i < params.len() && #[trigger] params[i].0@ == name ==> extra_named(params, name) == Some(params[i].1),
        (forall|i: int| 0 <= i < params.len() ==> #[trigger] params[i].0@ != name) ==> extra_named(params, name) is None,
    decreases params.len(),
{
    if params.len() > 0 {
        let rest = params.drop_first();
        assert(names_distinct(rest)) by {
            assert forall|i: int, j: int| 0 <= i < rest.len() && 0 <= j < rest.len() && i != j implies #[trigger] rest[i].0@ != #[trigger] rest[j].0@ by {
                assert(rest[i] == params[i + 1] && rest[j] == params[j + 1]);
            }
        }
        lemma_extra_named_is_map_lookup(rest, name);
        assert forall|i: int| 0 <= i < params.len() && #[trigger] params[i].0@ == name implies extra_named(params, name) == Some(params[i].1) by {
            if i > 0 {
                assert(params[0].0@ != params[i].0@);
                assert(rest[i - 1] == params[i]);
            }
        }
        if forall|i: int| 0 <= i < params.len() ==> #[trigger] params[i].0@ != name {
            assert forall|i: int| 0 <= i < rest.len() implies #[trigger] rest[i].0@ != name by {
                assert(rest[i] == params[i + 1]);
            }
            assert(params[0].0@ != name);
        }
    }
}

/// The value of the first free-form parameter called `name`, if any.
pub fn find_extra<'a>(params: &'a Vec<(String, ExtraValue)>, name: &str) -> (r: Option<&'a ExtraValue>)
    ensures
        match r {
            Some(v) => extra_named(params@, name@) == Some(*v),
            None => extra_named(params@, name@) is None,
        },
{
    let n = params.len();
    let mut i: usize = 0;
    assert(params@.subrange(0, n as int) =~= params@);
    while i < n
        invariant
            i <= n,
            n == params@.len(),
            extra_named(params@, name@) == extra_named(params@.subrange(i as int, n as int), name@),
        decreases n - i,
    {
        let ghost rest = params@.subrange(i as int, n as int);
        assert(rest.drop_first() =~= params@.subrange(i + 1, n as int));
        if str_eq(params[i].0.as_str(), name) {
            return Some(&params[i].1);
        }
        i = i + 1;
    }
    None
}

/// The duration of a unified request for Stable Audio: a `duration`
/// parameter that is a whole number, cut to 32 bits, or else the request's
/// duration, or else 90 seconds.
pub open spec fn stable_audio_duration(u: VideoGenRequestV2) -> u32 {
    let base: u32 = match u.duration_seconds {
        Some(d) => d as u32,
        None => 90,
    };
    match extra_named(u.extra_params@, "duration"@) {
        Some(ExtraValue::Unsigned(n)) => n as u32,
        _ => base,
    }
}

/// `r` is the Stable Audio input that `u` adapts to, or the error of the
/// first check that `u` fails.
pub open spec fn stable_audio_adapts(u: VideoGenRequestV2, r: Result<VideoGenInput, VideoGenError>) -> bool {
    if u.image is Some {
        is_invalid_input(r, "Stable Audio does not support image input"@)
    } else if u.prompt@.len() == 0 {
        is_invalid_input(r, "Prompt cannot be empty"@)
    } else {
        r == Ok::<VideoGenInput, VideoGenError>(
            VideoGenInput::StableAudio(StableAudioModel { prompt: u.prompt, duration: stable_audio_duration(u) }),
        )
    }
}

impl StableAudioModel {
    /// Adapts a unified request to Stable Audio: a prompt, no image, and the
    /// duration of `stable_audio_duration`.
    pub fn from_unified_request(unified: VideoGenRequestV2) -> (r: Result<VideoGenInput, VideoGenError>)
        ensures
            stable_audio_adapts(unified, r),
    {
        if unified.image.is_some() {
            return Err(invalid_input("Stable Audio does not support image input"));
        }
        check_prompt(&unified.prompt)?;
        let base: u32 = match unified.duration_seconds {
            Some(d) => d as u32,
            None => 90,
        };
        let duration: u32 = match find_extra(&unified.extra_params, "duration") {
            Some(ExtraValue::Unsigned(n)) => *n as u32,
            _ => base,
        };
        Ok(VideoGenInput::StableAudio(StableAudioModel { prompt: unified.prompt, duration }))
    }

    /// The description of Stable Audio for the metadata API.
    pub fn get_provider_info() -> (r: ProviderInfo)
        ensures
            r@ == stable_audio_info(),
    {
        let r = ProviderInfo {
            id: "stable_audio".to_string(),
            name: "Stable Audio 2.5".to_string(),
            description: "Stability AI's advanced audio generation model for creating high-quality sound effects and music".to_string(),
            cost: CostInfo::from_usd_cents(5),
            supports_image: false,
            supports_negative_prompt: false,
            supports_audio: true,
            supports_audio_input: false,
            supports_seed: false,
            allowed_aspect_ratios: vec![],
            allowed_resolutions: vec![],
            allowed_durations: vec![5, 10, 15, 30, 60, 90, 120, 180],
            default_aspect_ratio: None,
            default_resolution: None,
            default_duration: Some(90),
            is_available: true,
            is_internal: false,
            model_icon: Some("https://replicate.com/stability-ai.png".to_string()),
            ios_model_icon: Some("https://replicate.com/stability-ai.png".to_string()),
            extra_info: vec![text_entry("type", "audio_generator"), text_entry("provider", "replicate")],
        };
        assert(r@.allowed_aspect_ratios =~= stable_audio_info().allowed_aspect_ratios);
        assert(r@.allowed_resolutions =~= stable_audio_info().allowed_resolutions);
        assert(r@.allowed_durations =~= stable_audio_info().allowed_durations);
        assert(r@.extra_info =~= stable_audio_info().extra_info);
        r
    }
}

} // verus!
