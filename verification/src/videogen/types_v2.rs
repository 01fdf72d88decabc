//! The unified (v2) generation request and the provider descriptions.

use vstd::prelude::*;
use vstd::string::*;
use candid::Principal;
use crate::global_constants::{VIDEOGEN_USD_CENTS_TO_DOLR_E8S, VIDEOGEN_USD_CENTS_TO_SATS};
use crate::text::str_eq;
use super::token_costs::TokenCostConfig;
use super::types::{AudioData, ImageData, TokenType, VideoGenRequestKey};

verus! {

broadcast use vstd::string::group_string_axioms;

/// Aspect ratios of the unified request.
#[derive(Clone, Copy, Debug, PartialEq, Eq, Structural)]
pub enum AspectRatioV2 {
    Ratio16x9,
    Ratio9x16,
    Ratio1x1,
    Ratio4x3,
    Ratio3x4,
}

/// The written form of an aspect ratio, such as `16:9`.
pub open spec fn aspect_ratio_label(a: AspectRatioV2) -> Seq<char> {
    match a {
        AspectRatioV2::Ratio16x9 => "16:9"@,
        AspectRatioV2::Ratio9x16 => "9:16"@,
        AspectRatioV2::Ratio1x1 => "1:1"@,
        AspectRatioV2::Ratio4x3 => "4:3"@,
        AspectRatioV2::Ratio3x4 => "3:4"@,
    }
}

impl AspectRatioV2 {
    /// The written form, such as `16:9` (what `to_string` writes).
    pub fn label(&self) -> (r: &'static str)
        ensures
            r@ == aspect_ratio_label(*self),
    {
        match self {
            AspectRatioV2::Ratio16x9 => "16:9",
            AspectRatioV2::Ratio9x16 => "9:16",
            AspectRatioV2::Ratio1x1 => "1:1",
            AspectRatioV2::Ratio4x3 => "4:3",
            AspectRatioV2::Ratio3x4 => "3:4",
        }
    }

    /// The aspect ratio written as `s`, if any (what `from_str` accepts).
    pub fn parse_label(s: &str) -> (r: Option<AspectRatioV2>)
        ensures
            match r {
                Some(a) => aspect_ratio_label(a) == s@,
                None => forall|a: AspectRatioV2| aspect_ratio_label(a) != s@,
            },
    {
        if str_eq(s, "16:9") {
            Some(AspectRatioV2::Ratio16x9)
        } else if str_eq(s, "9:16") {
            Some(AspectRatioV2::Ratio9x16)
        } else if str_eq(s, "1:1") {
            Some(AspectRatioV2::Ratio1x1)
        } else if str_eq(s, "4:3") {
            Some(AspectRatioV2::Ratio4x3)
        } else if str_eq(s, "3:4") {
            Some(AspectRatioV2::Ratio3x4)
        } else {
            None
        }
    }
}

/// Resolutions of the unified request.
#[derive(Clone, Copy, Debug, PartialEq, Eq, Structural)]
pub enum ResolutionV2 {
    R540p,
    R720p,
    R1080p,
    R4k,
}

/// The written form of a resolution, such as `720p`.
pub open spec fn resolution_label(r: ResolutionV2) -> Seq<char> {
    match r {
        ResolutionV2::R540p => "540p"@,
        ResolutionV2::R720p => "720p"@,
        ResolutionV2::R1080p => "1080p"@,
        ResolutionV2::R4k => "4k"@,
    }
}

impl ResolutionV2 {
    /// The written form, such as `720p` (what `to_string` writes).
    pub fn label(&self) -> (r: &'static str)
        ensures
            r@ == resolution_label(*self),
    {
        match self {
            ResolutionV2::R540p => "540p",
            ResolutionV2::R720p => "720p",
            ResolutionV2::R1080p => "1080p",
            ResolutionV2::R4k => "4k",
        }
    }

    /// The resolution written as `s`, if any (what `from_str` accepts).
    pub fn parse_label(s: &str) -> (r: Option<ResolutionV2>)
        ensures
            match r {
                Some(x) => resolution_label(x) == s@,
                None => forall|x: ResolutionV2| resolution_label(x) != s@,
            },
    {
        if str_eq(s, "540p") {
            Some(ResolutionV2::R540p)
        } else if str_eq(s, "720p") {
            Some(ResolutionV2::R720p)
        } else if str_eq(s, "1080p") {
            Some(ResolutionV2::R1080p)
        } else if str_eq(s, "4k") {
            Some(ResolutionV2::R4k)
        } else {
            None
        }
    }
}

/// A value of the free-form parameter and information maps: the JSON values
/// that the models read or write.
#[derive(Clone, Debug)]
pub enum ExtraValue {
    /// A JSON string.
    Text(String),
    /// A JSON array of strings.
    TextList(Vec<String>),
    /// A JSON number that is a non-negative integer fitting in 64 bits.
    Unsigned(u64),
    /// Any other JSON value.
    Other,
}

/// No name occurs twice among named entries, as in a map.
pub open spec fn names_distinct(entries: Seq<(String, ExtraValue)>) -> bool {
    forall|i: int, j: int|
        0 <= i < entries.len() && 0 <= j < entries.len() && i != j ==> #[trigger] entries[i].0@ != #[trigger] entries[j].0@
}

/// Abstract value of an `ExtraValue`.
pub enum ExtraValueView {
    Text(Seq<char>),
    TextList(Seq<Seq<char>>),
    Unsigned(u64),
    Other,
}

impl View for ExtraValue {
    type V = ExtraValueView;

    open spec fn view(&self) -> ExtraValueView {
        match self {
            ExtraValue::Text(s) => ExtraValueView::Text(s@),
            ExtraValue::TextList(v) => ExtraValueView::TextList(v.deep_view()),
            ExtraValue::Unsigned(n) => ExtraValueView::Unsigned(*n),
            ExtraValue::Other => ExtraValueView::Other,
        }
    }
}

/// The abstract entries of a free-form map.
pub open spec fn extra_view(v: Seq<(String, ExtraValue)>) -> Seq<(Seq<char>, ExtraValueView)> {
    v.map_values(|e: (String, ExtraValue)| (e.0@, e.1@))
}

/// The unified generation request. Everything but the prompt and the model
/// is optional; each model adapts it to its own input.
#[derive(Clone, Debug)]
pub struct VideoGenRequestV2 {
    pub principal: Principal,
    /// The prompt for video generation.
    pub prompt: String,
    /// The model to use (such as `veo3`, `veo3_fast`, `lumalabs`).
    pub model_id: String,
    /// Token type for payment.
    pub token_type: TokenType,
    /// Negative prompt, where the model supports one.
    pub negative_prompt: Option<String>,
    /// Input image for image-to-video.
    pub image: Option<ImageData>,
    /// Input audio for audio-driven models.
    pub audio: Option<AudioData>,
    pub aspect_ratio: Option<AspectRatioV2>,
    /// Duration in seconds.
    pub duration_seconds: Option<u8>,
    pub resolution: Option<ResolutionV2>,
    /// Whether to generate audio.
    pub generate_audio: Option<bool>,
    /// Random seed for reproducibility.
    pub seed: Option<u64>,
    /// Additional model-specific parameters, by name. The service's wire
    /// form is a map, where a name occurs once (`names_distinct`); a lookup
    /// here takes the first entry of a name.
    pub extra_params: Vec<(String, ExtraValue)>,
}

/// Cost of a generation in several currencies.
#[derive(Clone, Copy, Debug, PartialEq, Eq, Structural)]
pub struct CostInfo {
    /// Cost in US cents.
    pub usd_cents: u64,
    /// Cost in DOLR e8s.
    pub dolr: u64,
    /// Cost in sats.
    pub sats: u64,
}

/// A price in cents is small enough to be converted into every token.
pub open spec fn cost_fits(usd_cents: u64) -> bool {
    usd_cents * VIDEOGEN_USD_CENTS_TO_DOLR_E8S <= u64::MAX
}

/// The cost of `usd_cents` in each currency, at the default rates.
pub open spec fn cost_of(usd_cents: u64) -> CostInfo {
    CostInfo {
        usd_cents,
        dolr: (usd_cents * VIDEOGEN_USD_CENTS_TO_DOLR_E8S) as u64,
        sats: (usd_cents * VIDEOGEN_USD_CENTS_TO_SATS) as u64,
    }
}

impl CostInfo {
    /// The cost of `usd_cents` in each currency, at the default token rates.
    pub fn from_usd_cents(usd_cents: u64) -> (r: Self)
        requires
            cost_fits(usd_cents),
        ensures
            r == cost_of(usd_cents),
    {
        let config = TokenCostConfig::default();
        assert(usd_cents * VIDEOGEN_USD_CENTS_TO_SATS <= usd_cents * VIDEOGEN_USD_CENTS_TO_DOLR_E8S) by (nonlinear_arith);
        Self {
            usd_cents,
            dolr: config.convert_usd_to_token(usd_cents, &TokenType::Dolr),
            sats: config.convert_usd_to_token(usd_cents, &TokenType::Sats),
        }
    }
}

/// Description of a model for the metadata API.
#[derive(Clone, Debug)]
pub struct ProviderInfo {
    /// Unique identifier of the model.
    pub id: String,
    pub name: String,
    pub description: String,
    pub cost: CostInfo,
    pub supports_image: bool,
    pub supports_negative_prompt: bool,
    /// Whether the model produces audio.
    pub supports_audio: bool,
    /// Whether the model takes audio input.
    pub supports_audio_input: bool,
    pub supports_seed: bool,
    pub allowed_aspect_ratios: Vec<AspectRatioV2>,
    pub allowed_resolutions: Vec<ResolutionV2>,
    /// Allowed durations in seconds.
    pub allowed_durations: Vec<u8>,
    pub default_aspect_ratio: Option<AspectRatioV2>,
    pub default_resolution: Option<ResolutionV2>,
    pub default_duration: Option<u8>,
    /// Whether the model is currently available.
    pub is_available: bool,
    /// Whether this is an internal model (such as a test model).
    pub is_internal: bool,
    pub model_icon: Option<String>,
    pub ios_model_icon: Option<String>,
    /// Additional model-specific information, by name (a map in the
    /// service's wire form).
    pub extra_info: Vec<(String, ExtraValue)>,
}

/// Abstract value of a provider description.
pub struct ProviderInfoView {
    pub id: Seq<char>,
    pub name: Seq<char>,
    pub description: Seq<char>,
    pub cost: CostInfo,
    pub supports_image: bool,
    pub supports_negative_prompt: bool,
    pub supports_audio: bool,
    pub supports_audio_input: bool,
    pub supports_seed: bool,
    pub allowed_aspect_ratios: Seq<AspectRatioV2>,
    pub allowed_resolutions: Seq<ResolutionV2>,
    pub allowed_durations: Seq<u8>,
    pub default_aspect_ratio: Option<AspectRatioV2>,
    pub default_resolution: Option<ResolutionV2>,
    pub default_duration: Option<u8>,
    pub is_available: bool,
    pub is_internal: bool,
    pub model_icon: Option<Seq<char>>,
    pub ios_model_icon: Option<Seq<char>>,
    pub extra_info: Seq<(Seq<char>, ExtraValueView)>,
}

impl View for ProviderInfo {
    type V = ProviderInfoView;

    open spec fn view(&self) -> ProviderInfoView {
        ProviderInfoView {
            id: self.id@,
            name: self.name@,
            description: self.description@,
            cost: self.cost,
            supports_image: self.supports_image,
            supports_negative_prompt: self.supports_negative_prompt,
            supports_audio: self.supports_audio,
            supports_audio_input: self.supports_audio_input,
            supports_seed: self.supports_seed,
            allowed_aspect_ratios: self.allowed_aspect_ratios@,
            allowed_resolutions: self.allowed_resolutions@,
            allowed_durations: self.allowed_durations@,
            default_aspect_ratio: self.default_aspect_ratio,
            default_resolution: self.default_resolution,
            default_duration: self.default_duration,
            is_available: self.is_available,
            is_internal: self.is_internal,
            model_icon: self.model_icon.deep_view(),
            ios_model_icon: self.ios_model_icon.deep_view(),
            extra_info: extra_view(self.extra_info@),
        }
    }
}

/// All available providers.
#[derive(Clone, Debug)]
pub struct ProvidersResponse {
    pub providers: Vec<ProviderInfo>,
    /// Version of the provider schema, for client compatibility.
    pub schema_version: String,
}

/// Answer to a queued unified request.
#[derive(Clone, Debug)]
pub struct VideoGenQueuedResponseV2 {
    pub operation_id: String,
    pub provider: String,
    pub request_key: VideoGenRequestKey,
}

/// A text entry of a free-form map.
pub fn text_entry(name: &str, value: &str) -> (r: (String, ExtraValue))
    ensures
        r.0@ == name@,
        r.1@ == ExtraValueView::Text(value@),
{
    (name.to_string(), ExtraValue::Text(value.to_string()))
}

/// A two-text list entry of a free-form map.
pub fn text_list_entry(name: &str, first: &str, second: &str) -> (r: (String, ExtraValue))
    ensures
        r.0@ == name@,
        r.1@ == ExtraValueView::TextList(seq![first@, second@]),
{
    let mut list: Vec<String> = Vec::new();
    list.push(first.to_string());
    list.push(second.to_string());
    let r = (name.to_string(), ExtraValue::TextList(list));
    assert(list.deep_view() =~= seq![first@, second@]);
    r
}

/// Parsing a label gives back the aspect ratio it was written from.
pub proof fn lemma_aspect_ratio_label_injective(a: AspectRatioV2, b: AspectRatioV2)
    requires
        aspect_ratio_label(a) == aspect_ratio_label(b),
    ensures
        a == b,
{
    reveal_strlit("16:9");
    reveal_strlit("9:16");
    reveal_strlit("1:1");
    reveal_strlit("4:3");
    reveal_strlit("3:4");
    if a != b {
        assert(aspect_ratio_label(a) != aspect_ratio_label(b)) by {
            let la = aspect_ratio_label(a);
            let lb = aspect_ratio_label(b);
            if la.len() == lb.len() {
                assert(la[0] != lb[0] || la[la.len() - 1] != lb[lb.len() - 1]);
            }
        }
    }
}

/// Parsing a label gives back the resolution it was written from.
pub proof fn lemma_resolution_label_injective(a: ResolutionV2, b: ResolutionV2)
    requires
        resolution_label(a) == resolution_label(b),
    ensures
        a == b,
{
    reveal_strlit("540p");
    reveal_strlit("720p");
    reveal_strlit("1080p");
    reveal_strlit("4k");
    if a != b {
        assert(resolution_label(a) != resolution_label(b)) by {
            let la = resolution_label(a);
            let lb = resolution_label(b);
            if la.len() == lb.len() {
                assert(la[0] != lb[0]);
            }
        }
    }
}

} // verus!
