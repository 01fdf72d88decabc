//! The static model descriptions of the first API version.

use vstd::prelude::*;
use crate::decimal::{decimal, lemma_parse_decimal, parse_u64_spec, u64_to_decimal};
use crate::text::concat3;
use super::inttest::IntTestModel;
use super::input::VideoGenInput;
use super::types::{ImageData, Veo3AspectRatio, VideoGenProvider};

verus! {

broadcast use vstd::string::group_string_axioms;

/// Description of a model in the first API version.
#[derive(Clone, Debug)]
pub struct VideoModel {
    pub id: String,
    pub name: String,
    pub description: String,
    pub cost_usd_cents: u64,
    pub supports_image: bool,
    pub provider: VideoGenProvider,
    pub max_duration_seconds: u8,
    pub supported_aspect_ratios: Vec<Veo3AspectRatio>,
    /// Path of the model's icon.
    pub model_icon: Option<String>,
    /// Whether the model is available now (or coming soon).
    pub is_available: bool,
}

/// Abstract value of a model description.
pub struct VideoModelView {
    pub id: Seq<char>,
    pub name: Seq<char>,
    pub description: Seq<char>,
    pub cost_usd_cents: u64,
    pub supports_image: bool,
    pub provider: VideoGenProvider,
    pub max_duration_seconds: u8,
    pub supported_aspect_ratios: Seq<Veo3AspectRatio>,
    pub model_icon: Option<Seq<char>>,
    pub is_available: bool,
}

impl View for VideoModel {
    type V = VideoModelView;

    open spec fn view(&self) -> VideoModelView {
        VideoModelView {
            id: self.id@,
            name: self.name@,
            description: self.description@,
            cost_usd_cents: self.cost_usd_cents,
            supports_image: self.supports_image,
            provider: self.provider,
            max_duration_seconds: self.max_duration_seconds,
            supported_aspect_ratios: self.supported_aspect_ratios@,
            model_icon: self.model_icon.deep_view(),
            is_available: self.is_available,
        }
    }
}

/// The default model: Wan 2.5 Fast.
pub open spec fn default_video_model() -> VideoModelView {
    VideoModelView {
        id: "wan2_5_fast"@,
        name: "Wan 2.5 Fast"@,
        description: "Alibaba's Wan 2.5 Fast model for quick 720p video generation"@,
        cost_usd_cents: 10,
        supports_image: true,
        provider: VideoGenProvider::Wan25Fast,
        max_duration_seconds: 5,
        supported_aspect_ratios: seq![Veo3AspectRatio::Ratio9x16],
        model_icon: None,
        is_available: true,
    }
}

/// The duration shown for a model: whole minutes from one minute on, else seconds.
pub open spec fn duration_text(max_duration_seconds: u8) -> Seq<char> {
    if max_duration_seconds < 60 {
        decimal(max_duration_seconds as nat) + " Sec"@
    } else {
        decimal((max_duration_seconds / 60) as nat) + " Min"@
    }
}

/// The input that a model description and a prompt give, or the message of
/// why they give none.
pub open spec fn video_gen_input_of(m: VideoModelView, prompt: String, image: Option<ImageData>) -> Result<VideoGenInput, Seq<char>> {
    if !m.is_available {
        Err("Model "@ + m.name + " is coming soon"@)
    } else if image is Some && !m.supports_image {
        Err("Model "@ + m.name + " does not support image input"@)
    } else if m.provider == VideoGenProvider::IntTest {
        Ok(VideoGenInput::IntTest(IntTestModel { prompt, image }))
    } else {
        Err("Model "@ + m.name + " is not supported"@)
    }
}

impl Default for VideoModel {
    /// Wan 2.5 Fast.
    fn default() -> (r: Self)
        ensures
            r@ == default_video_model(),
    {
        let r = VideoModel {
            id: "wan2_5_fast".to_string(),
            name: "Wan 2.5 Fast".to_string(),
            description: "Alibaba's Wan 2.5 Fast model for quick 720p video generation".to_string(),
            cost_usd_cents: 10,
            supports_image: true,
            provider: VideoGenProvider::Wan25Fast,
            max_duration_seconds: 5,
            supported_aspect_ratios: vec![Veo3AspectRatio::Ratio9x16],
            model_icon: None,
            is_available: true,
        };
        assert(r@.supported_aspect_ratios =~= default_video_model().supported_aspect_ratios);
        r
    }
}

impl VideoModel {
    /// All models offered: the default model and the internal test model.
    pub fn get_models() -> (r: Vec<Self>)
        ensures
            r@.len() == 2,
            r@[0]@ == default_video_model(),
            r@[1]@ == super::inttest::inttest_model_info(),
    {
        let mut r: Vec<Self> = Vec::new();
        r.push(Self::default());
        r.push(IntTestModel::model_info());
        r
    }

    /// The input of this model for a prompt and an optional image.
    pub fn to_video_gen_input(&self, prompt: String, image: Option<ImageData>) -> (r: Result<VideoGenInput, String>)
        ensures
            match video_gen_input_of(self@, prompt, image) {
                Ok(v) => r == Ok::<VideoGenInput, String>(v),
                Err(msg) => r matches Err(m) && m@ == msg,
            },
    {
        if !self.is_available {
            return Err(concat3("Model ", self.name.as_str(), " is coming soon"));
        }
        if image.is_some() && !self.supports_image {
            return Err(concat3("Model ", self.name.as_str(), " does not support image input"));
        }
        match self.provider {
            VideoGenProvider::IntTest => Ok(VideoGenInput::IntTest(IntTestModel { prompt, image })),
            _ => Err(concat3("Model ", self.name.as_str(), " is not supported")),
        }
    }

    /// The duration shown to users, such as `5 Sec` or `2 Min`.
    pub fn duration_display(&self) -> (r: String)
        ensures
            r@ == duration_text(self.max_duration_seconds),
    {
        let mut r = if self.max_duration_seconds < 60 {
            u64_to_decimal(self.max_duration_seconds as u64)
        } else {
            u64_to_decimal((self.max_duration_seconds / 60) as u64)
        };
        if self.max_duration_seconds < 60 {
            r.append(" Sec");
        } else {
            r.append(" Min");
        }
        r
    }
}

/// How a model's duration reads: a number, then the unit ` Sec` for a
/// duration under a minute and ` Min` from a minute on. In seconds the number
/// is the duration itself; in minutes it is the whole minutes, at least one,
/// so that the shown minutes are at most the duration and a minute more exceeds it.
pub proof fn lemma_duration_text_reads_back(max_duration_seconds: u8)
    ensures
        ({
            let t = duration_text(max_duration_seconds);
            let unit = t.subrange(t.len() - 4, t.len() as int);
            let shown = parse_u64_spec(t.subrange(0, t.len() - 4));
            &&& t.len() > 4
            &&& (unit == " Sec"@ <==> max_duration_seconds < 60)
            &&& (unit == " Min"@ <==> max_duration_seconds >= 60)
            &&& max_duration_seconds < 60 ==> shown == Some(max_duration_seconds as u64)
            &&& max_duration_seconds >= 60 ==> (shown matches Some(n) && n >= 1 && n * 60 <= max_duration_seconds
                < (n + 1) * 60)
        }),
{
    reveal_strlit(" Sec");
    reveal_strlit(" Min");
    assert(" Sec"@ != " Min"@) by {
        assert(" Sec"@[1] != " Min"@[1]);
    }
    let n: u64 = if max_duration_seconds < 60 {
        max_duration_seconds as u64
    } else {
        (max_duration_seconds / 60) as u64
    };
    let unit = if max_duration_seconds < 60 {
        " Sec"@
    } else {
        " Min"@
    };
    let t = duration_text(max_duration_seconds);
    lemma_parse_decimal(n);
    crate::decimal::lemma_decimal_digits(n as nat);
    assert(t == decimal(n as nat) + unit);
    assert(t.subrange(t.len() - 4, t.len() as int) =~= unit);
    assert(t.subrange(0, t.len() - 4) =~= decimal(n as nat));
}

/// A model gives an input only when it is available, and takes an image
/// only when it supports images; the input it gives is the test model's,
/// with the prompt and the image handed in. An available test model that
/// can take the image always gives one, so the listed test model takes any
/// prompt, with or without an image.
pub proof fn lemma_video_gen_input_of(m: VideoModelView, prompt: String, image: Option<ImageData>)
    ensures
        video_gen_input_of(m, prompt, image) matches Ok(input) ==> {
            &&& m.is_available
            &&& (image is Some ==> m.supports_image)
            &&& input matches VideoGenInput::IntTest(t) && t.prompt == prompt && t.image == image
        },
        m.is_available && m.provider == VideoGenProvider::IntTest && (image is None || m.supports_image)
            ==> video_gen_input_of(m, prompt, image) is Ok,
        video_gen_input_of(super::inttest::inttest_model_info(), prompt, image) is Ok,
{
}

} // verus!
