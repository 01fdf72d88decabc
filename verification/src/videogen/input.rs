//! The input of any model, as chosen by its provider.

use vstd::prelude::*;
use candid::Principal;
use super::generator::VideoGenerator;
use super::types::{ImageData, VideoGenError, VideoGenProvider};
use super::veo3::{Veo3FastModel, Veo3Model};
use super::inttest::IntTestModel;
use super::falai::FalAiModel;
use super::llm_handler::LlmHandlerModel;
use super::ltx2::Ltx2Model;
use super::lumalabs::LumaLabsModel;
use super::speech_to_video::SpeechToVideoModel;
use super::stable_audio::StableAudioModel;
use super::talkinghead::TalkingHeadModel;
use super::wan::{Wan22Model, Wan25FastModel, Wan25Model};

verus! {

/// The input of one of the generation models.
#[derive(Clone, Debug)]
pub enum VideoGenInput {
    Veo3(Veo3Model),
    Veo3Fast(Veo3FastModel),
    IntTest(IntTestModel),
    FalAi(FalAiModel),
    LlmHandler(LlmHandlerModel),
    Ltx2(Ltx2Model),
    LumaLabs(LumaLabsModel),
    SpeechToVideo(SpeechToVideoModel),
    StableAudio(StableAudioModel),
    TalkingHead(TalkingHeadModel),
    Wan22(Wan22Model),
    Wan25(Wan25Model),
    Wan25Fast(Wan25FastModel),
}

/// A generation request of a user (first API version).
#[derive(Clone, Debug)]
pub struct VideoGenRequest {
    pub principal: Principal,
    pub input: VideoGenInput,
}

impl VideoGenerator for VideoGenInput {
    open spec fn same_apart_from_image(&self, other: &Self) -> bool {
        match (self, other) {
            (VideoGenInput::Veo3(a), VideoGenInput::Veo3(b)) => a.same_apart_from_image(b),
            (VideoGenInput::Veo3Fast(a), VideoGenInput::Veo3Fast(b)) => a.same_apart_from_image(b),
            (VideoGenInput::IntTest(a), VideoGenInput::IntTest(b)) => a.same_apart_from_image(b),
            (VideoGenInput::FalAi(a), VideoGenInput::FalAi(b)) => a.same_apart_from_image(b),
            (VideoGenInput::LlmHandler(a), VideoGenInput::LlmHandler(b)) => a.same_apart_from_image(b),
            (VideoGenInput::Ltx2(a), VideoGenInput::Ltx2(b)) => a.same_apart_from_image(b),
            (VideoGenInput::LumaLabs(a), VideoGenInput::LumaLabs(b)) => a.same_apart_from_image(b),
            (VideoGenInput::SpeechToVideo(a), VideoGenInput::SpeechToVideo(b)) => a.same_apart_from_image(b),
            (VideoGenInput::StableAudio(a), VideoGenInput::StableAudio(b)) => a.same_apart_from_image(b),
            (VideoGenInput::TalkingHead(a), VideoGenInput::TalkingHead(b)) => a.same_apart_from_image(b),
            (VideoGenInput::Wan22(a), VideoGenInput::Wan22(b)) => a.same_apart_from_image(b),
            (VideoGenInput::Wan25(a), VideoGenInput::Wan25(b)) => a.same_apart_from_image(b),
            (VideoGenInput::Wan25Fast(a), VideoGenInput::Wan25Fast(b)) => a.same_apart_from_image(b),
            _ => false,
        }
    }

    open spec fn model_id_text(&self) -> Seq<char> {
        match self {
            VideoGenInput::Veo3(m) => m.model_id_text(),
            VideoGenInput::Veo3Fast(m) => m.model_id_text(),
            VideoGenInput::IntTest(m) => m.model_id_text(),
            VideoGenInput::FalAi(m) => m.model_id_text(),
            VideoGenInput::LlmHandler(m) => m.model_id_text(),
            VideoGenInput::Ltx2(m) => m.model_id_text(),
            VideoGenInput::LumaLabs(m) => m.model_id_text(),
            VideoGenInput::SpeechToVideo(m) => m.model_id_text(),
            VideoGenInput::StableAudio(m) => m.model_id_text(),
            VideoGenInput::TalkingHead(m) => m.model_id_text(),
            VideoGenInput::Wan22(m) => m.model_id_text(),
            VideoGenInput::Wan25(m) => m.model_id_text(),
            VideoGenInput::Wan25Fast(m) => m.model_id_text(),
        }
    }

    open spec fn provider_of(&self) -> VideoGenProvider {
        match self {
            VideoGenInput::Veo3(m) => m.provider_of(),
            VideoGenInput::Veo3Fast(m) => m.provider_of(),
            VideoGenInput::IntTest(m) => m.provider_of(),
            VideoGenInput::FalAi(m) => m.provider_of(),
            VideoGenInput::LlmHandler(m) => m.provider_of(),
            VideoGenInput::Ltx2(m) => m.provider_of(),
            VideoGenInput::LumaLabs(m) => m.provider_of(),
            VideoGenInput::SpeechToVideo(m) => m.provider_of(),
            VideoGenInput::StableAudio(m) => m.provider_of(),
            VideoGenInput::TalkingHead(m) => m.provider_of(),
            VideoGenInput::Wan22(m) => m.provider_of(),
            VideoGenInput::Wan25(m) => m.provider_of(),
            VideoGenInput::Wan25Fast(m) => m.provider_of(),
        }
    }

    open spec fn input_check(&self) -> Result<(), Seq<char>> {
        match self {
            VideoGenInput::Veo3(m) => m.input_check(),
            VideoGenInput::Veo3Fast(m) => m.input_check(),
            VideoGenInput::IntTest(m) => m.input_check(),
            VideoGenInput::FalAi(m) => m.input_check(),
            VideoGenInput::LlmHandler(m) => m.input_check(),
            VideoGenInput::Ltx2(m) => m.input_check(),
            VideoGenInput::LumaLabs(m) => m.input_check(),
            VideoGenInput::SpeechToVideo(m) => m.input_check(),
            VideoGenInput::StableAudio(m) => m.input_check(),
            VideoGenInput::TalkingHead(m) => m.input_check(),
            VideoGenInput::Wan22(m) => m.input_check(),
            VideoGenInput::Wan25(m) => m.input_check(),
            VideoGenInput::Wan25Fast(m) => m.input_check(),
        }
    }

    open spec fn prompt_text(&self) -> Seq<char> {
        match self {
            VideoGenInput::Veo3(m) => m.prompt_text(),
            VideoGenInput::Veo3Fast(m) => m.prompt_text(),
            VideoGenInput::IntTest(m) => m.prompt_text(),
            VideoGenInput::FalAi(m) => m.prompt_text(),
            VideoGenInput::LlmHandler(m) => m.prompt_text(),
            VideoGenInput::Ltx2(m) => m.prompt_text(),
            VideoGenInput::LumaLabs(m) => m.prompt_text(),
            VideoGenInput::SpeechToVideo(m) => m.prompt_text(),
            VideoGenInput::StableAudio(m) => m.prompt_text(),
            VideoGenInput::TalkingHead(m) => m.prompt_text(),
            VideoGenInput::Wan22(m) => m.prompt_text(),
            VideoGenInput::Wan25(m) => m.prompt_text(),
            VideoGenInput::Wan25Fast(m) => m.prompt_text(),
        }
    }

    open spec fn image_of(&self) -> Option<ImageData> {
        match self {
            VideoGenInput::Veo3(m) => m.image_of(),
            VideoGenInput::Veo3Fast(m) => m.image_of(),
            VideoGenInput::IntTest(m) => m.image_of(),
            VideoGenInput::FalAi(m) => m.image_of(),
            VideoGenInput::LlmHandler(m) => m.image_of(),
            VideoGenInput::Ltx2(m) => m.image_of(),
            VideoGenInput::LumaLabs(m) => m.image_of(),
            VideoGenInput::SpeechToVideo(m) => m.image_of(),
            VideoGenInput::StableAudio(m) => m.image_of(),
            VideoGenInput::TalkingHead(m) => m.image_of(),
            VideoGenInput::Wan22(m) => m.image_of(),
            VideoGenInput::Wan25(m) => m.image_of(),
            VideoGenInput::Wan25Fast(m) => m.image_of(),
        }
    }

    open spec fn flow_control_of(&self) -> Option<(u32, u32)> {
        match self {
            VideoGenInput::Veo3(m) => m.flow_control_of(),
            VideoGenInput::Veo3Fast(m) => m.flow_control_of(),
            VideoGenInput::IntTest(m) => m.flow_control_of(),
            VideoGenInput::FalAi(m) => m.flow_control_of(),
            VideoGenInput::LlmHandler(m) => m.flow_control_of(),
            VideoGenInput::Ltx2(m) => m.flow_control_of(),
            VideoGenInput::LumaLabs(m) => m.flow_control_of(),
            VideoGenInput::SpeechToVideo(m) => m.flow_control_of(),
            VideoGenInput::StableAudio(m) => m.flow_control_of(),
            VideoGenInput::TalkingHead(m) => m.flow_control_of(),
            VideoGenInput::Wan22(m) => m.flow_control_of(),
            VideoGenInput::Wan25(m) => m.flow_control_of(),
            VideoGenInput::Wan25Fast(m) => m.flow_control_of(),
        }
    }

    open spec fn webhook_callbacks(&self) -> bool {
        match self {
            VideoGenInput::Veo3(m) => m.webhook_callbacks(),
            VideoGenInput::Veo3Fast(m) => m.webhook_callbacks(),
            VideoGenInput::IntTest(m) => m.webhook_callbacks(),
            VideoGenInput::FalAi(m) => m.webhook_callbacks(),
            VideoGenInput::LlmHandler(m) => m.webhook_callbacks(),
            VideoGenInput::Ltx2(m) => m.webhook_callbacks(),
            VideoGenInput::LumaLabs(m) => m.webhook_callbacks(),
            VideoGenInput::SpeechToVideo(m) => m.webhook_callbacks(),
            VideoGenInput::StableAudio(m) => m.webhook_callbacks(),
            VideoGenInput::TalkingHead(m) => m.webhook_callbacks(),
            VideoGenInput::Wan22(m) => m.webhook_callbacks(),
            VideoGenInput::Wan25(m) => m.webhook_callbacks(),
            VideoGenInput::Wan25Fast(m) => m.webhook_callbacks(),
        }
    }

    fn model_id(&self) -> (r: &'static str) {
        match self {
            VideoGenInput::Veo3(m) => m.model_id(),
            VideoGenInput::Veo3Fast(m) => m.model_id(),
            VideoGenInput::IntTest(m) => m.model_id(),
            VideoGenInput::FalAi(m) => m.model_id(),
            VideoGenInput::LlmHandler(m) => m.model_id(),
            VideoGenInput::Ltx2(m) => m.model_id(),
            VideoGenInput::LumaLabs(m) => m.model_id(),
            VideoGenInput::SpeechToVideo(m) => m.model_id(),
            VideoGenInput::StableAudio(m) => m.model_id(),
            VideoGenInput::TalkingHead(m) => m.model_id(),
            VideoGenInput::Wan22(m) => m.model_id(),
            VideoGenInput::Wan25(m) => m.model_id(),
            VideoGenInput::Wan25Fast(m) => m.model_id(),
        }
    }

    fn provider(&self) -> (r: VideoGenProvider) {
        match self {
            VideoGenInput::Veo3(m) => m.provider(),
            VideoGenInput::Veo3Fast(m) => m.provider(),
            VideoGenInput::IntTest(m) => m.provider(),
            VideoGenInput::FalAi(m) => m.provider(),
            VideoGenInput::LlmHandler(m) => m.provider(),
            VideoGenInput::Ltx2(m) => m.provider(),
            VideoGenInput::LumaLabs(m) => m.provider(),
            VideoGenInput::SpeechToVideo(m) => m.provider(),
            VideoGenInput::StableAudio(m) => m.provider(),
            VideoGenInput::TalkingHead(m) => m.provider(),
            VideoGenInput::Wan22(m) => m.provider(),
            VideoGenInput::Wan25(m) => m.provider(),
            VideoGenInput::Wan25Fast(m) => m.provider(),
        }
    }

    fn validate_input(&self) -> (r: Result<(), VideoGenError>) {
        match self {
            VideoGenInput::Veo3(m) => m.validate_input(),
            VideoGenInput::Veo3Fast(m) => m.validate_input(),
            VideoGenInput::IntTest(m) => m.validate_input(),
            VideoGenInput::FalAi(m) => m.validate_input(),
            VideoGenInput::LlmHandler(m) => m.validate_input(),
            VideoGenInput::Ltx2(m) => m.validate_input(),
            VideoGenInput::LumaLabs(m) => m.validate_input(),
            VideoGenInput::SpeechToVideo(m) => m.validate_input(),
            VideoGenInput::StableAudio(m) => m.validate_input(),
            VideoGenInput::TalkingHead(m) => m.validate_input(),
            VideoGenInput::Wan22(m) => m.validate_input(),
            VideoGenInput::Wan25(m) => m.validate_input(),
            VideoGenInput::Wan25Fast(m) => m.validate_input(),
        }
    }

    fn get_prompt(&self) -> (r: &str) {
        match self {
            VideoGenInput::Veo3(m) => m.get_prompt(),
            VideoGenInput::Veo3Fast(m) => m.get_prompt(),
            VideoGenInput::IntTest(m) => m.get_prompt(),
            VideoGenInput::FalAi(m) => m.get_prompt(),
            VideoGenInput::LlmHandler(m) => m.get_prompt(),
            VideoGenInput::Ltx2(m) => m.get_prompt(),
            VideoGenInput::LumaLabs(m) => m.get_prompt(),
            VideoGenInput::SpeechToVideo(m) => m.get_prompt(),
            VideoGenInput::StableAudio(m) => m.get_prompt(),
            VideoGenInput::TalkingHead(m) => m.get_prompt(),
            VideoGenInput::Wan22(m) => m.get_prompt(),
            VideoGenInput::Wan25(m) => m.get_prompt(),
            VideoGenInput::Wan25Fast(m) => m.get_prompt(),
        }
    }

    fn get_image(&self) -> (r: Option<&ImageData>) {
        match self {
            VideoGenInput::Veo3(m) => m.get_image(),
            VideoGenInput::Veo3Fast(m) => m.get_image(),
            VideoGenInput::IntTest(m) => m.get_image(),
            VideoGenInput::FalAi(m) => m.get_image(),
            VideoGenInput::LlmHandler(m) => m.get_image(),
            VideoGenInput::Ltx2(m) => m.get_image(),
            VideoGenInput::LumaLabs(m) => m.get_image(),
            VideoGenInput::SpeechToVideo(m) => m.get_image(),
            VideoGenInput::StableAudio(m) => m.get_image(),
            VideoGenInput::TalkingHead(m) => m.get_image(),
            VideoGenInput::Wan22(m) => m.get_image(),
            VideoGenInput::Wan25(m) => m.get_image(),
            VideoGenInput::Wan25Fast(m) => m.get_image(),
        }
    }

    fn get_image_mut(&mut self) -> (r: Option<&mut ImageData>) {
        match self {
            VideoGenInput::Veo3(m) => m.get_image_mut(),
            VideoGenInput::Veo3Fast(m) => m.get_image_mut(),
            VideoGenInput::IntTest(m) => m.get_image_mut(),
            VideoGenInput::FalAi(m) => m.get_image_mut(),
            VideoGenInput::LlmHandler(m) => m.get_image_mut(),
            VideoGenInput::Ltx2(m) => m.get_image_mut(),
            VideoGenInput::LumaLabs(m) => m.get_image_mut(),
            VideoGenInput::SpeechToVideo(m) => m.get_image_mut(),
            VideoGenInput::StableAudio(m) => m.get_image_mut(),
            VideoGenInput::TalkingHead(m) => m.get_image_mut(),
            VideoGenInput::Wan22(m) => m.get_image_mut(),
            VideoGenInput::Wan25(m) => m.get_image_mut(),
            VideoGenInput::Wan25Fast(m) => m.get_image_mut(),
        }
    }

    fn flow_control_config(&self) -> (r: Option<(u32, u32)>) {
        match self {
            VideoGenInput::Veo3(m) => m.flow_control_config(),
            VideoGenInput::Veo3Fast(m) => m.flow_control_config(),
            VideoGenInput::IntTest(m) => m.flow_control_config(),
            VideoGenInput::FalAi(m) => m.flow_control_config(),
            VideoGenInput::LlmHandler(m) => m.flow_control_config(),
            VideoGenInput::Ltx2(m) => m.flow_control_config(),
            VideoGenInput::LumaLabs(m) => m.flow_control_config(),
            VideoGenInput::SpeechToVideo(m) => m.flow_control_config(),
            VideoGenInput::StableAudio(m) => m.flow_control_config(),
            VideoGenInput::TalkingHead(m) => m.flow_control_config(),
            VideoGenInput::Wan22(m) => m.flow_control_config(),
            VideoGenInput::Wan25(m) => m.flow_control_config(),
            VideoGenInput::Wan25Fast(m) => m.flow_control_config(),
        }
    }

    fn supports_webhook_callbacks(&self) -> (r: bool) {
        match self {
            VideoGenInput::Veo3(m) => m.supports_webhook_callbacks(),
            VideoGenInput::Veo3Fast(m) => m.supports_webhook_callbacks(),
            VideoGenInput::IntTest(m) => m.supports_webhook_callbacks(),
            VideoGenInput::FalAi(m) => m.supports_webhook_callbacks(),
            VideoGenInput::LlmHandler(m) => m.supports_webhook_callbacks(),
            VideoGenInput::Ltx2(m) => m.supports_webhook_callbacks(),
            VideoGenInput::LumaLabs(m) => m.supports_webhook_callbacks(),
            VideoGenInput::SpeechToVideo(m) => m.supports_webhook_callbacks(),
            VideoGenInput::StableAudio(m) => m.supports_webhook_callbacks(),
            VideoGenInput::TalkingHead(m) => m.supports_webhook_callbacks(),
            VideoGenInput::Wan22(m) => m.supports_webhook_callbacks(),
            VideoGenInput::Wan25(m) => m.supports_webhook_callbacks(),
            VideoGenInput::Wan25Fast(m) => m.supports_webhook_callbacks(),
        }
    }
}

} // verus!
