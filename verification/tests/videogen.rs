use candid::Principal;
use yral_common::videogen::adapter_registry::AdapterRegistry;
use yral_common::videogen::client_rules::{bearer_header, invalid_url, Endpoint};
use yral_common::videogen::falai::FalAiModel;
use yral_common::videogen::generator::{combine_flow_control, flow_control_from_env_values, FlowControlFromEnv, VideoGenerator};
use yral_common::videogen::input::VideoGenInput;
use yral_common::videogen::inttest::IntTestModel;
use yral_common::videogen::llm_handler::LlmHandlerModel;
use yral_common::videogen::ltx2::Ltx2Model;
use yral_common::videogen::lumalabs::LumaLabsModel;
use yral_common::videogen::speech_to_video::SpeechToVideoModel;
use yral_common::videogen::stable_audio::{find_extra, StableAudioModel};
use yral_common::videogen::talkinghead::{TalkingHeadModel, TALKINGHEAD_PROMPT_PLACEHOLDER};
use yral_common::videogen::token_costs::{TokenConversionRates, TokenCostConfig};
use yral_common::videogen::types::{
    AudioData, ImageData, ImageInput, LumaLabsDuration, LumaLabsResolution, TokenType, VideoGenError, VideoGenProvider,
};
use yral_common::videogen::types_v2::{AspectRatioV2, CostInfo, ExtraValue, ResolutionV2, VideoGenRequestV2};
use yral_common::videogen::veo3::{Veo3FastModel, Veo3Model};
use yral_common::videogen::video_model::VideoModel;
use yral_common::videogen::wan::{Wan22Model, Wan25FastModel, Wan25Model};

fn request(model_id: &str, prompt: &str) -> VideoGenRequestV2 {
    VideoGenRequestV2 {
        principal: Principal::anonymous(),
        prompt: prompt.to_string(),
        model_id: model_id.to_string(),
        token_type: TokenType::Sats,
        negative_prompt: None,
        image: None,
        audio: None,
        aspect_ratio: None,
        duration_seconds: None,
        resolution: None,
        generate_audio: None,
        seed: None,
        extra_params: vec![],
    }
}

fn image() -> ImageData {
    ImageData::Url("https://example.com/face.png".to_string())
}

fn audio() -> AudioData {
    AudioData { data: "AAAA".to_string(), mime_type: "audio/wav".to_string() }
}

fn invalid_message<T>(r: Result<T, VideoGenError>) -> String {
    match r {
        Err(VideoGenError::InvalidInput(m)) => m,
        Err(e) => panic!("unexpected error {}", e.message()),
        Ok(_) => panic!("expected an invalid-input error"),
    }
}

#[test]
fn error_messages() {
    assert_eq!(VideoGenError::InvalidInput("x".to_string()).message(), "Invalid input: x");
    assert_eq!(VideoGenError::AuthError.message(), "Authentication failed");
    assert_eq!(VideoGenError::NetworkError("down".to_string()).message(), "Network error: down");
    assert_eq!(VideoGenError::ProviderError("p".to_string()).message(), "Provider error: p");
    assert_eq!(VideoGenError::InsufficientBalance.message(), "Insufficient balance");
    assert_eq!(VideoGenError::InvalidSignature.message(), "Invalid signature");
    assert_eq!(VideoGenProvider::Wan25Fast.name(), "Wan25Fast");
}

#[test]
fn requests_pay_in_sats_by_default() {
    assert_eq!(TokenType::default(), TokenType::Sats);
}

#[test]
fn labels_parse_back() {
    for a in [AspectRatioV2::Ratio16x9, AspectRatioV2::Ratio9x16, AspectRatioV2::Ratio1x1, AspectRatioV2::Ratio4x3, AspectRatioV2::Ratio3x4] {
        assert_eq!(AspectRatioV2::parse_label(a.label()), Some(a));
    }
    for r in [ResolutionV2::R540p, ResolutionV2::R720p, ResolutionV2::R1080p, ResolutionV2::R4k] {
        assert_eq!(ResolutionV2::parse_label(r.label()), Some(r));
    }
    assert_eq!(AspectRatioV2::Ratio16x9.label(), "16:9");
    assert_eq!(AspectRatioV2::parse_label("2:1"), None);
    assert_eq!(ResolutionV2::parse_label("8k"), None);
}

#[test]
fn cost_info_at_default_rates() {
    let c = CostInfo::from_usd_cents(50);
    assert_eq!(c, CostInfo { usd_cents: 50, dolr: 10_000_000_000, sats: 500 });
    assert_eq!(CostInfo::from_usd_cents(0), CostInfo { usd_cents: 0, dolr: 0, sats: 0 });
}

#[test]
fn token_costs() {
    let mut config = TokenCostConfig::default();
    assert_eq!(config.get_model_cost_usd("ltx2"), 50);
    assert_eq!(config.get_model_cost_usd("unknown"), 50);
    assert_eq!(config.get_model_cost("ltx2", &TokenType::Sats), 500);
    assert_eq!(config.get_model_cost("ltx2", &TokenType::Dolr), 10_000_000_000);
    assert_eq!(config.get_model_cost("ltx2", &TokenType::Free), 0);
    assert_eq!(config.get_model_cost("ltx2", &TokenType::YralProSubscription), 1);
    assert_eq!(config.convert_token_to_usd(505, &TokenType::Sats), 50);
    assert_eq!(config.convert_token_to_usd(505, &TokenType::YralProSubscription), 0);
    config.set_model_cost_usd("veo3".to_string(), 120);
    assert_eq!(config.get_model_cost_usd("veo3"), 120);
    config.set_model_cost_usd("veo3".to_string(), 130);
    assert_eq!(config.get_model_cost_usd("veo3"), 130);
    assert_eq!(config.get_model_cost_usd("ltx2"), 50);
    config.set_conversion_rates(TokenConversionRates { usd_cents_to_sats: 3, usd_cents_to_dolr: 7 });
    assert_eq!(config.get_model_cost("veo3", &TokenType::Sats), 390);
    assert_eq!(config.convert_usd_to_token(10, &TokenType::Dolr), 70);
    assert_eq!(config.convert_token_to_usd(71, &TokenType::Dolr), 10);
}

#[test]
fn model_identities() {
    let falai = FalAiModel { prompt: "p".to_string(), model: "m".to_string(), seed: None, num_frames: Some(24) };
    assert_eq!(falai.model_id(), "doubao-seedance-1-0-pro");
    assert_eq!(falai.provider(), VideoGenProvider::FalAi);
    assert_eq!(falai.flow_control_key(), "VIDEOGEN_doubao-seedance-1-0-pro");
    assert_eq!(falai.env_prefix(), "FALAI");
    assert!(falai.get_image().is_none());
    let ltx = Ltx2Model { prompt: "p".to_string(), image: None };
    assert_eq!(ltx.model_id(), "ltx2");
    assert!(ltx.supports_webhook_callbacks());
    assert_eq!(ltx.flow_control_env_keys(), ("LTX2_FLOW_CONTROL_RATE".to_string(), "LTX2_FLOW_CONTROL_PARALLELISM".to_string()));
    let stt = SpeechToVideoModel { audio: audio(), image: Some(image()) };
    assert_eq!(stt.get_prompt(), "");
    assert_eq!(stt.flow_control_key(), "VIDEOGEN_speech_to_video");
    assert!(stt.get_image().is_some());
    let input = VideoGenInput::Ltx2(ltx);
    assert_eq!(input.model_id(), "ltx2");
    assert_eq!(input.provider(), VideoGenProvider::Ltx2);
}

#[test]
fn model_input_checks() {
    let falai = |prompt: &str, model: &str, frames: Option<u32>| FalAiModel {
        prompt: prompt.to_string(),
        model: model.to_string(),
        seed: None,
        num_frames: frames,
    };
    assert!(falai("p", "m", None).validate_input().is_ok());
    assert!(falai("p", "m", Some(300)).validate_input().is_ok());
    assert_eq!(invalid_message(falai("", "m", None).validate_input()), "Prompt cannot be empty");
    assert_eq!(invalid_message(falai("p", "", None).validate_input()), "Model name cannot be empty");
    assert_eq!(invalid_message(falai("p", "m", Some(0)).validate_input()), "Number of frames must be between 1 and 300");
    assert_eq!(invalid_message(falai("p", "m", Some(301)).validate_input()), "Number of frames must be between 1 and 300");

    let llm = LlmHandlerModel { user_prompt: String::new() };
    assert_eq!(invalid_message(llm.validate_input()), "User prompt cannot be empty");

    let ltx = Ltx2Model { prompt: String::new(), image: None };
    assert_eq!(invalid_message(ltx.validate_input()), "Either prompt or image must be provided");
    assert!(Ltx2Model { prompt: String::new(), image: Some(image()) }.validate_input().is_ok());

    let mut luma = LumaLabsModel {
        prompt: "p".to_string(),
        image: None,
        resolution: LumaLabsResolution::R720p,
        duration: LumaLabsDuration::D5s,
        aspect_ratio: Some("16x9".to_string()),
        loop_video: false,
    };
    assert_eq!(invalid_message(luma.validate_input()), "Aspect ratio must be in format 'width:height'");
    luma.aspect_ratio = Some("16:9".to_string());
    assert!(luma.validate_input().is_ok());

    let mut audio_model = StableAudioModel::default();
    assert_eq!(audio_model.duration, 90);
    assert_eq!(invalid_message(audio_model.validate_input()), "Audio prompt cannot be empty");
    audio_model.prompt = "rain".to_string();
    assert!(audio_model.validate_input().is_ok());
    audio_model.duration = 181;
    assert_eq!(invalid_message(audio_model.validate_input()), "Duration must be between 1 and 180 seconds");
    audio_model.duration = 0;
    assert!(audio_model.validate_input().is_err());
}

#[test]
fn image_mut_changes_the_image_in_place() {
    let mut input = VideoGenInput::IntTest(IntTestModel { prompt: "p".to_string(), image: Some(image()) });
    if let Some(img) = input.get_image_mut() {
        *img = ImageData::Url("https://example.com/other.png".to_string());
    }
    match input.get_image() {
        Some(ImageData::Url(u)) => assert_eq!(u, "https://example.com/other.png"),
        _ => panic!("image expected"),
    }
    let mut talking = TalkingHeadModel { image: image(), audio: audio(), prompt: String::new() };
    talking.get_audio_mut().mime_type = "audio/mp3".to_string();
    assert_eq!(talking.get_audio().mime_type, "audio/mp3");
    assert!(talking.get_image_mut().is_some());
    let mut llm = LlmHandlerModel { user_prompt: "x".to_string() };
    assert!(llm.get_image_mut().is_none());
}

#[test]
fn ltx2_from_unified() {
    let ok = Ltx2Model::from_unified_request(request("ltx2", "a cat")).unwrap();
    assert_eq!(ok.get_prompt(), "a cat");
    let mut r = request("ltx2", "a cat");
    r.negative_prompt = Some("dogs".to_string());
    assert_eq!(invalid_message(Ltx2Model::from_unified_request(r)), "LTX-2 negative prompt is hardcoded and cannot be customized");
    let mut r = request("ltx2", "a cat");
    r.seed = Some(1);
    assert_eq!(invalid_message(Ltx2Model::from_unified_request(r)), "LTX-2 seed is not configurable");
    let mut r = request("ltx2", "a cat");
    r.duration_seconds = Some(6);
    assert_eq!(invalid_message(Ltx2Model::from_unified_request(r)), "LTX-2 only supports 5 second duration");
    let mut r = request("ltx2", "a cat");
    r.resolution = Some(ResolutionV2::R4k);
    assert_eq!(invalid_message(Ltx2Model::from_unified_request(r)), "LTX-2 supports 720p and 1080p resolutions");
    let mut r = request("ltx2", "");
    r.resolution = Some(ResolutionV2::R1080p);
    assert_eq!(invalid_message(Ltx2Model::from_unified_request(r)), "Either prompt or image must be provided");
}

#[test]
fn lumalabs_from_unified() {
    let input = LumaLabsModel::from_unified_request(request("lumalabs", "waves")).unwrap();
    match input {
        VideoGenInput::LumaLabs(m) => {
            assert_eq!(m.resolution, LumaLabsResolution::R1080p);
            assert_eq!(m.duration, LumaLabsDuration::D5s);
            assert_eq!(m.aspect_ratio.as_deref(), Some("16:9"));
            assert!(!m.loop_video);
        }
        _ => panic!("LumaLabs input expected"),
    }
    let mut r = request("lumalabs", "waves");
    r.duration_seconds = Some(9);
    r.resolution = Some(ResolutionV2::R540p);
    r.aspect_ratio = Some(AspectRatioV2::Ratio3x4);
    match LumaLabsModel::from_unified_request(r).unwrap() {
        VideoGenInput::LumaLabs(m) => {
            assert_eq!(m.duration, LumaLabsDuration::D9s);
            assert_eq!(m.resolution, LumaLabsResolution::R540p);
            assert_eq!(m.aspect_ratio.as_deref(), Some("3:4"));
        }
        _ => panic!("LumaLabs input expected"),
    }
    let mut r = request("lumalabs", "");
    r.duration_seconds = Some(7);
    assert_eq!(invalid_message(LumaLabsModel::from_unified_request(r)), "LumaLabs only supports 5 or 9 second durations, got: 7");
    assert_eq!(invalid_message(LumaLabsModel::from_unified_request(request("lumalabs", ""))), "Prompt cannot be empty");
    let mut r = request("lumalabs", "waves");
    r.generate_audio = Some(true);
    assert_eq!(invalid_message(LumaLabsModel::from_unified_request(r)), "LumaLabs does not have configurable audio generation");
    let mut r = request("lumalabs", "waves");
    r.seed = Some(3);
    assert_eq!(invalid_message(LumaLabsModel::validate_unified_parameters(&r)), "LumaLabs does not support seed parameter");
}

#[test]
fn stable_audio_from_unified() {
    match StableAudioModel::from_unified_request(request("stable_audio", "rain")).unwrap() {
        VideoGenInput::StableAudio(m) => assert_eq!(m.duration, 90),
        _ => panic!("StableAudio input expected"),
    }
    let mut r = request("stable_audio", "rain");
    r.duration_seconds = Some(30);
    match StableAudioModel::from_unified_request(r).unwrap() {
        VideoGenInput::StableAudio(m) => assert_eq!(m.duration, 30),
        _ => panic!("StableAudio input expected"),
    }
    let mut r = request("stable_audio", "rain");
    r.duration_seconds = Some(30);
    r.extra_params = vec![("duration".to_string(), ExtraValue::Unsigned(120))];
    match StableAudioModel::from_unified_request(r).unwrap() {
        VideoGenInput::StableAudio(m) => assert_eq!(m.duration, 120),
        _ => panic!("StableAudio input expected"),
    }
    let mut r = request("stable_audio", "rain");
    r.extra_params = vec![("duration".to_string(), ExtraValue::Unsigned((1u64 << 32) + 7))];
    match StableAudioModel::from_unified_request(r).unwrap() {
        VideoGenInput::StableAudio(m) => assert_eq!(m.duration, 7),
        _ => panic!("StableAudio input expected"),
    }
    let mut r = request("stable_audio", "rain");
    r.extra_params = vec![("duration".to_string(), ExtraValue::Text("long".to_string()))];
    match StableAudioModel::from_unified_request(r).unwrap() {
        VideoGenInput::StableAudio(m) => assert_eq!(m.duration, 90),
        _ => panic!("StableAudio input expected"),
    }
    let mut r = request("stable_audio", "rain");
    r.image = Some(image());
    assert_eq!(invalid_message(StableAudioModel::from_unified_request(r)), "Stable Audio does not support image input");
}

#[test]
fn talking_head_from_unified() {
    let mut r = request("talkinghead", "");
    assert_eq!(invalid_message(TalkingHeadModel::validate_unified_parameters(&r)), "TalkingHead requires an image (face) input");
    r.image = Some(image());
    assert_eq!(invalid_message(TalkingHeadModel::validate_unified_parameters(&r)), "TalkingHead requires an audio (voice) input");
    r.audio = Some(audio());
    r.prompt = "hello".to_string();
    assert_eq!(
        invalid_message(TalkingHeadModel::validate_unified_parameters(&r)),
        "TalkingHead does not use text prompts. Audio serves as the input."
    );
    r.prompt = TALKINGHEAD_PROMPT_PLACEHOLDER.to_string();
    assert!(TalkingHeadModel::validate_unified_parameters(&r).is_ok());
    r.duration_seconds = Some(5);
    assert_eq!(invalid_message(TalkingHeadModel::validate_unified_parameters(&r)), "TalkingHead duration is determined by audio length");
    r.duration_seconds = None;
    r.prompt = String::new();
    match TalkingHeadModel::from_unified_request(r).unwrap() {
        VideoGenInput::TalkingHead(m) => {
            assert_eq!(m.prompt, "[TalkingHead: Audio-based generation]");
            assert_eq!(m.audio.mime_type, "audio/wav");
        }
        _ => panic!("TalkingHead input expected"),
    }
}

#[test]
fn other_models_from_unified() {
    let mut r = request("llm_handler", "ideas");
    r.image = Some(image());
    assert_eq!(invalid_message(LlmHandlerModel::from_unified_request(r)), "LLM Handler does not support image input");
    match LlmHandlerModel::from_unified_request(request("llm_handler", "ideas")).unwrap() {
        VideoGenInput::LlmHandler(m) => assert_eq!(m.user_prompt, "ideas"),
        _ => panic!("LlmHandler input expected"),
    }
    assert_eq!(
        invalid_message(SpeechToVideoModel::from_unified_request(request("speech_to_video", ""))),
        "Audio data is required for SpeechToVideoModel"
    );
    let mut r = request("speech_to_video", "");
    r.audio = Some(audio());
    assert!(SpeechToVideoModel::from_unified_request(r).is_ok());
    let mut r = request("wan2_5", "city");
    r.seed = Some(1);
    assert_eq!(invalid_message(Wan25Model::from_unified_request(r)), "Wan 2.5 seed is hardcoded to -1 (random)");
    let mut r = request("wan2_2", "city");
    r.seed = Some(1);
    r.image = Some(image());
    match Wan22Model::from_unified_request(r).unwrap() {
        VideoGenInput::Wan22(m) => assert!(m.is_i2v),
        _ => panic!("Wan22 input expected"),
    }
    let mut r = request("wan2_5_fast", "city");
    r.duration_seconds = Some(10);
    assert_eq!(invalid_message(Wan25FastModel::from_unified_request(r)), "Wan 2.5 Fast only supports 5 second duration");
    assert!(IntTestModel::from_unified_request(request("inttest", "x")).is_ok());
}

#[test]
fn provider_descriptions() {
    let ltx = Ltx2Model::get_provider_info();
    assert_eq!(ltx.id, "ltx2");
    assert_eq!(ltx.allowed_resolutions, vec![ResolutionV2::R720p, ResolutionV2::R1080p]);
    assert_eq!(ltx.cost, CostInfo::from_usd_cents(50));
    assert_eq!(ltx.extra_info.len(), 4);
    let audio = StableAudioModel::get_provider_info();
    assert_eq!(audio.allowed_durations, vec![5, 10, 15, 30, 60, 90, 120, 180]);
    assert_eq!(audio.default_duration, Some(90));
    assert_eq!(audio.cost.sats, 50);
    let llm = LlmHandlerModel::get_provider_info();
    assert!(llm.is_internal);
    assert_eq!(llm.cost.usd_cents, 1);
    let luma = LumaLabsModel::get_provider_info();
    assert_eq!(luma.allowed_aspect_ratios.len(), 5);
    assert_eq!(luma.default_duration, Some(9));
    let talking = TalkingHeadModel::get_provider_info();
    assert!(talking.supports_audio_input);
    assert!(talking.allowed_durations.is_empty());
    let stt = SpeechToVideoModel::get_provider_info();
    assert_eq!(stt.cost.usd_cents, 10);
    assert_eq!(FalAiModel::model_info().name, "Seedance 1.0 Pro");
    assert!(!FalAiModel::model_info().is_available);
}

#[test]
fn registry_routes_by_model_id() {
    let registry = AdapterRegistry::default();
    assert!(matches!(registry.adapt_request(request("inttest", "x")), Ok(VideoGenInput::IntTest(_))));
    assert!(matches!(registry.adapt_request(request("lumalabs", "x")), Ok(VideoGenInput::LumaLabs(_))));
    assert!(matches!(registry.adapt_request(request("veo3", "x")), Ok(VideoGenInput::Veo3(_))));
    assert!(matches!(registry.adapt_request(request("veo3_fast", "x")), Ok(VideoGenInput::Veo3Fast(_))));
    assert_eq!(invalid_message(registry.adapt_request(request("sora", "x"))), "Unknown model: sora");
    let all = registry.get_all_providers();
    assert_eq!(all.schema_version, "1.0.0");
    let ids: Vec<&str> = all.providers.iter().map(|p| p.id.as_str()).collect();
    assert_eq!(ids, vec!["veo3", "veo3_fast", "lumalabs", "inttest"]);
    let prod = registry.get_all_prod_providers();
    assert_eq!(prod.providers.len(), 3);
    for p in &all.providers {
        assert_eq!(registry.get_provider_info(&p.id).unwrap().id, p.id);
    }
    assert!(registry.get_provider_info("ltx2").is_none());
    assert!(registry.is_model_available("inttest"));
    assert!(!registry.is_model_available("ltx2"));
    assert_eq!(
        registry.is_model_available("veo3"),
        registry.get_provider_info("veo3").map(|p| p.is_available).unwrap_or(false)
    );
}

#[test]
fn first_version_models() {
    let models = VideoModel::get_models();
    assert_eq!(models.len(), 2);
    assert_eq!(models[0].id, "wan2_5_fast");
    assert_eq!(models[1].id, "inttest");
    assert_eq!(models[0].duration_display(), "5 Sec");
    let mut long = models[1].clone();
    long.max_duration_seconds = 125;
    assert_eq!(long.duration_display(), "2 Min");
    assert!(matches!(models[1].to_video_gen_input("x".to_string(), None), Ok(VideoGenInput::IntTest(_))));
    assert_eq!(models[0].to_video_gen_input("x".to_string(), None).err().unwrap(), "Model Wan 2.5 Fast is not supported");
    let mut off = models[1].clone();
    off.is_available = false;
    assert_eq!(off.to_video_gen_input("x".to_string(), None).err().unwrap(), "Model IntTest is coming soon");
    let mut no_image = models[1].clone();
    no_image.supports_image = false;
    assert_eq!(
        no_image.to_video_gen_input("x".to_string(), Some(image())).err().unwrap(),
        "Model IntTest does not support image input"
    );
}

#[test]
fn flow_control_overrides() {
    assert_eq!(combine_flow_control(Some(5), Some(2), None), Some((5, 2)));
    assert_eq!(combine_flow_control(Some(5), None, Some((1, 9))), Some((5, 9)));
    assert_eq!(combine_flow_control(None, Some(3), Some((1, 9))), Some((1, 3)));
    assert_eq!(combine_flow_control(Some(5), None, None), None);
    assert_eq!(combine_flow_control(None, None, Some((1, 9))), Some((1, 9)));
    assert_eq!(flow_control_from_env_values(Some("10"), Some("x"), Some((1, 2))), Some((10, 2)));
    assert_eq!(flow_control_from_env_values(Some("4294967296"), Some("+3"), Some((1, 2))), Some((1, 3)));
    assert_eq!(flow_control_from_env_values(None, None, None), None);
}

#[test]
fn client_requests_and_refusals() {
    assert_eq!(Endpoint::Generate.path(), "api/v1/videogen/generate");
    assert_eq!(Endpoint::ProvidersAll.path(), "api/v2/videogen/providers-all");
    assert_eq!(Endpoint::GenerateV2.path(), "api/v2/videogen/generate");
    assert!(Endpoint::Providers.sends_bearer());
    assert!(!Endpoint::GenerateSigned.sends_bearer());
    assert_eq!(bearer_header("tok"), "Bearer tok");
    assert_eq!(invalid_url("bad").message(), "Network error: Invalid URL: bad");
    assert_eq!(Endpoint::GenerateSigned.refusal("oops", None, "").message(), "Network error: Server error: oops");
    assert_eq!(
        Endpoint::GenerateSigned.refusal("{}", Some(VideoGenError::AuthError), "").message(),
        "Authentication failed"
    );
    assert_eq!(Endpoint::Providers.refusal("down", Some(VideoGenError::AuthError), "").message(), "Network error: Failed to get providers: down");
    assert_eq!(Endpoint::ProvidersAll.refusal("down", None, "").message(), "Network error: Failed to get all providers: down");
    assert_eq!(Endpoint::Generate.refusal("x", None, "expected value").message(), "Network error: expected value");
}

#[test]
fn adapted_inputs_pass_their_checks() {
    let registry = AdapterRegistry::default();
    let mut requests = vec![
        request("veo3", "a"),
        request("veo3_fast", "a"),
        request("lumalabs", "a"),
        request("inttest", "a"),
    ];
    let mut luma = request("lumalabs", "b");
    luma.aspect_ratio = Some(AspectRatioV2::Ratio1x1);
    luma.duration_seconds = Some(9);
    requests.push(luma);
    let mut veo = request("veo3", "c");
    veo.duration_seconds = Some(1);
    veo.aspect_ratio = Some(AspectRatioV2::Ratio9x16);
    requests.push(veo);
    for r in requests {
        let input = registry.adapt_request(r).unwrap();
        assert!(input.validate_input().is_ok());
    }
}

#[test]
fn token_round_trip_at_default_rates() {
    let config = TokenCostConfig::default();
    for cents in [0u64, 1, 50, 12345] {
        for t in [TokenType::Sats, TokenType::Dolr] {
            assert_eq!(config.convert_token_to_usd(config.convert_usd_to_token(cents, &t), &t), cents);
        }
    }
}

#[test]
fn extra_parameters_are_looked_up_by_name() {
    let params = vec![
        ("duration".to_string(), ExtraValue::Text("30".to_string())),
        ("style".to_string(), ExtraValue::Text("calm".to_string())),
    ];
    assert!(matches!(find_extra(&params, "style"), Some(ExtraValue::Text(s)) if s == "calm"));
    assert!(matches!(find_extra(&params, "duration"), Some(ExtraValue::Text(s)) if s == "30"));
    assert!(find_extra(&params, "tempo").is_none());
}
