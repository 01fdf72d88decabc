//! What adapting a unified request to each model keeps of the request, and
//! which requests each model takes.

use vstd::prelude::*;
use super::input::VideoGenInput;
use super::llm_handler::llm_handler_from_unified;
use super::ltx2::{ltx2_from_unified, ltx2_info};
use super::lumalabs::{luma_adapts, lumalabs_info};
use super::speech_to_video::speech_to_video_from_unified;
use super::stable_audio::{extra_named, lemma_extra_named_is_map_lookup, stable_audio_adapts};
use super::inttest::inttest_from_unified;
use super::talkinghead::{talkinghead_check, TALKINGHEAD_PROMPT_PLACEHOLDER};
use super::types::{LumaLabsResolution, Veo3AspectRatio, VideoGenError};
use super::types_v2::{aspect_ratio_label, names_distinct, AspectRatioV2, ExtraValue, ResolutionV2, VideoGenRequestV2};
use super::veo3::{veo3_fast_from_unified, veo3_from_unified, veo3_info};
use super::wan::{wan22_from_unified, wan22_info, wan25_fast_from_unified, wan25_fast_info, wan25_from_unified, wan25_info};

verus! {

broadcast use vstd::string::group_string_axioms;

/// A request that sets nothing but its prompt (and, where given, its image).
pub open spec fn sets_only_prompt_and_image(u: VideoGenRequestV2) -> bool {
    &&& u.negative_prompt is None
    &&& u.audio is None
    &&& u.aspect_ratio is None
    &&& u.duration_seconds is None
    &&& u.resolution is None
    &&& u.generate_audio is None
    &&& u.seed is None
}

/// Veo3 keeps a requested 9:16 or 16:9 aspect ratio (16:9 where none is
/// asked for) and refuses any other; it keeps the prompt, the requested
/// duration (8 seconds where none is given) and the audio setting (on where
/// none is given); and it takes a request that sets only a prompt.
pub proof fn lemma_veo3_adaptation(u: VideoGenRequestV2)
    ensures
        veo3_from_unified(u) matches Ok(input) ==> (input matches VideoGenInput::Veo3(m) && {
            &&& m.prompt == u.prompt
            &&& (m.aspect_ratio == Veo3AspectRatio::Ratio9x16 <==> u.aspect_ratio == Some(AspectRatioV2::Ratio9x16))
            &&& (u.duration_seconds matches Some(d) ==> m.duration_seconds == d)
            &&& (u.duration_seconds is None ==> m.duration_seconds == 8)
            &&& (u.generate_audio matches Some(g) ==> m.generate_audio == g)
            &&& (u.generate_audio is None ==> m.generate_audio)
        }),
        u.aspect_ratio matches Some(a) && a != AspectRatioV2::Ratio16x9 && a != AspectRatioV2::Ratio9x16
            ==> veo3_from_unified(u) is Err,
        u.prompt@.len() > 0 && u.image is None && sets_only_prompt_and_image(u) ==> veo3_from_unified(u) is Ok,
{
}

/// Veo3 Fast makes 16:9 videos only: it refuses any other requested ratio;
/// it keeps the prompt, the duration (8 seconds by default) and the audio
/// setting (on by default); and it takes a request that sets only a prompt.
pub proof fn lemma_veo3_fast_adaptation(u: VideoGenRequestV2)
    ensures
        veo3_fast_from_unified(u) matches Ok(input) ==> (input matches VideoGenInput::Veo3Fast(m) && {
            &&& m.prompt == u.prompt
            &&& m.aspect_ratio == Veo3AspectRatio::Ratio16x9
            &&& (u.duration_seconds matches Some(d) ==> m.duration_seconds == d)
            &&& (u.duration_seconds is None ==> m.duration_seconds == 8)
            &&& (u.generate_audio matches Some(g) ==> m.generate_audio == g)
            &&& (u.generate_audio is None ==> m.generate_audio)
        }),
        u.aspect_ratio matches Some(a) && a != AspectRatioV2::Ratio16x9 ==> veo3_fast_from_unified(u) is Err,
        u.prompt@.len() > 0 && u.image is None && sets_only_prompt_and_image(u) ==> veo3_fast_from_unified(u) is Ok,
{
}

/// LTX-2 keeps the prompt and the image; it refuses a duration other than 5
/// seconds and a resolution other than 720p and 1080p; and it takes a
/// request with a prompt or an image that sets nothing else.
pub proof fn lemma_ltx2_adaptation(u: VideoGenRequestV2)
    ensures
        ltx2_from_unified(u) matches Ok(input) ==> (input matches VideoGenInput::Ltx2(m) && m.prompt == u.prompt
            && m.image == u.image),
        u.duration_seconds matches Some(d) && d != 5 ==> ltx2_from_unified(u) is Err,
        u.resolution matches Some(r) && r != ResolutionV2::R720p && r != ResolutionV2::R1080p ==> ltx2_from_unified(u) is Err,
        (u.prompt@.len() > 0 || u.image is Some) && sets_only_prompt_and_image(u) ==> ltx2_from_unified(u) is Ok,
{
}

/// The Wan models keep the prompt and the image (Wan 2.2 uses its
/// image-to-video endpoint exactly when an image is given); they refuse a
/// duration other than 5 seconds and a resolution other than 720p; and they
/// take a request with a prompt that sets nothing else.
pub proof fn lemma_wan_adaptation(u: VideoGenRequestV2)
    ensures
        wan22_from_unified(u) matches Ok(input) ==> (input matches VideoGenInput::Wan22(m) && m.prompt == u.prompt
            && m.image == u.image && (m.is_i2v <==> u.image is Some)),
        wan25_from_unified(u) matches Ok(input) ==> (input matches VideoGenInput::Wan25(m) && m.prompt == u.prompt
            && m.image == u.image),
        wan25_fast_from_unified(u) matches Ok(input) ==> (input matches VideoGenInput::Wan25Fast(m) && m.prompt
            == u.prompt && m.image == u.image),
        (u.duration_seconds matches Some(d) && d != 5) || (u.resolution matches Some(r) && r != ResolutionV2::R720p)
            ==> wan22_from_unified(u) is Err && wan25_from_unified(u) is Err && wan25_fast_from_unified(u) is Err,
        u.prompt@.len() > 0 && sets_only_prompt_and_image(u) ==> wan22_from_unified(u) is Ok && wan25_from_unified(u) is Ok
            && wan25_fast_from_unified(u) is Ok,
{
}

/// Stable Audio keeps the prompt, refuses an image, and runs for the
/// requested duration: a whole-number `duration` parameter where there is
/// one, else the request's duration, else 90 seconds.
pub proof fn lemma_stable_audio_adaptation(u: VideoGenRequestV2, r: Result<VideoGenInput, VideoGenError>)
    requires
        stable_audio_adapts(u, r),
        names_distinct(u.extra_params@),
    ensures
        r matches Ok(input) ==> (input matches VideoGenInput::StableAudio(m) && {
            &&& m.prompt == u.prompt
            &&& forall|i: int|
                0 <= i < u.extra_params@.len() && #[trigger] u.extra_params@[i].0@ == "duration"@
                    ==> (u.extra_params@[i].1 matches ExtraValue::Unsigned(n) ==> (n <= u32::MAX ==> m.duration == n))
            &&& (forall|i: int| 0 <= i < u.extra_params@.len() ==> #[trigger] u.extra_params@[i].0@ != "duration"@) ==> {
                &&& (u.duration_seconds matches Some(d) ==> m.duration == d)
                &&& (u.duration_seconds is None ==> m.duration == 90)
            }
        }),
        u.image is Some ==> r is Err,
        u.image is None && u.prompt@.len() > 0 ==> r is Ok,
{
    lemma_extra_named_is_map_lookup(u.extra_params@, "duration"@);
}

/// The talking-head model takes its image and voice from the request and
/// needs both; it takes a request that sets nothing but those.
pub proof fn lemma_talkinghead_adaptation(u: VideoGenRequestV2)
    ensures
        talkinghead_check(u) is Ok ==> u.image is Some && u.audio is Some,
        u.image is Some && u.audio is Some && u.prompt@.len() == 0 && u.negative_prompt is None && u.aspect_ratio is None
            && u.duration_seconds is None && u.resolution is None && u.seed is None ==> talkinghead_check(u) is Ok,
        u.prompt@ == TALKINGHEAD_PROMPT_PLACEHOLDER@ && u.image is Some && u.audio is Some && u.negative_prompt is None
            && u.aspect_ratio is None && u.duration_seconds is None && u.resolution is None && u.seed is None
            ==> talkinghead_check(u) is Ok,
{
}

/// The speech-to-video model takes the request's voice and image, and needs the voice.
pub proof fn lemma_speech_to_video_adaptation(u: VideoGenRequestV2)
    ensures
        speech_to_video_from_unified(u) matches Ok(input) ==> (input matches VideoGenInput::SpeechToVideo(m) && u.audio
            == Some(m.audio) && m.image == u.image),
        speech_to_video_from_unified(u) is Ok <==> u.audio is Some,
{
}

/// The prompt-writing model takes the request's prompt as the user's, and
/// takes exactly the requests with a prompt and no image.
pub proof fn lemma_llm_handler_adaptation(u: VideoGenRequestV2)
    ensures
        llm_handler_from_unified(u) matches Ok(input) ==> (input matches VideoGenInput::LlmHandler(m) && m.user_prompt
            == u.prompt),
        llm_handler_from_unified(u) is Ok <==> (u.image is None && u.prompt@.len() > 0),
{
}

/// The test model keeps the prompt and the image, and takes exactly the
/// requests with a prompt.
pub proof fn lemma_inttest_adaptation(u: VideoGenRequestV2)
    ensures
        inttest_from_unified(u) matches Ok(input) ==> (input matches VideoGenInput::IntTest(m) && m.prompt == u.prompt
            && m.image == u.image),
        inttest_from_unified(u) is Ok <==> u.prompt@.len() > 0,
{
}

/// What Veo3 advertises it takes, it takes: a request with a prompt and
/// any advertised aspect ratio and duration is adapted, portrait exactly for
/// 9:16; and a request that sets neither gets the advertised defaults.
pub proof fn lemma_veo3_takes_what_it_advertises(u: VideoGenRequestV2)
    requires
        u.prompt@.len() > 0,
        u.image is None && u.negative_prompt is None && u.resolution is None && u.seed is None,
    ensures
        (u.aspect_ratio matches Some(a) ==> veo3_info(false).allowed_aspect_ratios.contains(a))
            && (u.duration_seconds matches Some(d) ==> veo3_info(false).allowed_durations.contains(d))
            ==> (veo3_from_unified(u) matches Ok(VideoGenInput::Veo3(m)) && (m.aspect_ratio == Veo3AspectRatio::Ratio9x16
            <==> u.aspect_ratio == Some(AspectRatioV2::Ratio9x16))),
        u.aspect_ratio is None && u.duration_seconds is None ==> (veo3_from_unified(u) matches Ok(VideoGenInput::Veo3(m))
            && veo3_info(false).default_aspect_ratio == Some(AspectRatioV2::Ratio16x9) && m.aspect_ratio
            == Veo3AspectRatio::Ratio16x9 && veo3_info(false).default_duration == Some(m.duration_seconds)),
{
    let info = veo3_info(false);
    assert(info.allowed_aspect_ratios[0] == AspectRatioV2::Ratio16x9);
    assert(info.allowed_aspect_ratios[1] == AspectRatioV2::Ratio9x16);
    assert(info.allowed_durations[0] == 8);
}

/// What Luma Labs advertises it takes, it takes: a request with a prompt
/// and any advertised aspect ratio, resolution and duration is adapted,
/// keeping each of them; a request that sets no aspect ratio or resolution
/// gets the advertised default ones.
pub proof fn lemma_lumalabs_takes_what_it_advertises(u: VideoGenRequestV2, r: Result<VideoGenInput, VideoGenError>)
    requires
        luma_adapts(u, r),
        u.prompt@.len() > 0,
        u.negative_prompt is None && u.seed is None && u.generate_audio is None,
        u.aspect_ratio matches Some(a) ==> lumalabs_info().allowed_aspect_ratios.contains(a),
        u.resolution matches Some(res) ==> lumalabs_info().allowed_resolutions.contains(res),
        u.duration_seconds matches Some(d) ==> lumalabs_info().allowed_durations.contains(d),
    ensures
        r matches Ok(VideoGenInput::LumaLabs(m)) && {
            &&& (u.aspect_ratio matches Some(a) ==> (m.aspect_ratio matches Some(s) && s@ == aspect_ratio_label(a)))
            &&& (u.aspect_ratio is None ==> (lumalabs_info().default_aspect_ratio matches Some(a) && (m.aspect_ratio
                matches Some(s) && s@ == aspect_ratio_label(a))))
            &&& (u.resolution == Some(ResolutionV2::R4k) ==> m.resolution == LumaLabsResolution::R4k)
            &&& (u.resolution == Some(ResolutionV2::R540p) ==> m.resolution == LumaLabsResolution::R540p)
            &&& (u.resolution == Some(ResolutionV2::R720p) ==> m.resolution == LumaLabsResolution::R720p)
            &&& (u.resolution is None ==> lumalabs_info().default_resolution == Some(ResolutionV2::R1080p) && m.resolution
                == LumaLabsResolution::R1080p)
        },
{
    reveal_strlit("16:9");
    let info = lumalabs_info();
    assert(info.allowed_durations[0] == 9);
    assert(info.allowed_durations.len() == 1);
    if let Some(d) = u.duration_seconds {
        assert(d == 9);
    }
}

/// What LTX-2 and the Wan models advertise they take, they take: a request
/// with a prompt and any advertised resolution and duration is adapted.
pub proof fn lemma_ltx2_and_wan_take_what_they_advertise(u: VideoGenRequestV2)
    requires
        u.prompt@.len() > 0,
        u.negative_prompt is None && u.seed is None,
    ensures
        (u.resolution matches Some(res) ==> ltx2_info().allowed_resolutions.contains(res))
            && (u.duration_seconds matches Some(d) ==> ltx2_info().allowed_durations.contains(d))
            ==> ltx2_from_unified(u) is Ok,
        (u.resolution matches Some(res) ==> wan22_info().allowed_resolutions.contains(res))
            && (u.duration_seconds matches Some(d) ==> wan22_info().allowed_durations.contains(d))
            ==> wan22_from_unified(u) is Ok,
        (u.resolution matches Some(res) ==> wan25_info().allowed_resolutions.contains(res))
            && (u.duration_seconds matches Some(d) ==> wan25_info().allowed_durations.contains(d))
            ==> wan25_from_unified(u) is Ok,
        (u.resolution matches Some(res) ==> wan25_fast_info().allowed_resolutions.contains(res))
            && (u.duration_seconds matches Some(d) ==> wan25_fast_info().allowed_durations.contains(d))
            ==> wan25_fast_from_unified(u) is Ok,
{
    assert(ltx2_info().allowed_resolutions[0] == ResolutionV2::R720p);
    assert(ltx2_info().allowed_resolutions[1] == ResolutionV2::R1080p);
    assert(ltx2_info().allowed_durations[0] == 5);
    assert(wan22_info().allowed_resolutions[0] == ResolutionV2::R720p);
    assert(wan22_info().allowed_durations[0] == 5);
    assert(wan25_info().allowed_resolutions[0] == ResolutionV2::R720p);
    assert(wan25_info().allowed_durations[0] == 5);
    assert(wan25_fast_info().allowed_resolutions[0] == ResolutionV2::R720p);
    assert(wan25_fast_info().allowed_durations[0] == 5);
}

} // verus!
