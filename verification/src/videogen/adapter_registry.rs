//! The registry that routes a unified request to its model and describes
//! the registered models.

use vstd::prelude::*;
use vstd::string::*;
use crate::text::str_eq;
use super::generator::VideoGenerator;
use super::input::VideoGenInput;
use super::inttest::{inttest_from_unified, inttest_info, IntTestModel};
use super::lumalabs::{luma_adapts, lumalabs_info, LumaLabsModel};
use super::types::{follows_outcome, is_invalid_input, LumaLabsDuration, LumaLabsResolution, Veo3AspectRatio, VideoGenError};
use super::types_v2::{AspectRatioV2, ProviderInfo, ProviderInfoView, ProvidersResponse, ResolutionV2, VideoGenRequestV2};
use super::veo3::{veo3_fast_from_unified, veo3_from_unified, veo3_info, Veo3FastModel, Veo3Model};

verus! {

broadcast use vstd::string::group_string_axioms;

/// Registry of the model adapters.
#[derive(Clone, Copy, Debug)]
pub struct AdapterRegistry;

/// `r` is what the registered model called `u.model_id` makes of `u`, or
/// the error that names an unknown model.
pub open spec fn adapts_request(u: VideoGenRequestV2, r: Result<VideoGenInput, VideoGenError>) -> bool {
    if u.model_id@ == "veo3"@ {
        follows_outcome(r, veo3_from_unified(u))
    } else if u.model_id@ == "veo3_fast"@ {
        follows_outcome(r, veo3_fast_from_unified(u))
    } else if u.model_id@ == "lumalabs"@ {
        luma_adapts(u, r)
    } else if u.model_id@ == "inttest"@ {
        follows_outcome(r, inttest_from_unified(u))
    } else {
        is_invalid_input(r, "Unknown model: "@ + u.model_id@)
    }
}

/// The description of the registered model called `model_id`, if any.
pub open spec fn registered_info(model_id: Seq<char>) -> Option<ProviderInfoView> {
    if model_id == "veo3"@ {
        Some(veo3_info(false))
    } else if model_id == "veo3_fast"@ {
        Some(veo3_info(true))
    } else if model_id == "lumalabs"@ {
        Some(lumalabs_info())
    } else if model_id == "inttest"@ {
        Some(inttest_info())
    } else {
        None
    }
}

/// The descriptions of the production models, in the order they are listed.
pub open spec fn prod_infos() -> Seq<ProviderInfoView> {
    seq![veo3_info(false), veo3_info(true), lumalabs_info()]
}

/// The descriptions of all registered models, in the order they are listed.
pub open spec fn all_infos() -> Seq<ProviderInfoView> {
    prod_infos().push(inttest_info())
}

/// The abstract descriptions in a list of providers.
pub open spec fn infos_view(v: Seq<ProviderInfo>) -> Seq<ProviderInfoView> {
    v.map_values(|p: ProviderInfo| p@)
}

fn providers_response(providers: Vec<ProviderInfo>) -> (r: ProvidersResponse)
    ensures
        r.providers@ == providers@,
        r.schema_version@ == "1.0.0"@,
{
    ProvidersResponse { providers, schema_version: "1.0.0".to_string() }
}

impl AdapterRegistry {
    /// Routes a unified request to the model it names (`veo3`, `veo3_fast`,
    /// `lumalabs` or `inttest`), which adapts it to its own input.
    pub fn adapt_request(&self, request: VideoGenRequestV2) -> (r: Result<VideoGenInput, VideoGenError>)
        ensures
            adapts_request(request, r),
    {
        if str_eq(request.model_id.as_str(), "veo3") {
            Veo3Model::from_unified_request(request)
        } else if str_eq(request.model_id.as_str(), "veo3_fast") {
            Veo3FastModel::from_unified_request(request)
        } else if str_eq(request.model_id.as_str(), "lumalabs") {
            LumaLabsModel::from_unified_request(request)
        } else if str_eq(request.model_id.as_str(), "inttest") {
            IntTestModel::from_unified_request(request)
        } else {
            let mut msg = "Unknown model: ".to_string();
            msg.append(request.model_id.as_str());
            Err(VideoGenError::InvalidInput(msg))
        }
    }

    /// The descriptions of all registered models, internal ones included.
    pub fn get_all_providers(&self) -> (r: ProvidersResponse)
        ensures
            infos_view(r.providers@) == all_infos(),
            r.schema_version@ == "1.0.0"@,
    {
        let mut providers: Vec<ProviderInfo> = Vec::new();
        providers.push(Veo3Model::get_provider_info());
        providers.push(Veo3FastModel::get_provider_info());
        providers.push(LumaLabsModel::get_provider_info());
        providers.push(IntTestModel::get_provider_info());
        let r = providers_response(providers);
        assert(infos_view(r.providers@) =~= all_infos());
        r
    }

    /// The descriptions of the production models.
    pub fn get_all_prod_providers(&self) -> (r: ProvidersResponse)
        ensures
            infos_view(r.providers@) == prod_infos(),
            r.schema_version@ == "1.0.0"@,
    {
        let mut providers: Vec<ProviderInfo> = Vec::new();
        providers.push(Veo3Model::get_provider_info());
        providers.push(Veo3FastModel::get_provider_info());
        providers.push(LumaLabsModel::get_provider_info());
        let r = providers_response(providers);
        assert(infos_view(r.providers@) =~= prod_infos());
        r
    }

    /// The description of the registered model called `model_id`, if any.
    pub fn get_provider_info(&self, model_id: &str) -> (r: Option<ProviderInfo>)
        ensures
            match r {
                Some(p) => registered_info(model_id@) == Some(p@),
                None => registered_info(model_id@) is None,
            },
    {
        if str_eq(model_id, "veo3") {
            Some(Veo3Model::get_provider_info())
        } else if str_eq(model_id, "veo3_fast") {
            Some(Veo3FastModel::get_provider_info())
        } else if str_eq(model_id, "lumalabs") {
            Some(LumaLabsModel::get_provider_info())
        } else if str_eq(model_id, "inttest") {
            Some(IntTestModel::get_provider_info())
        } else {
            None
        }
    }

    /// Whether the model called `model_id` is registered and available.
    pub fn is_model_available(&self, model_id: &str) -> (r: bool)
        ensures
            r == (registered_info(model_id@) matches Some(p) && p.is_available),
    {
        match self.get_provider_info(model_id) {
            Some(info) => info.is_available,
            None => false,
        }
    }
}

impl Default for AdapterRegistry {
    fn default() -> (r: Self)
        ensures
            r == AdapterRegistry,
    {
        AdapterRegistry
    }
}

/// Each listed model is found again under its own id, with the same
/// description, and every model found by id is listed.
pub proof fn lemma_listed_models_found_by_id(i: int, model_id: Seq<char>)
    ensures
        0 <= i < all_infos().len() ==> registered_info(all_infos()[i].id) == Some(all_infos()[i]),
        registered_info(model_id) matches Some(p) ==> all_infos().contains(p),
{
    reveal_strlit("veo3");
    reveal_strlit("veo3_fast");
    reveal_strlit("lumalabs");
    reveal_strlit("inttest");
    assert(all_infos()[0] == veo3_info(false));
    assert(all_infos()[1] == veo3_info(true));
    assert(all_infos()[2] == lumalabs_info());
    assert(all_infos()[3] == inttest_info());
    assert("veo3"@ != "veo3_fast"@) by {
        assert("veo3"@.len() != "veo3_fast"@.len());
    }
    assert("veo3"@ != "lumalabs"@) by {
        assert("veo3"@[0] != "lumalabs"@[0]);
    }
    assert("veo3"@ != "inttest"@) by {
        assert("veo3"@[0] != "inttest"@[0]);
    }
    assert("veo3_fast"@ != "lumalabs"@) by {
        assert("veo3_fast"@[0] != "lumalabs"@[0]);
    }
    assert("veo3_fast"@ != "inttest"@) by {
        assert("veo3_fast"@[0] != "inttest"@[0]);
    }
    assert("lumalabs"@ != "inttest"@) by {
        assert("lumalabs"@[0] != "inttest"@[0]);
    }
}

/// A request that the registry adapts names a registered model, and the
/// input it is adapted to passes that model's own input checks.
pub proof fn lemma_adapted_inputs_are_valid(u: VideoGenRequestV2, r: Result<VideoGenInput, VideoGenError>)
    requires
        adapts_request(u, r),
        r is Ok,
    ensures
        registered_info(u.model_id@) is Some,
        match r {
            Ok(input) => input.input_check() is Ok,
            Err(_) => true,
        },
{
    reveal_strlit("16:9");
    reveal_strlit("9:16");
    reveal_strlit("1:1");
    reveal_strlit("4:3");
    reveal_strlit("3:4");
    assert("16:9"@[2] == ':');
    assert("9:16"@[1] == ':');
    assert("1:1"@[1] == ':');
    assert("4:3"@[1] == ':');
    assert("3:4"@[1] == ':');
}

/// A Veo3 request keeps the aspect ratio it asks for: the adapted input is
/// portrait (9:16) exactly when 9:16 was asked for, and landscape (16:9)
/// exactly when 16:9 or no ratio was. A request with a prompt, a supported
/// ratio or none, a duration of 1 to 8 seconds or none, and no seed,
/// resolution or image is adapted, to its prompt, its duration (8 seconds
/// by default) and its audio setting (on by default).
pub proof fn lemma_veo3_keeps_requested_aspect_ratio(u: VideoGenRequestV2, r: Result<VideoGenInput, VideoGenError>)
    requires
        adapts_request(u, r),
        u.model_id@ == "veo3"@,
    ensures
        r is Ok ==> (r matches Ok(VideoGenInput::Veo3(m)) && {
            &&& (m.aspect_ratio == Veo3AspectRatio::Ratio9x16 <==> u.aspect_ratio == Some(AspectRatioV2::Ratio9x16))
            &&& (m.aspect_ratio == Veo3AspectRatio::Ratio16x9 <==> (u.aspect_ratio is None || u.aspect_ratio
                == Some(AspectRatioV2::Ratio16x9)))
        }),
        ({
            &&& u.prompt@.len() > 0
            &&& u.seed is None
            &&& u.resolution is None
            &&& u.image is None
            &&& (u.duration_seconds matches Some(d) ==> 1 <= d <= 8)
            &&& (u.aspect_ratio matches Some(a) ==> a == AspectRatioV2::Ratio16x9 || a == AspectRatioV2::Ratio9x16)
        }) ==> (r matches Ok(VideoGenInput::Veo3(m)) && {
            &&& m.prompt == u.prompt
            &&& m.duration_seconds == (match u.duration_seconds {
                Some(d) => d,
                None => 8u8,
            })
            &&& m.generate_audio == (match u.generate_audio {
                Some(g) => g,
                None => true,
            })
        }),
{
}

/// A Luma Labs request keeps the resolution it asks for (540p, 720p,
/// 1080p or 4k, all of which Luma Labs offers); only a request without one
/// gets 1080p. A request with a prompt, a duration of 5 or 9 seconds or none,
/// and no negative prompt, seed or audio setting is adapted, to its prompt,
/// its duration (5 seconds by default) and, where it names no aspect ratio, 16:9.
pub proof fn lemma_lumalabs_keeps_requested_resolution(u: VideoGenRequestV2, r: Result<VideoGenInput, VideoGenError>)
    requires
        adapts_request(u, r),
        u.model_id@ == "lumalabs"@,
    ensures
        r is Ok ==> (r matches Ok(VideoGenInput::LumaLabs(m)) && {
            &&& (u.resolution == Some(ResolutionV2::R540p) <==> m.resolution == LumaLabsResolution::R540p)
            &&& (u.resolution == Some(ResolutionV2::R720p) <==> m.resolution == LumaLabsResolution::R720p)
            &&& (u.resolution == Some(ResolutionV2::R4k) <==> m.resolution == LumaLabsResolution::R4k)
            &&& (u.resolution == Some(ResolutionV2::R1080p) || u.resolution is None) <==> m.resolution
                == LumaLabsResolution::R1080p
            &&& (u.resolution matches Some(res) ==> lumalabs_info().allowed_resolutions.contains(res))
        }),
        ({
            &&& u.prompt@.len() > 0
            &&& u.negative_prompt is None
            &&& u.seed is None
            &&& u.generate_audio is None
            &&& (u.duration_seconds matches Some(d) ==> d == 5 || d == 9)
        }) ==> (r matches Ok(VideoGenInput::LumaLabs(m)) && {
            &&& m.prompt == u.prompt
            &&& m.duration == (if u.duration_seconds == Some(9u8) {
                LumaLabsDuration::D9s
            } else {
                LumaLabsDuration::D5s
            })
            &&& (u.aspect_ratio is None ==> (m.aspect_ratio matches Some(a) && a@ == "16:9"@))
        }),
{
    reveal_strlit("veo3");
    reveal_strlit("veo3_fast");
    reveal_strlit("lumalabs");
    assert("lumalabs"@ != "veo3"@) by {
        assert("veo3"@[0] != "lumalabs"@[0]);
    }
    assert("lumalabs"@ != "veo3_fast"@) by {
        assert("veo3_fast"@[0] != "lumalabs"@[0]);
    }
    let allowed = lumalabs_info().allowed_resolutions;
    assert(allowed[0] == ResolutionV2::R540p);
    assert(allowed[1] == ResolutionV2::R720p);
    assert(allowed[2] == ResolutionV2::R1080p);
    assert(allowed[3] == ResolutionV2::R4k);
}

} // verus!
