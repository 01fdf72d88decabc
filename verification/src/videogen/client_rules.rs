//! What the video generation client sends to each endpoint, and the error
//! it reports for a failed request.

use vstd::prelude::*;
use crate::text::concat2;
use super::types::VideoGenError;

verus! {

broadcast use vstd::string::group_string_axioms;

/// The endpoints of the video generation service.
#[derive(Clone, Copy, Debug, PartialEq, Eq, Structural)]
pub enum Endpoint {
    /// Queue a generation (first API version).
    Generate,
    /// Queue a signed generation.
    GenerateSigned,
    /// Queue a generation with a delegated identity.
    GenerateWithIdentity,
    /// The production providers.
    Providers,
    /// All providers, internal ones included.
    ProvidersAll,
    /// Queue a unified generation with a delegated identity.
    GenerateV2,
}

/// The path of an endpoint, relative to the service's base address.
pub open spec fn endpoint_path_of(e: Endpoint) -> Seq<char> {
    match e {
        Endpoint::Generate => "api/v1/videogen/generate"@,
        Endpoint::GenerateSigned => "api/v1/videogen/generate_signed"@,
        Endpoint::GenerateWithIdentity => "api/v1/videogen/generate_with_identity"@,
        Endpoint::Providers => "api/v2/videogen/providers"@,
        Endpoint::ProvidersAll => "api/v2/videogen/providers-all"@,
        Endpoint::GenerateV2 => "api/v2/videogen/generate"@,
    }
}

/// Whether the client's bearer token, if it has one, goes with a request:
/// for the plain generation and the provider lists, whose callers are not
/// identified otherwise.
pub open spec fn bearer_sent(e: Endpoint) -> bool {
    match e {
        Endpoint::Generate | Endpoint::Providers | Endpoint::ProvidersAll => true,
        _ => false,
    }
}

/// A network error holds the text `s`.
pub open spec fn is_network_error(e: VideoGenError, s: Seq<char>) -> bool {
    e matches VideoGenError::NetworkError(m) && m@ == s
}

/// `r` is the error of a request to `e` that the service refused, given the
/// text of its answer, that text read as an error of the service (where it
/// is one), and the reason it could not be read. The plain generation only
/// reads its answer as an error: `parsed`, or a network error with `detail`.
/// The provider lists report the text; the other endpoints report `parsed`
/// or, where the text is no error of the service, the text as a server error.
pub open spec fn refusal_matches(r: VideoGenError, e: Endpoint, text: Seq<char>, parsed: Option<VideoGenError>, detail: Seq<char>) -> bool {
    match e {
        Endpoint::Generate => match parsed {
            Some(err) => r == err,
            None => is_network_error(r, detail),
        },
        Endpoint::Providers => is_network_error(r, "Failed to get providers: "@ + text),
        Endpoint::ProvidersAll => is_network_error(r, "Failed to get all providers: "@ + text),
        _ => match parsed {
            Some(err) => r == err,
            None => is_network_error(r, "Server error: "@ + text),
        },
    }
}

impl Endpoint {
    /// The endpoint's path, relative to the service's base address.
    pub fn path(&self) -> (r: &'static str)
        ensures
            r@ == endpoint_path_of(*self),
    {
        match self {
            Endpoint::Generate => "api/v1/videogen/generate",
            Endpoint::GenerateSigned => "api/v1/videogen/generate_signed",
            Endpoint::GenerateWithIdentity => "api/v1/videogen/generate_with_identity",
            Endpoint::Providers => "api/v2/videogen/providers",
            Endpoint::ProvidersAll => "api/v2/videogen/providers-all",
            Endpoint::GenerateV2 => "api/v2/videogen/generate",
        }
    }

    /// Whether the client's bearer token goes with requests to the endpoint.
    pub fn sends_bearer(&self) -> (r: bool)
        ensures
            r == bearer_sent(*self),
    {
        match self {
            Endpoint::Generate | Endpoint::Providers | Endpoint::ProvidersAll => true,
            _ => false,
        }
    }

    /// The error of a refused request: see `refusal_matches`.
    pub fn refusal(&self, text: &str, parsed: Option<VideoGenError>, detail: &str) -> (r: VideoGenError)
        ensures
            refusal_matches(r, *self, text@, parsed, detail@),
    {
        match self {
            Endpoint::Generate => match parsed {
                Some(err) => err,
                None => VideoGenError::NetworkError(detail.to_string()),
            },
            Endpoint::Providers => VideoGenError::NetworkError(concat2("Failed to get providers: ", text)),
            Endpoint::ProvidersAll => VideoGenError::NetworkError(concat2("Failed to get all providers: ", text)),
            _ => match parsed {
                Some(err) => err,
                None => VideoGenError::NetworkError(concat2("Server error: ", text)),
            },
        }
    }
}

/// The value of the `Authorization` header that carries a bearer token.
pub fn bearer_header(token: &str) -> (r: String)
    ensures
        r@ == "Bearer "@ + token@,
{
    concat2("Bearer ", token)
}

/// The error of an endpoint address that could not be built.
pub fn invalid_url(detail: &str) -> (r: VideoGenError)
    ensures
        is_network_error(r, "Invalid URL: "@ + detail@),
{
    VideoGenError::NetworkError(concat2("Invalid URL: ", detail))
}

/// The text that stands for an error answer whose text could not be read.
pub const UNREADABLE_ERROR_TEXT: &'static str = "Failed to get error text";

} // verus!
