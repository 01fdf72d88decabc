//! Types shared by all video generation models.

use vstd::prelude::*;
use candid::Principal;

verus! {

broadcast use vstd::string::group_string_axioms;

/// The provider behind a model.
#[derive(Clone, Copy, Debug, PartialEq, Eq, Structural)]
pub enum VideoGenProvider {
    Veo3,
    Veo3Fast,
    FalAi,
    LumaLabs,
    IntTest,
    LlmHandler,
    Ltx2,
    SpeechToVideo,
    StableAudio,
    TalkingHead,
    Wan22,
    Wan25,
    Wan25Fast,
}

/// The display name of a provider: its variant name.
pub open spec fn provider_name(p: VideoGenProvider) -> Seq<char> {
    match p {
        VideoGenProvider::Veo3 => "Veo3"@,
        VideoGenProvider::Veo3Fast => "Veo3Fast"@,
        VideoGenProvider::FalAi => "FalAi"@,
        VideoGenProvider::LumaLabs => "LumaLabs"@,
        VideoGenProvider::IntTest => "IntTest"@,
        VideoGenProvider::LlmHandler => "LlmHandler"@,
        VideoGenProvider::Ltx2 => "Ltx2"@,
        VideoGenProvider::SpeechToVideo => "SpeechToVideo"@,
        VideoGenProvider::StableAudio => "StableAudio"@,
        VideoGenProvider::TalkingHead => "TalkingHead"@,
        VideoGenProvider::Wan22 => "Wan22"@,
        VideoGenProvider::Wan25 => "Wan25"@,
        VideoGenProvider::Wan25Fast => "Wan25Fast"@,
    }
}

impl VideoGenProvider {
    /// The display name of the provider (what `to_string` writes).
    pub fn name(&self) -> (r: &'static str)
        ensures
            r@ == provider_name(*self),
    {
        match self {
            VideoGenProvider::Veo3 => "Veo3",
            VideoGenProvider::Veo3Fast => "Veo3Fast",
            VideoGenProvider::FalAi => "FalAi",
            VideoGenProvider::LumaLabs => "LumaLabs",
            VideoGenProvider::IntTest => "IntTest",
            VideoGenProvider::LlmHandler => "LlmHandler",
            VideoGenProvider::Ltx2 => "Ltx2",
            VideoGenProvider::SpeechToVideo => "SpeechToVideo",
            VideoGenProvider::StableAudio => "StableAudio",
            VideoGenProvider::TalkingHead => "TalkingHead",
            VideoGenProvider::Wan22 => "Wan22",
            VideoGenProvider::Wan25 => "Wan25",
            VideoGenProvider::Wan25Fast => "Wan25Fast",
        }
    }
}

/// A base64-encoded image.
#[derive(Clone, Debug)]
pub struct ImageInput {
    /// Base64-encoded image data.
    pub data: String,
    pub mime_type: String,
}

/// An input image: inline base64 data or a URL.
#[derive(Clone, Debug)]
pub enum ImageData {
    Base64(ImageInput),
    Url(String),
}

/// An input audio clip, base64-encoded.
#[derive(Clone, Debug)]
pub struct AudioData {
    /// Base64-encoded audio data.
    pub data: String,
    pub mime_type: String,
}

/// Aspect ratios of the Veo3 models.
#[derive(Clone, Copy, Debug, PartialEq, Eq, Structural)]
pub enum Veo3AspectRatio {
    Ratio16x9,
    Ratio9x16,
}

/// Resolutions of the LumaLabs model.
#[derive(Clone, Copy, Debug, PartialEq, Eq, Structural)]
pub enum LumaLabsResolution {
    R540p,
    R720p,
    R1080p,
    R4k,
}

/// Durations of the LumaLabs model.
#[derive(Clone, Copy, Debug, PartialEq, Eq, Structural)]
pub enum LumaLabsDuration {
    D5s,
    D9s,
}

/// The token a generation is paid with.
#[derive(Clone, Copy, Debug, PartialEq, Eq, Structural)]
pub enum TokenType {
    Sats,
    Dolr,
    Free,
    YralProSubscription,
}

impl Default for TokenType {
    /// Sats.
    fn default() -> (r: Self)
        ensures
            r == TokenType::Sats,
    {
        TokenType::Sats
    }
}

/// Key of a queued generation request.
#[derive(Clone, Debug)]
pub struct VideoGenRequestKey {
    pub principal: Principal,
    pub counter: u64,
}

/// Result of a finished generation.
#[derive(Clone, Debug)]
pub struct VideoGenResponse {
    pub operation_id: String,
    pub video_url: String,
    pub provider: String,
}

/// Answer to a generation request that was queued.
#[derive(Clone, Debug)]
pub struct VideoGenQueuedResponse {
    pub operation_id: String,
    pub provider: String,
    pub request_key: VideoGenRequestKey,
}

/// Errors of video generation.
#[derive(Debug)]
pub enum VideoGenError {
    ProviderError(String),
    InvalidInput(String),
    AuthError,
    NetworkError(String),
    InsufficientBalance,
    InvalidSignature,
}

/// The human-readable text of an error.
pub open spec fn error_message(e: VideoGenError) -> Seq<char> {
    match e {
        VideoGenError::ProviderError(s) => "Provider error: "@ + s@,
        VideoGenError::InvalidInput(s) => "Invalid input: "@ + s@,
        VideoGenError::AuthError => "Authentication failed"@,
        VideoGenError::NetworkError(s) => "Network error: "@ + s@,
        VideoGenError::InsufficientBalance => "Insufficient balance"@,
        VideoGenError::InvalidSignature => "Invalid signature"@,
    }
}

/// `r` is an invalid-input error with message `msg`.
pub open spec fn is_invalid_input<T>(r: Result<T, VideoGenError>, msg: Seq<char>) -> bool {
    r matches Err(VideoGenError::InvalidInput(m)) && m@ == msg
}

/// `r` is success exactly when `check` is, and otherwise the invalid-input
/// error with `check`'s message.
pub open spec fn follows_check(r: Result<(), VideoGenError>, check: Result<(), Seq<char>>) -> bool {
    match check {
        Ok(()) => r is Ok,
        Err(msg) => is_invalid_input(r, msg),
    }
}

/// `r` is `Ok` with the value of `o`, or the invalid-input error with `o`'s message.
pub open spec fn follows_outcome<T>(r: Result<T, VideoGenError>, o: Result<T, Seq<char>>) -> bool {
    match o {
        Ok(v) => r == Ok::<T, VideoGenError>(v),
        Err(msg) => is_invalid_input(r, msg),
    }
}

/// An invalid-input error with the given message.
pub fn invalid_input(msg: &str) -> (r: VideoGenError)
    ensures
        r matches VideoGenError::InvalidInput(m) && m@ == msg@,
{
    VideoGenError::InvalidInput(msg.to_string())
}

impl VideoGenError {
    /// The human-readable text of the error.
    pub fn message(&self) -> (r: String)
        ensures
            r@ == error_message(*self),
    {
        match self {
            VideoGenError::ProviderError(s) => crate::text::concat2("Provider error: ", s.as_str()),
            VideoGenError::InvalidInput(s) => crate::text::concat2("Invalid input: ", s.as_str()),
            VideoGenError::AuthError => "Authentication failed".to_string(),
            VideoGenError::NetworkError(s) => crate::text::concat2("Network error: ", s.as_str()),
            VideoGenError::InsufficientBalance => "Insufficient balance".to_string(),
            VideoGenError::InvalidSignature => "Invalid signature".to_string(),
        }
    }
}

} // verus!
