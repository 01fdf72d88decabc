//! Feed post items exchanged with the recommendation service.

use vstd::prelude::*;
use candid::Principal;

verus! {

/// A post of the feed, with a numeric post id. Two items are equal exactly
/// when they show the same video.
#[derive(Clone, Debug)]
pub struct PostItemV2 {
    pub publisher_user_id: String,
    pub canister_id: String,
    pub post_id: u64,
    pub video_id: String,
    pub is_nsfw: bool,
}

impl PartialEq for PostItemV2 {
    fn eq(&self, other: &Self) -> (r: bool) {
        self.video_id == other.video_id
    }
}

impl vstd::std_specs::cmp::PartialEqSpecImpl for PostItemV2 {
    open spec fn obeys_eq_spec() -> bool {
        true
    }

    open spec fn eq_spec(&self, other: &Self) -> bool {
        self.video_id@ == other.video_id@
    }
}

impl Eq for PostItemV2 {}

impl std::hash::Hash for PostItemV2 {
    /// Hashes the video id alone, as equality compares it alone.
    fn hash<H: std::hash::Hasher>(&self, state: &mut H) {
        self.video_id.hash(state);
    }
}

/// A feed answer with numeric post ids.
#[derive(Clone, Debug)]
pub struct FeedResponseV2 {
    pub posts: Vec<PostItemV2>,
}

/// A post of the feed, with a textual post id. Two items are equal exactly
/// when they show the same video.
#[derive(Clone, Debug)]
pub struct PostItemV3 {
    pub publisher_user_id: String,
    pub canister_id: String,
    pub post_id: String,
    pub video_id: String,
    pub is_nsfw: bool,
}

impl PartialEq for PostItemV3 {
    fn eq(&self, other: &Self) -> (r: bool) {
        self.video_id == other.video_id
    }
}

impl vstd::std_specs::cmp::PartialEqSpecImpl for PostItemV3 {
    open spec fn obeys_eq_spec() -> bool {
        true
    }

    open spec fn eq_spec(&self, other: &Self) -> bool {
        self.video_id@ == other.video_id@
    }
}

impl Eq for PostItemV3 {}

impl std::hash::Hash for PostItemV3 {
    /// Hashes the video id alone, as equality compares it alone.
    fn hash<H: std::hash::Hasher>(&self, state: &mut H) {
        self.video_id.hash(state);
    }
}

/// A feed request of a user.
#[derive(Clone, Debug)]
pub struct FeedRequestV3 {
    pub user_id: Principal,
    /// Video ids to exclude from recommendations.
    pub exclude_items: Vec<String>,
    /// Whether to include NSFW content in recommendations.
    pub nsfw_label: bool,
    /// Number of results to return.
    pub num_results: u32,
    /// IP address for geolocation.
    pub ip_address: Option<String>,
}

/// A feed answer with textual post ids.
#[derive(Clone, Debug)]
pub struct FeedResponseV3 {
    pub posts: Vec<PostItemV3>,
}

/// The NSFW probability above which a post counts as NSFW, in hundredths:
/// a probability `p` is NSFW when `p > 0.4`.
pub const NSFW_PROBABILITY_THRESHOLD_PERCENT: u64 = 40;

} // verus!
