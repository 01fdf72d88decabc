//! A post as the apps show it: its canister's or service's record, and
//! what is known of its creator.

use vstd::prelude::*;
use candid::Principal;
use crate::decimal::{decimal, parse_u64, parse_u64_spec, u64_to_decimal};
use crate::profile::{principal_text, principal_to_text, propic_from_principal, propic_url_of, same_principal};

verus! {

broadcast use vstd::string::group_string_axioms;

/// Nanoseconds in a second.
pub const NANOS_PER_SEC: u32 = 1_000_000_000;

/// A post as the apps show it.
#[derive(Clone, Debug)]
pub struct PostDetails {
    /// The publishing canister.
    pub canister_id: Principal,
    pub post_id: String,
    pub uid: String,
    pub description: String,
    pub views: u64,
    pub likes: u64,
    pub display_name: Option<String>,
    pub username: Option<String>,
    pub propic_url: String,
    /// Whether the signed-in user likes the post; `None` where unknown.
    pub liked_by_user: Option<bool>,
    pub poster_principal: Principal,
    pub creator_follows_user: Option<bool>,
    pub user_follows_creator: Option<bool>,
    pub creator_bio: Option<String>,
    pub hastags: Vec<String>,
    pub is_nsfw: bool,
    pub hot_or_not_feed_ranking_score: Option<u64>,
    /// Creation time: whole seconds since the epoch.
    pub created_at_secs: u64,
    /// Creation time: nanoseconds past the second, below one second.
    pub created_at_nanos: u32,
    /// Bit pattern of the `f32` probability that the post is NSFW.
    pub nsfw_probability_bits: u32,
}

/// A post as the user's own canister reports it.
#[derive(Clone, Debug)]
pub struct CanisterPostDetails {
    pub id: u64,
    pub video_uid: String,
    pub description: String,
    pub total_view_count: u64,
    pub like_count: u64,
    pub created_by_display_name: Option<String>,
    pub created_by_profile_photo_url: Option<String>,
    pub created_by_user_principal_id: Principal,
    pub liked_by_me: bool,
    pub hashtags: Vec<String>,
    pub hot_or_not_feed_ranking_score: Option<u64>,
    pub created_at_secs: u64,
    pub created_at_nanos: u32,
}

/// A post as the post service stores it.
#[derive(Clone, Debug)]
pub struct ServicePost {
    pub id: String,
    pub video_uid: String,
    pub description: String,
    pub total_view_count: u64,
    /// The users who like the post.
    pub likes: Vec<Principal>,
    pub creator_principal: Principal,
    pub hashtags: Vec<String>,
    pub created_at_secs: u64,
    pub created_at_nanos: u32,
}

/// A post as the post service reports it to a user.
#[derive(Clone, Debug)]
pub struct ServicePostDetails {
    pub id: String,
    pub video_uid: String,
    pub description: String,
    pub total_view_count: u64,
    pub like_count: u64,
    pub created_by_user_principal_id: Principal,
    pub liked_by_me: bool,
    pub creator_principal: Principal,
    pub hashtags: Vec<String>,
    pub created_at_secs: u64,
    pub created_at_nanos: u32,
}

/// What the user info service reports of a post's creator.
#[derive(Clone, Debug)]
pub struct CreatorProfile {
    /// Whether the signed-in user follows the creator.
    pub caller_follows_user: Option<bool>,
    /// Whether the creator follows the signed-in user.
    pub user_follows_caller: Option<bool>,
    pub bio: Option<String>,
    pub profile_picture_url: Option<String>,
}

/// A time of `secs` seconds and `nanos` nanoseconds can be held (as
/// `Duration::new` requires): the carried seconds fit.
pub open spec fn time_fits(secs: u64, nanos: u32) -> bool {
    secs + nanos / NANOS_PER_SEC <= u64::MAX
}

/// `r` holds the time `secs` + `nanos` in whole seconds and the nanoseconds past them.
pub open spec fn holds_time(r: PostDetails, secs: u64, nanos: u32) -> bool {
    &&& r.created_at_secs == secs + nanos / NANOS_PER_SEC
    &&& r.created_at_nanos == nanos % NANOS_PER_SEC
}

fn normalize_time(secs: u64, nanos: u32) -> (r: (u64, u32))
    requires
        time_fits(secs, nanos),
    ensures
        r.0 == secs + nanos / NANOS_PER_SEC,
        r.1 == nanos % NANOS_PER_SEC,
{
    (secs + (nanos / NANOS_PER_SEC) as u64, nanos % NANOS_PER_SEC)
}

/// `r` and `p` agree on every field but the username, the follow relations,
/// the creator's bio and the profile picture.
pub open spec fn same_apart_from_creator(r: PostDetails, p: PostDetails) -> bool {
    &&& r.canister_id == p.canister_id
    &&& r.post_id == p.post_id
    &&& r.uid == p.uid
    &&& r.description == p.description
    &&& r.views == p.views
    &&& r.likes == p.likes
    &&& r.display_name == p.display_name
    &&& r.liked_by_user == p.liked_by_user
    &&& r.poster_principal == p.poster_principal
    &&& r.hastags == p.hastags
    &&& r.is_nsfw == p.is_nsfw
    &&& r.hot_or_not_feed_ranking_score == p.hot_or_not_feed_ranking_score
    &&& r.created_at_secs == p.created_at_secs
    &&& r.created_at_nanos == p.created_at_nanos
    &&& r.nsfw_probability_bits == p.nsfw_probability_bits
}

/// The username of a creator: the one from the metadata service where it is
/// not empty, else the generated one.
pub open spec fn creator_username(meta_username: Option<Seq<char>>, fallback: Seq<char>) -> Seq<char> {
    match meta_username {
        Some(u) => if u.len() > 0 {
            u
        } else {
            fallback
        },
        None => fallback,
    }
}

/// The profile picture of a post once its creator's profile is known: the
/// profile's picture where it is not empty, else the one it had.
pub open spec fn merged_propic(current: Seq<char>, profile: Option<CreatorProfile>) -> Seq<char> {
    match profile {
        Some(p) => match p.profile_picture_url {
            Some(pic) => if pic@.len() > 0 {
                pic@
            } else {
                current
            },
            None => current,
        },
        None => current,
    }
}

impl PostDetails {
    /// A post of a user's canister, with its NSFW probability and whether that
    /// probability reaches the NSFW threshold (a comparison of floats that the
    /// caller makes). The like is known only to a signed-in user.
    pub fn from_canister_post_with_nsfw_info(
        authenticated: bool,
        username: Option<String>,
        canister_id: Principal,
        details: CanisterPostDetails,
        nsfw_probability_bits: u32,
        is_nsfw: bool,
    ) -> (r: Self)
        requires
            time_fits(details.created_at_secs, details.created_at_nanos),
        ensures
            r.canister_id == canister_id,
            r.post_id@ == decimal(details.id as nat),
            r.uid == details.video_uid,
            r.description == details.description,
            r.views == details.total_view_count,
            r.likes == details.like_count,
            r.display_name == details.created_by_display_name,
            r.username == username,
            r.propic_url@ == match details.created_by_profile_photo_url {
                Some(u) => u@,
                None => propic_url_of(details.created_by_user_principal_id),
            },
            r.liked_by_user == (if authenticated { Some(details.liked_by_me) } else { None }),
            r.poster_principal == details.created_by_user_principal_id,
            r.creator_follows_user is None,
            r.user_follows_creator is None,
            r.creator_bio is None,
            r.hastags == details.hashtags,
            r.is_nsfw == is_nsfw,
            r.hot_or_not_feed_ranking_score == details.hot_or_not_feed_ranking_score,
            holds_time(r, details.created_at_secs, details.created_at_nanos),
            r.nsfw_probability_bits == nsfw_probability_bits,
    {
        let (created_at_secs, created_at_nanos) = normalize_time(details.created_at_secs, details.created_at_nanos);
        let propic_url = match details.created_by_profile_photo_url {
            Some(u) => u,
            None => propic_from_principal(details.created_by_user_principal_id),
        };
        PostDetails {
            canister_id,
            post_id: u64_to_decimal(details.id),
            uid: details.video_uid,
            description: details.description,
            views: details.total_view_count,
            likes: details.like_count,
            display_name: details.created_by_display_name,
            username,
            propic_url,
            liked_by_user: if authenticated { Some(details.liked_by_me) } else { None },
            poster_principal: details.created_by_user_principal_id,
            creator_follows_user: None,
            user_follows_creator: None,
            creator_bio: None,
            hastags: details.hashtags,
            is_nsfw,
            hot_or_not_feed_ranking_score: details.hot_or_not_feed_ranking_score,
            created_at_secs,
            created_at_nanos,
            nsfw_probability_bits,
        }
    }

    /// A post of a user's canister with the NSFW probability `0.0`, which is
    /// below the NSFW threshold.
    pub fn from_canister_post(
        authenticated: bool,
        username: Option<String>,
        canister_id: Principal,
        details: CanisterPostDetails,
    ) -> (r: Self)
        requires
            time_fits(details.created_at_secs, details.created_at_nanos),
        ensures
            r.canister_id == canister_id,
            r.post_id@ == decimal(details.id as nat),
            r.uid == details.video_uid,
            r.description == details.description,
            r.views == details.total_view_count,
            r.likes == details.like_count,
            r.display_name == details.created_by_display_name,
            r.username == username,
            r.propic_url@ == match details.created_by_profile_photo_url {
                Some(u) => u@,
                None => propic_url_of(details.created_by_user_principal_id),
            },
            r.liked_by_user == (if authenticated { Some(details.liked_by_me) } else { None }),
            r.poster_principal == details.created_by_user_principal_id,
            r.creator_follows_user is None,
            r.user_follows_creator is None,
            r.creator_bio is None,
            r.hastags == details.hashtags,
            !r.is_nsfw,
            r.hot_or_not_feed_ranking_score == details.hot_or_not_feed_ranking_score,
            holds_time(r, details.created_at_secs, details.created_at_nanos),
            r.nsfw_probability_bits == 0,
    {
        Self::from_canister_post_with_nsfw_info(authenticated, username, canister_id, details, 0, false)
    }

    /// A post of the post service seen without a signed-in user: no like is
    /// known, the picture is the creator's generated one, and the post counts
    /// as clean and in the hot-or-not feed.
    pub fn from_service_post_anonymous(username: Option<String>, canister_id: Principal, service_post: ServicePost) -> (r: Self)
        requires
            time_fits(service_post.created_at_secs, service_post.created_at_nanos),
        ensures
            r.canister_id == canister_id,
            r.post_id == service_post.id,
            r.uid == service_post.video_uid,
            r.description == service_post.description,
            r.views == service_post.total_view_count,
            r.likes == service_post.likes@.len(),
            r.display_name is None,
            r.username == username,
            r.propic_url@ == propic_url_of(service_post.creator_principal),
            r.liked_by_user is None,
            r.poster_principal == service_post.creator_principal,
            r.creator_follows_user is None,
            r.user_follows_creator is None,
            r.creator_bio is None,
            r.hastags == service_post.hashtags,
            !r.is_nsfw,
            r.hot_or_not_feed_ranking_score == Some(0u64),
            holds_time(r, service_post.created_at_secs, service_post.created_at_nanos),
            r.nsfw_probability_bits == 0,
    {
        let (created_at_secs, created_at_nanos) = normalize_time(service_post.created_at_secs, service_post.created_at_nanos);
        let likes = service_post.likes.len() as u64;
        PostDetails {
            canister_id,
            post_id: service_post.id,
            uid: service_post.video_uid,
            description: service_post.description,
            views: service_post.total_view_count,
            likes,
            display_name: None,
            username,
            propic_url: propic_from_principal(service_post.creator_principal),
            liked_by_user: None,
            poster_principal: service_post.creator_principal,
            creator_follows_user: None,
            user_follows_creator: None,
            creator_bio: None,
            hastags: service_post.hashtags,
            is_nsfw: false,
            hot_or_not_feed_ranking_score: Some(0),
            created_at_secs,
            created_at_nanos,
            nsfw_probability_bits: 0,
        }
    }

    /// A post of the post service as reported to a user, with their like; the
    /// picture is the uploader's generated one.
    pub fn from_service_post(username: Option<String>, canister_id: Principal, post_details: ServicePostDetails) -> (r: Self)
        requires
            time_fits(post_details.created_at_secs, post_details.created_at_nanos),
        ensures
            r.canister_id == canister_id,
            r.post_id == post_details.id,
            r.uid == post_details.video_uid,
            r.description == post_details.description,
            r.views == post_details.total_view_count,
            r.likes == post_details.like_count,
            r.display_name is None,
            r.username == username,
            r.propic_url@ == propic_url_of(post_details.created_by_user_principal_id),
            r.liked_by_user == Some(post_details.liked_by_me),
            r.poster_principal == post_details.creator_principal,
            r.creator_follows_user is None,
            r.user_follows_creator is None,
            r.creator_bio is None,
            r.hastags == post_details.hashtags,
            !r.is_nsfw,
            r.hot_or_not_feed_ranking_score == Some(0u64),
            holds_time(r, post_details.created_at_secs, post_details.created_at_nanos),
            r.nsfw_probability_bits == 0,
    {
        let (created_at_secs, created_at_nanos) = normalize_time(post_details.created_at_secs, post_details.created_at_nanos);
        PostDetails {
            canister_id,
            post_id: post_details.id,
            uid: post_details.video_uid,
            description: post_details.description,
            views: post_details.total_view_count,
            likes: post_details.like_count,
            display_name: None,
            username,
            propic_url: propic_from_principal(post_details.created_by_user_principal_id),
            liked_by_user: Some(post_details.liked_by_me),
            poster_principal: post_details.creator_principal,
            creator_follows_user: None,
            user_follows_creator: None,
            creator_bio: None,
            hastags: post_details.hashtags,
            is_nsfw: false,
            hot_or_not_feed_ranking_score: Some(0),
            created_at_secs,
            created_at_nanos,
            nsfw_probability_bits: 0,
        }
    }

    /// Whether the post is in the hot-or-not feed: it has a ranking score.
    pub fn is_hot_or_not(&self) -> (r: bool)
        ensures
            r == self.hot_or_not_feed_ranking_score is Some,
    {
        self.hot_or_not_feed_ranking_score.is_some()
    }

    /// The creator's username, or else their principal's textual form (safe in URLs).
    pub fn username_or_principal(&self) -> (r: String)
        ensures
            r@ == match self.username {
                Some(u) => u@,
                None => principal_text(self.poster_principal),
            },
    {
        match &self.username {
            Some(u) => u.clone(),
            None => principal_to_text(&self.poster_principal),
        }
    }

    /// The creator's username, or else `fallback`, the username generated
    /// from their principal.
    pub fn username_or_fallback(&self, fallback: String) -> (r: String)
        ensures
            r@ == match self.username {
                Some(u) => u@,
                None => fallback@,
            },
    {
        match &self.username {
            Some(u) => u.clone(),
            None => fallback,
        }
    }

    /// The creator's display name, or else what `username_or_fallback` gives.
    pub fn display_name_or_fallback(&self, fallback: String) -> (r: String)
        ensures
            r@ == match self.display_name {
                Some(d) => d@,
                None => match self.username {
                    Some(u) => u@,
                    None => fallback@,
                },
            },
    {
        match &self.display_name {
            Some(d) => d.clone(),
            None => self.username_or_fallback(fallback),
        }
    }
}

/// Adds what is known of a post's creator: the username from the metadata
/// service where it is not empty, else `fallback_username` (generated from
/// the creator's principal); and, where the creator's profile was fetched,
/// the follow relations, the bio, and the profile picture where it is not
/// empty. Everything else is kept.
pub fn merge_creator_info(
    post: PostDetails,
    meta_username: Option<String>,
    fallback_username: String,
    profile: Option<CreatorProfile>,
) -> (r: PostDetails)
    ensures
        same_apart_from_creator(r, post),
        r.username matches Some(u) && u@ == creator_username(meta_username.deep_view(), fallback_username@),
        r.propic_url@ == merged_propic(post.propic_url@, profile),
        match profile {
            Some(p) => {
                &&& r.user_follows_creator == p.caller_follows_user
                &&& r.creator_follows_user == p.user_follows_caller
                &&& r.creator_bio == p.bio
            },
            None => {
                &&& r.user_follows_creator == post.user_follows_creator
                &&& r.creator_follows_user == post.creator_follows_user
                &&& r.creator_bio == post.creator_bio
            },
        },
{
    let mut post = post;
    let username = match meta_username {
        Some(u) => if u.as_str().is_empty() {
            fallback_username
        } else {
            u
        },
        None => fallback_username,
    };
    post.username = Some(username);
    if let Some(p) = profile {
        post.user_follows_creator = p.caller_follows_user;
        post.creator_follows_user = p.user_follows_caller;
        post.creator_bio = p.bio;
        if let Some(pic) = p.profile_picture_url {
            if !pic.as_str().is_empty() {
                post.propic_url = pic;
            }
        }
    }
    post
}

/// The status of a post, as its canister or the user post service reports
/// it, in the classes that decide whether it is shown.
#[derive(Clone, Copy, Debug, PartialEq, Eq, Structural)]
pub enum PostStatus {
    /// Uploaded and not yet through transcoding or the explicitness check.
    NotYetReady,
    /// Ready to be viewed.
    ReadyToView,
    /// Banned, for explicitness or after reports by users.
    Banned,
    /// Deleted by its creator.
    Deleted,
}

impl PostStatus {
    /// Whether a post with this status is shown: only when it is ready to view.
    pub fn is_viewable(&self) -> (r: bool)
        ensures
            r == (*self == PostStatus::ReadyToView),
    {
        match self {
            PostStatus::ReadyToView => true,
            _ => false,
        }
    }
}

/// A post as it is shown: the post where its status is ready to view, and
/// nothing for a post that is banned, deleted or not yet ready.
pub fn viewable_post(status: PostStatus, post: PostDetails) -> (r: Option<PostDetails>)
    ensures
        r == (if status == PostStatus::ReadyToView {
            Some(post)
        } else {
            None
        }),
{
    if status.is_viewable() {
        Some(post)
    } else {
        None
    }
}

/// Where a post of the creator canister `user_canister` is read from.
#[derive(Clone, Debug)]
pub enum PostLookup {
    /// From the user post service, by the post's textual id.
    UserPostService(String),
    /// From the creator's own canister, by the post's numeric id.
    UserCanister { user_canister: Principal, post_id: u64 },
}

/// Where the post `post_id` of `user_canister` is read from: the user post
/// service keeps the posts of the user info service's users (`user_canister`
/// is then `user_info_service`), by their textual id; every other canister
/// keeps its own, by their numeric id, which must then be a decimal number.
pub fn post_lookup(user_canister: Principal, user_info_service: Principal, post_id: &str) -> (r: PostLookup)
    requires
        user_canister != user_info_service ==> parse_u64_spec(post_id@) is Some,
    ensures
        user_canister == user_info_service ==> (r matches PostLookup::UserPostService(id) && id@ == post_id@),
        user_canister != user_info_service ==> r == (PostLookup::UserCanister {
            user_canister,
            post_id: parse_u64_spec(post_id@).unwrap(),
        }),
{
    if same_principal(&user_canister, &user_info_service) {
        PostLookup::UserPostService(post_id.to_string())
    } else {
        match parse_u64(post_id) {
            Some(id) => PostLookup::UserCanister { user_canister, post_id: id },
            None => PostLookup::UserPostService(post_id.to_string()),
        }
    }
}

} // verus!
