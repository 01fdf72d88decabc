//! Limits and key names of the ML feed cache.

use vstd::prelude::*;

verus! {

pub const MAX_WATCH_HISTORY_CACHE_LEN: u64 = 10000;
pub const MAX_SUCCESS_HISTORY_CACHE_LEN: u64 = 10000;
pub const MAX_GLOBAL_CACHE_LEN: u64 = 3000;
pub const MAX_USER_CACHE_LEN: u64 = 1000;
pub const MAX_HISTORY_PLAIN_POST_ITEM_CACHE_LEN: u64 = 10000;

pub const GLOBAL_CACHE_CLEAN_KEY: &'static str = "global_cache_clean";
pub const GLOBAL_CACHE_NSFW_KEY: &'static str = "global_cache_nsfw";
pub const GLOBAL_CACHE_MIXED_KEY: &'static str = "global_cache_mixed";

pub const GLOBAL_CACHE_CLEAN_KEY_V2: &'static str = "global_cache_clean_v2";
pub const GLOBAL_CACHE_NSFW_KEY_V2: &'static str = "global_cache_nsfw_v2";
pub const GLOBAL_CACHE_MIXED_KEY_V2: &'static str = "global_cache_mixed_v2";

pub const USER_WATCH_HISTORY_CLEAN_SUFFIX: &'static str = "_watch_clean";
pub const USER_SUCCESS_HISTORY_CLEAN_SUFFIX: &'static str = "_success_clean";
pub const USER_WATCH_HISTORY_NSFW_SUFFIX: &'static str = "_watch_nsfw";
pub const USER_SUCCESS_HISTORY_NSFW_SUFFIX: &'static str = "_success_nsfw";

pub const USER_WATCH_HISTORY_CLEAN_SUFFIX_V2: &'static str = "_watch_clean_v2";
pub const USER_SUCCESS_HISTORY_CLEAN_SUFFIX_V2: &'static str = "_success_clean_v2";
pub const USER_WATCH_HISTORY_NSFW_SUFFIX_V2: &'static str = "_watch_nsfw_v2";
pub const USER_SUCCESS_HISTORY_NSFW_SUFFIX_V2: &'static str = "_success_nsfw_v2";

pub const USER_WATCH_HISTORY_PLAIN_POST_ITEM_SUFFIX: &'static str = "_watch_plain_post_item";
pub const USER_LIKE_HISTORY_PLAIN_POST_ITEM_SUFFIX: &'static str = "_like_plain_post_item";

pub const USER_WATCH_HISTORY_PLAIN_POST_ITEM_SUFFIX_V2: &'static str = "_watch_plain_post_item_v2";
pub const USER_LIKE_HISTORY_PLAIN_POST_ITEM_SUFFIX_V2: &'static str = "_like_plain_post_item_v2";

pub const USER_HOTORNOT_BUFFER_KEY: &'static str = "user_hotornot_buffer";
pub const USER_HOTORNOT_BUFFER_KEY_V2: &'static str = "user_hotornot_buffer_v2";
pub const USER_HOTORNOT_BUFFER_KEY_V3: &'static str = "user_hotornot_buffer_v3";

pub const USER_CACHE_CLEAN_SUFFIX: &'static str = "_cache_clean";
pub const USER_CACHE_NSFW_SUFFIX: &'static str = "_cache_nsfw";
pub const USER_CACHE_MIXED_SUFFIX: &'static str = "_cache_mixed";

pub const USER_CACHE_CLEAN_SUFFIX_V2: &'static str = "_cache_clean_v2";
pub const USER_CACHE_NSFW_SUFFIX_V2: &'static str = "_cache_nsfw_v2";
pub const USER_CACHE_MIXED_SUFFIX_V2: &'static str = "_cache_mixed_v2";

/// Suffix of a user's set of watched clean videos.
pub const USER_WATCHED_VIDEO_IDS_SET_CLEAN_SUFFIX_V2: &'static str = "_watched_video_ids_clean_v2";
/// Suffix of a user's set of watched NSFW videos.
pub const USER_WATCHED_VIDEO_IDS_SET_NSFW_SUFFIX_V2: &'static str = "_watched_video_ids_nsfw_v2";

} // verus!
