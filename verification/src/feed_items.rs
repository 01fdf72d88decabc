//! Items stored in the ML feed cache, in their numeric-post-id (v2) and
//! textual-post-id (v3) forms, and their abstract views.
//!
//! A watched share `percent_watched` is kept as the bit pattern of its
//! `f32` value (`f32::to_bits`), which the cache passes through unchanged.

use vstd::prelude::*;
use std::time::SystemTime;
use crate::post::{PostItemV2, PostItemV3};

verus! {

/// A watched post of a plain-history set (v2 keys).
#[derive(Clone, Debug)]
pub struct PlainPostItemV2 {
    pub video_id: String,
}

/// A watched post of a plain-history set (v3 keys).
#[derive(Clone, Debug)]
pub struct PlainPostItemV3 {
    pub video_id: String,
}

impl PartialEq for PlainPostItemV3 {
    fn eq(&self, other: &Self) -> (r: bool) {
        self.video_id == other.video_id
    }
}

impl vstd::std_specs::cmp::PartialEqSpecImpl for PlainPostItemV3 {
    open spec fn obeys_eq_spec() -> bool {
        true
    }

    open spec fn eq_spec(&self, other: &Self) -> bool {
        self.video_id@ == other.video_id@
    }
}

impl Eq for PlainPostItemV3 {}

impl std::hash::Hash for PlainPostItemV3 {
    fn hash<H: std::hash::Hasher>(&self, state: &mut H) {
        self.video_id.hash(state);
    }
}

/// A post of the first cache layout.
#[derive(Clone, Debug)]
pub struct PostItem {
    pub canister_id: String,
    pub post_id: u64,
    pub video_id: String,
    /// Bit pattern of the `f32` probability that the post is NSFW.
    pub nsfw_probability_bits: u32,
}

/// A watch or success history entry of the first cache layout.
#[derive(Clone, Debug)]
pub struct MLFeedCacheHistoryItem {
    pub canister_id: String,
    pub post_id: u64,
    pub video_id: String,
    /// Bit pattern of the `f32` probability that the post is NSFW.
    pub nsfw_probability_bits: u32,
    pub item_type: String,
    pub timestamp: SystemTime,
    /// Bit pattern of the `f32` share of the video that was watched.
    pub percent_watched_bits: u32,
}

/// A watch or success history entry with a numeric post id.
#[derive(Clone, Debug)]
pub struct MLFeedCacheHistoryItemV2 {
    pub publisher_user_id: String,
    pub canister_id: String,
    pub post_id: u64,
    pub video_id: String,
    pub item_type: String,
    pub timestamp: SystemTime,
    /// Bit pattern of the `f32` share of the video that was watched.
    pub percent_watched_bits: u32,
}

/// A watch or success history entry with a textual post id.
#[derive(Clone, Debug)]
pub struct MLFeedCacheHistoryItemV3 {
    pub publisher_user_id: String,
    pub canister_id: String,
    pub post_id: String,
    pub video_id: String,
    pub item_type: String,
    pub timestamp: SystemTime,
    /// Bit pattern of the `f32` share of the video that was watched.
    pub percent_watched_bits: u32,
}

/// A hot-or-not buffer entry with a numeric post id.
#[derive(Clone, Debug)]
pub struct BufferItemV2 {
    pub publisher_user_id: String,
    pub post_id: u64,
    pub video_id: String,
    pub item_type: String,
    /// Bit pattern of the `f32` share of the video that was watched.
    pub percent_watched_bits: u32,
    pub user_id: String,
    pub timestamp: SystemTime,
}

/// A hot-or-not buffer entry with a textual post id.
#[derive(Clone, Debug)]
pub struct BufferItemV3 {
    pub publisher_user_id: String,
    pub post_id: String,
    pub video_id: String,
    pub item_type: String,
    /// Bit pattern of the `f32` share of the video that was watched.
    pub percent_watched_bits: u32,
    pub user_id: String,
    pub timestamp: SystemTime,
}

/// Abstract value of a post item with a numeric post id.
pub struct PostItemV2View {
    pub publisher_user_id: Seq<char>,
    pub canister_id: Seq<char>,
    pub post_id: u64,
    pub video_id: Seq<char>,
    pub is_nsfw: bool,
}

/// Abstract value of a post item with a textual post id.
pub struct PostItemV3View {
    pub publisher_user_id: Seq<char>,
    pub canister_id: Seq<char>,
    pub post_id: Seq<char>,
    pub video_id: Seq<char>,
    pub is_nsfw: bool,
}

/// Abstract value of a history entry; `P` is the post id's abstract type.
pub struct HistoryItemView<P> {
    pub publisher_user_id: Seq<char>,
    pub canister_id: Seq<char>,
    pub post_id: P,
    pub video_id: Seq<char>,
    pub item_type: Seq<char>,
    pub timestamp: SystemTime,
    pub percent_watched_bits: u32,
}

/// Abstract value of a buffer entry; `P` is the post id's abstract type.
pub struct BufferItemView<P> {
    pub publisher_user_id: Seq<char>,
    pub post_id: P,
    pub video_id: Seq<char>,
    pub item_type: Seq<char>,
    pub percent_watched_bits: u32,
    pub user_id: Seq<char>,
    pub timestamp: SystemTime,
}

impl View for PostItemV2 {
    type V = PostItemV2View;

    open spec fn view(&self) -> PostItemV2View {
        PostItemV2View {
            publisher_user_id: self.publisher_user_id@,
            canister_id: self.canister_id@,
            post_id: self.post_id,
            video_id: self.video_id@,
            is_nsfw: self.is_nsfw,
        }
    }
}

impl View for PostItemV3 {
    type V = PostItemV3View;

    open spec fn view(&self) -> PostItemV3View {
        PostItemV3View {
            publisher_user_id: self.publisher_user_id@,
            canister_id: self.canister_id@,
            post_id: self.post_id@,
            video_id: self.video_id@,
            is_nsfw: self.is_nsfw,
        }
    }
}

impl View for MLFeedCacheHistoryItemV2 {
    type V = HistoryItemView<u64>;

    open spec fn view(&self) -> HistoryItemView<u64> {
        HistoryItemView {
            publisher_user_id: self.publisher_user_id@,
            canister_id: self.canister_id@,
            post_id: self.post_id,
            video_id: self.video_id@,
            item_type: self.item_type@,
            timestamp: self.timestamp,
            percent_watched_bits: self.percent_watched_bits,
        }
    }
}

impl View for MLFeedCacheHistoryItemV3 {
    type V = HistoryItemView<Seq<char>>;

    open spec fn view(&self) -> HistoryItemView<Seq<char>> {
        HistoryItemView {
            publisher_user_id: self.publisher_user_id@,
            canister_id: self.canister_id@,
            post_id: self.post_id@,
            video_id: self.video_id@,
            item_type: self.item_type@,
            timestamp: self.timestamp,
            percent_watched_bits: self.percent_watched_bits,
        }
    }
}

impl View for BufferItemV2 {
    type V = BufferItemView<u64>;

    open spec fn view(&self) -> BufferItemView<u64> {
        BufferItemView {
            publisher_user_id: self.publisher_user_id@,
            post_id: self.post_id,
            video_id: self.video_id@,
            item_type: self.item_type@,
            percent_watched_bits: self.percent_watched_bits,
            user_id: self.user_id@,
            timestamp: self.timestamp,
        }
    }
}

impl View for BufferItemV3 {
    type V = BufferItemView<Seq<char>>;

    open spec fn view(&self) -> BufferItemView<Seq<char>> {
        BufferItemView {
            publisher_user_id: self.publisher_user_id@,
            post_id: self.post_id@,
            video_id: self.video_id@,
            item_type: self.item_type@,
            percent_watched_bits: self.percent_watched_bits,
            user_id: self.user_id@,
            timestamp: self.timestamp,
        }
    }
}

} // verus!
