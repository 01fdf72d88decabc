//! Reading cache entries written by older writers, whose post id may be a
//! number or a decimal string.
//!
//! A stored entry is a JSON object. Its members, as the readers look at
//! them, are given as `JsonField`s; an entry whose post id is neither a
//! number nor a decimal string that fits in 64 bits is skipped.

use vstd::prelude::*;
use std::time::{Duration, SystemTime};
use crate::decimal::{decimal, parse_u64, parse_u64_spec, u64_to_decimal};
use crate::feed_items::{
    BufferItemV2, BufferItemView, HistoryItemView, MLFeedCacheHistoryItem, MLFeedCacheHistoryItemV2, PostItem,
    PostItemV2View,
};
use crate::post::PostItemV2;
use crate::vote::{duration_from_secs, duration_of_secs};

verus! {

broadcast use vstd::string::group_string_axioms;

/// A member of a stored JSON object.
#[derive(Clone, Debug)]
pub enum JsonField {
    /// The object has no such member.
    Absent,
    /// A number that is a whole number from 0 to `u64::MAX`.
    Unsigned(u64),
    /// A string.
    Text(String),
    /// A boolean.
    Flag(bool),
    /// Any other value: another number, null, an array or an object.
    Other,
}

/// Abstract value of a `JsonField`.
pub enum JsonFieldView {
    Absent,
    Unsigned(u64),
    Text(Seq<char>),
    Flag(bool),
    Other,
}

impl View for JsonField {
    type V = JsonFieldView;

    open spec fn view(&self) -> JsonFieldView {
        match self {
            JsonField::Absent => JsonFieldView::Absent,
            JsonField::Unsigned(n) => JsonFieldView::Unsigned(*n),
            JsonField::Text(s) => JsonFieldView::Text(s@),
            JsonField::Flag(b) => JsonFieldView::Flag(*b),
            JsonField::Other => JsonFieldView::Other,
        }
    }
}

/// The post id a member gives: a number as it is, a string parsed as a
/// `u64`; nothing for anything else or a string that does not parse.
pub open spec fn post_id_of(f: JsonFieldView) -> Option<u64> {
    match f {
        JsonFieldView::Unsigned(n) => Some(n),
        JsonFieldView::Text(s) => parse_u64_spec(s),
        _ => None,
    }
}

/// The text of a string member, and the empty text for anything else.
pub open spec fn text_of(f: JsonFieldView) -> Seq<char> {
    match f {
        JsonFieldView::Text(s) => s,
        _ => Seq::empty(),
    }
}

/// The value of a boolean member, and `false` for anything else.
pub open spec fn flag_of(f: JsonFieldView) -> bool {
    match f {
        JsonFieldView::Flag(b) => b,
        _ => false,
    }
}

/// The post id of a member: a number as it is, a string parsed as a `u64`.
pub fn resolve_post_id(f: &JsonField) -> (r: Option<u64>)
    ensures
        r == post_id_of(f@),
{
    match f {
        JsonField::Unsigned(n) => Some(*n),
        JsonField::Text(s) => parse_u64(s.as_str()),
        _ => None,
    }
}

/// The text of a string member, or the empty text.
pub fn text_or_default(f: &JsonField) -> (r: String)
    ensures
        r@ == text_of(f@),
{
    match f {
        JsonField::Text(s) => s.clone(),
        _ => String::new(),
    }
}

/// The value of a boolean member, or `false`.
pub fn flag_or_default(f: &JsonField) -> (r: bool)
    ensures
        r == flag_of(f@),
{
    match f {
        JsonField::Flag(b) => *b,
        _ => false,
    }
}

/// The members of a stored post entry.
pub struct PostItemFields {
    pub post_id: JsonField,
    pub publisher_user_id: JsonField,
    pub canister_id: JsonField,
    pub video_id: JsonField,
    pub is_nsfw: JsonField,
}

/// The post entry the members give, with post id `id`.
pub open spec fn post_item_v2_of(f: PostItemFields, id: u64) -> PostItemV2View {
    PostItemV2View {
        publisher_user_id: text_of(f.publisher_user_id@),
        canister_id: text_of(f.canister_id@),
        post_id: id,
        video_id: text_of(f.video_id@),
        is_nsfw: flag_of(f.is_nsfw@),
    }
}

/// Rebuilds a post entry from its members: skipped (`None`) where the post
/// id does not resolve, with empty texts and `false` for missing members.
pub fn post_item_v2_from_fields(f: &PostItemFields) -> (r: Option<PostItemV2>)
    ensures
        match post_id_of(f.post_id@) {
            None => r is None,
            Some(id) => r matches Some(p) && p@ == post_item_v2_of(*f, id),
        },
{
    match resolve_post_id(&f.post_id) {
        None => None,
        Some(post_id) => Some(PostItemV2 {
            publisher_user_id: text_or_default(&f.publisher_user_id),
            canister_id: text_or_default(&f.canister_id),
            post_id,
            video_id: text_or_default(&f.video_id),
            is_nsfw: flag_or_default(&f.is_nsfw),
        }),
    }
}

/// The members of a stored history entry, with the time it carries (see
/// `stored_time`) and its watched share.
pub struct HistoryItemFields {
    pub post_id: JsonField,
    pub publisher_user_id: JsonField,
    pub canister_id: JsonField,
    pub video_id: JsonField,
    pub item_type: JsonField,
    pub timestamp: SystemTime,
    /// Bit pattern of the `f32` watched share (`0.0` where missing).
    pub percent_watched_bits: u32,
}

/// The history entry the members give, with post id `id`.
pub open spec fn history_item_v2_of(f: HistoryItemFields, id: u64) -> HistoryItemView<u64> {
    HistoryItemView {
        publisher_user_id: text_of(f.publisher_user_id@),
        canister_id: text_of(f.canister_id@),
        post_id: id,
        video_id: text_of(f.video_id@),
        item_type: text_of(f.item_type@),
        timestamp: f.timestamp,
        percent_watched_bits: f.percent_watched_bits,
    }
}

/// Rebuilds a history entry from its members: skipped where the post id
/// does not resolve, with empty texts for missing members.
pub fn history_item_v2_from_fields(f: &HistoryItemFields) -> (r: Option<MLFeedCacheHistoryItemV2>)
    ensures
        match post_id_of(f.post_id@) {
            None => r is None,
            Some(id) => r matches Some(h) && h@ == history_item_v2_of(*f, id),
        },
{
    match resolve_post_id(&f.post_id) {
        None => None,
        Some(post_id) => Some(MLFeedCacheHistoryItemV2 {
            publisher_user_id: text_or_default(&f.publisher_user_id),
            canister_id: text_or_default(&f.canister_id),
            post_id,
            video_id: text_or_default(&f.video_id),
            item_type: text_or_default(&f.item_type),
            timestamp: f.timestamp,
            percent_watched_bits: f.percent_watched_bits,
        }),
    }
}

/// The members of a stored hot-or-not buffer entry; the time and watched
/// share are read by the caller as for history entries.
pub struct BufferItemFields {
    pub post_id: JsonField,
    pub publisher_user_id: JsonField,
    pub video_id: JsonField,
    pub item_type: JsonField,
    pub user_id: JsonField,
    /// Bit pattern of the `f32` watched share (`0.0` where missing).
    pub percent_watched_bits: u32,
    pub timestamp: SystemTime,
}

/// The buffer entry the members give, with post id `id`.
pub open spec fn buffer_item_v2_of(f: BufferItemFields, id: u64) -> BufferItemView<u64> {
    BufferItemView {
        publisher_user_id: text_of(f.publisher_user_id@),
        post_id: id,
        video_id: text_of(f.video_id@),
        item_type: text_of(f.item_type@),
        percent_watched_bits: f.percent_watched_bits,
        user_id: text_of(f.user_id@),
        timestamp: f.timestamp,
    }
}

/// Rebuilds a buffer entry from its members: skipped where the post id
/// does not resolve, with empty texts for missing members.
pub fn buffer_item_v2_from_fields(f: &BufferItemFields) -> (r: Option<BufferItemV2>)
    ensures
        match post_id_of(f.post_id@) {
            None => r is None,
            Some(id) => r matches Some(b) && b@ == buffer_item_v2_of(*f, id),
        },
{
    match resolve_post_id(&f.post_id) {
        None => None,
        Some(post_id) => Some(BufferItemV2 {
            publisher_user_id: text_or_default(&f.publisher_user_id),
            post_id,
            video_id: text_or_default(&f.video_id),
            item_type: text_or_default(&f.item_type),
            percent_watched_bits: f.percent_watched_bits,
            user_id: text_or_default(&f.user_id),
            timestamp: f.timestamp,
        }),
    }
}

/// The members of a stored post entry of the first layout; the NSFW
/// probability is read by the caller.
pub struct LegacyPostFields {
    pub post_id: JsonField,
    pub canister_id: JsonField,
    pub video_id: JsonField,
    /// Bit pattern of the `f32` NSFW probability (`0.0` where missing).
    pub nsfw_probability_bits: u32,
}

/// Rebuilds a post entry of the first layout: skipped where the post id
/// does not resolve, with empty texts for missing members.
pub fn post_item_v1_from_fields(f: &LegacyPostFields) -> (r: Option<PostItem>)
    ensures
        match post_id_of(f.post_id@) {
            None => r is None,
            Some(id) => r matches Some(p) && {
                &&& p.post_id == id
                &&& p.canister_id@ == text_of(f.canister_id@)
                &&& p.video_id@ == text_of(f.video_id@)
                &&& p.nsfw_probability_bits == f.nsfw_probability_bits
            },
        },
{
    match resolve_post_id(&f.post_id) {
        None => None,
        Some(post_id) => Some(PostItem {
            canister_id: text_or_default(&f.canister_id),
            post_id,
            video_id: text_or_default(&f.video_id),
            nsfw_probability_bits: f.nsfw_probability_bits,
        }),
    }
}

/// The members of a stored history entry of the first layout; the time,
/// NSFW probability and watched share are read by the caller.
pub struct LegacyHistoryFields {
    pub post_id: JsonField,
    pub canister_id: JsonField,
    pub video_id: JsonField,
    pub item_type: JsonField,
    /// Bit pattern of the `f32` NSFW probability (`0.0` where missing).
    pub nsfw_probability_bits: u32,
    pub timestamp: SystemTime,
    /// Bit pattern of the `f32` watched share (`0.0` where missing).
    pub percent_watched_bits: u32,
}

/// Rebuilds a history entry of the first layout: skipped where the post id
/// does not resolve, with empty texts for missing members.
pub fn history_item_v1_from_fields(f: &LegacyHistoryFields) -> (r: Option<MLFeedCacheHistoryItem>)
    ensures
        match post_id_of(f.post_id@) {
            None => r is None,
            Some(id) => r matches Some(h) && {
                &&& h.post_id == id
                &&& h.canister_id@ == text_of(f.canister_id@)
                &&& h.video_id@ == text_of(f.video_id@)
                &&& h.item_type@ == text_of(f.item_type@)
                &&& h.nsfw_probability_bits == f.nsfw_probability_bits
                &&& h.timestamp == f.timestamp
                &&& h.percent_watched_bits == f.percent_watched_bits
            },
        },
{
    match resolve_post_id(&f.post_id) {
        None => None,
        Some(post_id) => Some(MLFeedCacheHistoryItem {
            canister_id: text_or_default(&f.canister_id),
            post_id,
            video_id: text_or_default(&f.video_id),
            nsfw_probability_bits: f.nsfw_probability_bits,
            item_type: text_or_default(&f.item_type),
            timestamp: f.timestamp,
            percent_watched_bits: f.percent_watched_bits,
        }),
    }
}

/// A post id as newer writers store it: a string or a number.
#[derive(Clone, Debug)]
pub enum StringOrNumber {
    String(String),
    Number(u64),
}

/// The textual post id of a stored post id: a string as it is, a number in decimal.
pub fn string_or_number(v: StringOrNumber) -> (r: String)
    ensures
        r@ == match v {
            StringOrNumber::String(s) => s@,
            StringOrNumber::Number(n) => decimal(n as nat),
        },
{
    match v {
        StringOrNumber::String(s) => s,
        StringOrNumber::Number(n) => u64_to_decimal(n),
    }
}

/// A post id written as a number or as its decimal string reads back the same.
pub proof fn lemma_post_id_number_or_text(n: u64)
    ensures
        post_id_of(JsonFieldView::Unsigned(n)) == Some(n),
        post_id_of(JsonFieldView::Text(decimal(n as nat))) == Some(n),
{
    crate::decimal::lemma_parse_decimal(n);
}

/// The member `key` of the JSON document `bytes`, as `serde_json` reads it:
/// `None` where the bytes are no JSON document, `Absent` where the document
/// is no object or has no such member.
pub uninterp spec fn json_member_of(bytes: Seq<u8>, key: Seq<char>) -> Option<JsonFieldView>;

/// `serde_json::from_slice::<Value>` and `Value::get`: the member `key` of
/// the JSON document `bytes`, or `None` where the bytes do not parse.
#[verifier::external_body]
fn json_member(bytes: &[u8], key: &str) -> (r: Option<JsonField>)
    ensures
        match r {
            Some(f) => json_member_of(bytes@, key@) == Some(f@),
            None => json_member_of(bytes@, key@) is None,
        },
{
    match serde_json::from_slice::<serde_json::Value>(bytes) {
        Err(_) => None,
        Ok(json) => Some(match json.get(key) {
            None => JsonField::Absent,
            Some(serde_json::Value::String(s)) => JsonField::Text(s.clone()),
            Some(serde_json::Value::Bool(b)) => JsonField::Flag(*b),
            Some(serde_json::Value::Number(n)) => match n.as_u64() {
                Some(u) => JsonField::Unsigned(u),
                None => JsonField::Other,
            },
            Some(_) => JsonField::Other,
        }),
    }
}

/// The member `key` of the document `bytes`, taken as absent where the
/// bytes do not parse.
pub open spec fn member_field(bytes: Seq<u8>, key: Seq<char>) -> JsonFieldView {
    match json_member_of(bytes, key) {
        Some(f) => f,
        None => JsonFieldView::Absent,
    }
}

fn field(bytes: &[u8], key: &str) -> (r: JsonField)
    ensures
        r@ == member_field(bytes@, key@),
{
    match json_member(bytes, key) {
        Some(f) => f,
        None => JsonField::Absent,
    }
}

/// The number member `inner` of the object member `outer` of the JSON
/// document `bytes`, as `serde_json` reads it: `None` where the bytes do not
/// parse, where `outer` is missing or no object, or where `inner` is missing
/// or no whole number from 0 to `u64::MAX`.
pub uninterp spec fn json_nested_u64_of(bytes: Seq<u8>, outer: Seq<char>, inner: Seq<char>) -> Option<u64>;

/// `serde_json::from_slice::<Value>`, `Value::get` twice and `Value::as_u64`:
/// the number member `inner` of the object member `outer` of `bytes`.
#[verifier::external_body]
fn json_nested_u64(bytes: &[u8], outer: &str, inner: &str) -> (r: Option<u64>)
    ensures
        r == json_nested_u64_of(bytes@, outer@, inner@),
{
    let json = serde_json::from_slice::<serde_json::Value>(bytes).ok()?;
    json.get(outer)?.get(inner)?.as_u64()
}

/// What `UNIX_EPOCH.checked_add(d)` gives: the instant `d` after the Unix
/// epoch, or `None` where the platform's `SystemTime` cannot hold it. Which
/// instants it can hold is fixed by the target the crate is built for.
pub uninterp spec fn epoch_checked_add_of(d: Duration) -> Option<SystemTime>;

/// `SystemTime::checked_add` on `UNIX_EPOCH`.
#[verifier::external_body]
fn epoch_checked_add(d: Duration) -> (r: Option<SystemTime>)
    ensures
        r == epoch_checked_add_of(d),
{
    std::time::UNIX_EPOCH.checked_add(d)
}

/// The time a stored entry carries: `timestamp.secs_since_epoch` seconds
/// after the Unix epoch, or `now` where that member is missing or no whole
/// number (or names an instant this platform's clock type cannot hold).
pub open spec fn stored_time(bytes: Seq<u8>, now: SystemTime) -> SystemTime {
    match json_nested_u64_of(bytes, "timestamp"@, "secs_since_epoch"@) {
        Some(secs) => match epoch_checked_add_of(duration_of_secs(secs)) {
            Some(t) => t,
            None => now,
        },
        None => now,
    }
}

/// The time the stored entry `bytes` carries, `now` standing for the current time.
pub fn stored_time_from_bytes(bytes: &[u8], now: SystemTime) -> (t: SystemTime)
    ensures
        t == stored_time(bytes@, now),
{
    match json_nested_u64(bytes, "timestamp", "secs_since_epoch") {
        Some(secs) => match epoch_checked_add(duration_from_secs(secs)) {
            Some(t) => t,
            None => now,
        },
        None => now,
    }
}

/// What a stored entry reads as: no JSON document (the caller then reads it
/// in the standard way), an entry skipped for its post id, or an item.
#[derive(Clone, Debug)]
pub enum StoredEntry<T> {
    NotJson,
    Skipped,
    Item(T),
}

/// The post id of the document `bytes`, where it is a JSON document and its
/// post id resolves.
pub fn post_id_from_bytes(bytes: &[u8]) -> (r: Option<u64>)
    ensures
        match json_member_of(bytes@, "post_id"@) {
            Some(f) => r == post_id_of(f),
            None => r is None,
        },
{
    match json_member(bytes, "post_id") {
        Some(f) => resolve_post_id(&f),
        None => None,
    }
}

/// `r` is what a stored entry `bytes` reads as, given `item`, the item that
/// its members give with post id `id`.
pub open spec fn reads_as<T>(bytes: Seq<u8>, r: StoredEntry<T>, item: spec_fn(u64, T) -> bool) -> bool {
    match json_member_of(bytes, "post_id"@) {
        None => r is NotJson,
        Some(pid) => match post_id_of(pid) {
            None => r is Skipped,
            Some(id) => r matches StoredEntry::Item(t) && item(id, t),
        },
    }
}

/// The post entry that the members of `bytes` give, with post id `id`.
pub open spec fn post_item_v2_of_bytes(bytes: Seq<u8>, id: u64) -> PostItemV2View {
    PostItemV2View {
        publisher_user_id: text_of(member_field(bytes, "publisher_user_id"@)),
        canister_id: text_of(member_field(bytes, "canister_id"@)),
        post_id: id,
        video_id: text_of(member_field(bytes, "video_id"@)),
        is_nsfw: flag_of(member_field(bytes, "is_nsfw"@)),
    }
}

/// Reads a stored post entry whose post id may be a number or a decimal string.
pub fn post_item_v2_from_bytes(bytes: &[u8]) -> (r: StoredEntry<PostItemV2>)
    ensures
        reads_as(bytes@, r, |id: u64, p: PostItemV2| p@ == post_item_v2_of_bytes(bytes@, id)),
{
    let post_id = match json_member(bytes, "post_id") {
        Some(f) => f,
        None => return StoredEntry::NotJson,
    };
    let fields = PostItemFields {
        post_id,
        publisher_user_id: field(bytes, "publisher_user_id"),
        canister_id: field(bytes, "canister_id"),
        video_id: field(bytes, "video_id"),
        is_nsfw: field(bytes, "is_nsfw"),
    };
    match post_item_v2_from_fields(&fields) {
        Some(p) => StoredEntry::Item(p),
        None => StoredEntry::Skipped,
    }
}

/// The history entry that the members of `bytes` give, with post id `id`,
/// time `timestamp` and watched share `percent_watched_bits`.
pub open spec fn history_item_v2_of_bytes(bytes: Seq<u8>, id: u64, timestamp: SystemTime, percent_watched_bits: u32) -> HistoryItemView<u64> {
    HistoryItemView {
        publisher_user_id: text_of(member_field(bytes, "publisher_user_id"@)),
        canister_id: text_of(member_field(bytes, "canister_id"@)),
        post_id: id,
        video_id: text_of(member_field(bytes, "video_id"@)),
        item_type: text_of(member_field(bytes, "item_type"@)),
        timestamp,
        percent_watched_bits,
    }
}

/// Reads a stored history entry, `now` standing for the current time; its
/// watched share is read by the caller (it is floating point).
pub fn history_item_v2_from_bytes(bytes: &[u8], now: SystemTime, percent_watched_bits: u32) -> (r: StoredEntry<MLFeedCacheHistoryItemV2>)
    ensures
        reads_as(bytes@, r, |id: u64, h: MLFeedCacheHistoryItemV2|
            h@ == history_item_v2_of_bytes(bytes@, id, stored_time(bytes@, now), percent_watched_bits)),
{
    let post_id = match json_member(bytes, "post_id") {
        Some(f) => f,
        None => return StoredEntry::NotJson,
    };
    let timestamp = stored_time_from_bytes(bytes, now);
    let fields = HistoryItemFields {
        post_id,
        publisher_user_id: field(bytes, "publisher_user_id"),
        canister_id: field(bytes, "canister_id"),
        video_id: field(bytes, "video_id"),
        item_type: field(bytes, "item_type"),
        timestamp,
        percent_watched_bits,
    };
    match history_item_v2_from_fields(&fields) {
        Some(h) => StoredEntry::Item(h),
        None => StoredEntry::Skipped,
    }
}

/// The buffer entry that the members of `bytes` give, with post id `id`.
pub open spec fn buffer_item_v2_of_bytes(bytes: Seq<u8>, id: u64, timestamp: SystemTime, percent_watched_bits: u32) -> BufferItemView<u64> {
    BufferItemView {
        publisher_user_id: text_of(member_field(bytes, "publisher_user_id"@)),
        post_id: id,
        video_id: text_of(member_field(bytes, "video_id"@)),
        item_type: text_of(member_field(bytes, "item_type"@)),
        percent_watched_bits,
        user_id: text_of(member_field(bytes, "user_id"@)),
        timestamp,
    }
}

/// Reads a stored buffer entry, `now` standing for the current time; its
/// watched share is read by the caller.
pub fn buffer_item_v2_from_bytes(bytes: &[u8], now: SystemTime, percent_watched_bits: u32) -> (r: StoredEntry<BufferItemV2>)
    ensures
        reads_as(bytes@, r, |id: u64, b: BufferItemV2|
            b@ == buffer_item_v2_of_bytes(bytes@, id, stored_time(bytes@, now), percent_watched_bits)),
{
    let post_id = match json_member(bytes, "post_id") {
        Some(f) => f,
        None => return StoredEntry::NotJson,
    };
    let timestamp = stored_time_from_bytes(bytes, now);
    let fields = BufferItemFields {
        post_id,
        publisher_user_id: field(bytes, "publisher_user_id"),
        video_id: field(bytes, "video_id"),
        item_type: field(bytes, "item_type"),
        user_id: field(bytes, "user_id"),
        percent_watched_bits,
        timestamp,
    };
    match buffer_item_v2_from_fields(&fields) {
        Some(b) => StoredEntry::Item(b),
        None => StoredEntry::Skipped,
    }
}

/// Reads a stored post entry of the first layout; its NSFW probability is
/// read by the caller.
pub fn post_item_v1_from_bytes(bytes: &[u8], nsfw_probability_bits: u32) -> (r: StoredEntry<PostItem>)
    ensures
        reads_as(bytes@, r, |id: u64, p: PostItem| {
            &&& p.post_id == id
            &&& p.canister_id@ == text_of(member_field(bytes@, "canister_id"@))
            &&& p.video_id@ == text_of(member_field(bytes@, "video_id"@))
            &&& p.nsfw_probability_bits == nsfw_probability_bits
        }),
{
    let post_id = match json_member(bytes, "post_id") {
        Some(f) => f,
        None => return StoredEntry::NotJson,
    };
    let fields = LegacyPostFields {
        post_id,
        canister_id: field(bytes, "canister_id"),
        video_id: field(bytes, "video_id"),
        nsfw_probability_bits,
    };
    match post_item_v1_from_fields(&fields) {
        Some(p) => StoredEntry::Item(p),
        None => StoredEntry::Skipped,
    }
}

/// Reads a stored history entry of the first layout, `now` standing for the
/// current time; its NSFW probability and watched share are read by the caller.
pub fn history_item_v1_from_bytes(
    bytes: &[u8],
    now: SystemTime,
    nsfw_probability_bits: u32,
    percent_watched_bits: u32,
) -> (r: StoredEntry<MLFeedCacheHistoryItem>)
    ensures
        reads_as(bytes@, r, |id: u64, h: MLFeedCacheHistoryItem| {
            &&& h.post_id == id
            &&& h.canister_id@ == text_of(member_field(bytes@, "canister_id"@))
            &&& h.video_id@ == text_of(member_field(bytes@, "video_id"@))
            &&& h.item_type@ == text_of(member_field(bytes@, "item_type"@))
            &&& h.nsfw_probability_bits == nsfw_probability_bits
            &&& h.timestamp == stored_time(bytes@, now)
            &&& h.percent_watched_bits == percent_watched_bits
        }),
{
    let post_id = match json_member(bytes, "post_id") {
        Some(f) => f,
        None => return StoredEntry::NotJson,
    };
    let timestamp = stored_time_from_bytes(bytes, now);
    let fields = LegacyHistoryFields {
        post_id,
        canister_id: field(bytes, "canister_id"),
        video_id: field(bytes, "video_id"),
        item_type: field(bytes, "item_type"),
        nsfw_probability_bits,
        timestamp,
        percent_watched_bits,
    };
    match history_item_v1_from_fields(&fields) {
        Some(h) => StoredEntry::Item(h),
        None => StoredEntry::Skipped,
    }
}

} // verus!
