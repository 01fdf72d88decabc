//! The ML feed cache: conversions between the v2 and v3 item forms, the
//! trimming rule of its bounded sorted sets, and the key names it derives.
//!
//! The connection pools are held in the cache state as a type parameter;
//! every operation here is pure.

use vstd::prelude::*;
use vstd::string::*;
use crate::decimal::{decimal, parse_u64, parse_u64_spec, u64_to_decimal, lemma_parse_decimal};
use crate::feed_consts;
use crate::feed_items::{
    BufferItemV2, BufferItemV3, BufferItemView, HistoryItemView, MLFeedCacheHistoryItemV2,
    MLFeedCacheHistoryItemV3, PostItemV2View, PostItemV3View,
};
use crate::post::{PostItemV2, PostItemV3};

verus! {

broadcast use vstd::string::group_string_axioms;

/// State of the feed cache: the persistent store and the in-memory store.
pub struct MLFeedCacheState<Pool> {
    pub redis_pool: Pool,
    pub memory_store_pool: Pool,
}

/// The v3 form of a v2 post item: the post id becomes its decimal text.
pub open spec fn post_v2_to_v3(v: PostItemV2View) -> PostItemV3View {
    PostItemV3View {
        publisher_user_id: v.publisher_user_id,
        canister_id: v.canister_id,
        post_id: decimal(v.post_id as nat),
        video_id: v.video_id,
        is_nsfw: v.is_nsfw,
    }
}

/// The v2 form of a v3 post item, where its post id is a `u64` in decimal.
pub open spec fn post_v3_to_v2(v: PostItemV3View) -> Option<PostItemV2View> {
    match parse_u64_spec(v.post_id) {
        Some(n) => Some(
            PostItemV2View {
                publisher_user_id: v.publisher_user_id,
                canister_id: v.canister_id,
                post_id: n,
                video_id: v.video_id,
                is_nsfw: v.is_nsfw,
            },
        ),
        None => None,
    }
}

/// The v3 form of a v2 history entry.
pub open spec fn history_v2_to_v3(v: HistoryItemView<u64>) -> HistoryItemView<Seq<char>> {
    HistoryItemView {
        publisher_user_id: v.publisher_user_id,
        canister_id: v.canister_id,
        post_id: decimal(v.post_id as nat),
        video_id: v.video_id,
        item_type: v.item_type,
        timestamp: v.timestamp,
        percent_watched_bits: v.percent_watched_bits,
    }
}

/// The v2 form of a v3 history entry, where its post id is a `u64` in decimal.
pub open spec fn history_v3_to_v2(v: HistoryItemView<Seq<char>>) -> Option<HistoryItemView<u64>> {
    match parse_u64_spec(v.post_id) {
        Some(n) => Some(
            HistoryItemView {
                publisher_user_id: v.publisher_user_id,
                canister_id: v.canister_id,
                post_id: n,
                video_id: v.video_id,
                item_type: v.item_type,
                timestamp: v.timestamp,
                percent_watched_bits: v.percent_watched_bits,
            },
        ),
        None => None,
    }
}

/// The v3 form of a v2 buffer entry.
pub open spec fn buffer_v2_to_v3(v: BufferItemView<u64>) -> BufferItemView<Seq<char>> {
    BufferItemView {
        publisher_user_id: v.publisher_user_id,
        post_id: decimal(v.post_id as nat),
        video_id: v.video_id,
        item_type: v.item_type,
        percent_watched_bits: v.percent_watched_bits,
        user_id: v.user_id,
        timestamp: v.timestamp,
    }
}

/// The v2 form of a v3 buffer entry, where its post id is a `u64` in decimal.
pub open spec fn buffer_v3_to_v2(v: BufferItemView<Seq<char>>) -> Option<BufferItemView<u64>> {
    match parse_u64_spec(v.post_id) {
        Some(n) => Some(
            BufferItemView {
                publisher_user_id: v.publisher_user_id,
                post_id: n,
                video_id: v.video_id,
                item_type: v.item_type,
                percent_watched_bits: v.percent_watched_bits,
                user_id: v.user_id,
                timestamp: v.timestamp,
            },
        ),
        None => None,
    }
}

/// The highest rank to remove from a sorted set of `num_items` members so that
/// `max_len` members remain, or `None` when it holds no more than `max_len`.
pub open spec fn trim_end_rank(num_items: u64, max_len: u64) -> Option<u64> {
    if num_items > max_len {
        Some((num_items - max_len - 1) as u64)
    } else {
        None
    }
}

/// The key suffixes of a user's caches (v1 keys), in deletion order.
pub open spec fn user_cache_suffixes() -> Seq<Seq<char>> {
    seq![
        feed_consts::USER_WATCH_HISTORY_CLEAN_SUFFIX@,
        feed_consts::USER_SUCCESS_HISTORY_CLEAN_SUFFIX@,
        feed_consts::USER_WATCH_HISTORY_NSFW_SUFFIX@,
        feed_consts::USER_SUCCESS_HISTORY_NSFW_SUFFIX@,
        feed_consts::USER_WATCH_HISTORY_PLAIN_POST_ITEM_SUFFIX@,
        feed_consts::USER_LIKE_HISTORY_PLAIN_POST_ITEM_SUFFIX@,
        feed_consts::USER_CACHE_CLEAN_SUFFIX@,
        feed_consts::USER_CACHE_NSFW_SUFFIX@,
        feed_consts::USER_CACHE_MIXED_SUFFIX@,
    ]
}

/// The key suffixes of a user's caches (v2 and v3 keys), in deletion order.
pub open spec fn user_cache_suffixes_v2() -> Seq<Seq<char>> {
    seq![
        feed_consts::USER_WATCH_HISTORY_CLEAN_SUFFIX_V2@,
        feed_consts::USER_SUCCESS_HISTORY_CLEAN_SUFFIX_V2@,
        feed_consts::USER_WATCH_HISTORY_NSFW_SUFFIX_V2@,
        feed_consts::USER_SUCCESS_HISTORY_NSFW_SUFFIX_V2@,
        feed_consts::USER_WATCH_HISTORY_PLAIN_POST_ITEM_SUFFIX_V2@,
        feed_consts::USER_LIKE_HISTORY_PLAIN_POST_ITEM_SUFFIX_V2@,
        feed_consts::USER_CACHE_CLEAN_SUFFIX_V2@,
        feed_consts::USER_CACHE_NSFW_SUFFIX_V2@,
        feed_consts::USER_CACHE_MIXED_SUFFIX_V2@,
    ]
}

/// `keys` holds `base` followed by each suffix of `suffixes`, in order.
pub open spec fn keys_with_suffixes(keys: Seq<Seq<char>>, base: Seq<char>, suffixes: Seq<Seq<char>>) -> bool {
    &&& keys.len() == suffixes.len()
    &&& forall|i: int| 0 <= i < keys.len() ==> #[trigger] keys[i] == base + suffixes[i]
}

/// `key` with one suffix appended.
fn key_with_suffix(key: &str, suffix: &str) -> (r: String)
    ensures
        r@ == key@ + suffix@,
{
    let mut r = key.to_string();
    r.append(suffix);
    r
}

/// The prefix of `key` before its last `_`, or all of `key` when it holds none.
pub open spec fn before_last_underscore(key: Seq<char>) -> Seq<char> {
    if exists|i: int| 0 <= i < key.len() && key[i] == '_' {
        let i = choose|i: int|
            0 <= i < key.len() && key[i] == '_' && forall|j: int| i < j < key.len() ==> key[j] != '_';
        key.take(i)
    } else {
        key
    }
}

/// `needle` occurs in `hay` at some position.
pub open spec fn contains_text(hay: Seq<char>, needle: Seq<char>) -> bool {
    exists|i: int| 0 <= i && i + needle.len() <= hay.len() && #[trigger] hay.subrange(i, i + needle.len()) == needle
}

/// The views of a vector of strings.
pub open spec fn string_views(v: Seq<String>) -> Seq<Seq<char>> {
    v.map_values(|s: String| s@)
}

/// The highest rank to remove from a sorted set of `num_items` members so that
/// no more than `max_len` remain: the set is trimmed by removing ranks
/// `0..=end`, its lowest-scored members.
pub fn cache_trim_end_rank(num_items: u64, max_len: u64) -> (r: Option<u64>)
    ensures
        r == trim_end_rank(num_items, max_len),
{
    if num_items > max_len {
        Some(num_items - (max_len + 1))
    } else {
        None
    }
}

/// How many members to drop at random from a set of `size` members so that
/// `max_len` remain, or `None` when it holds no more than `max_len`.
pub open spec fn set_excess(size: u64, max_len: u64) -> Option<u64> {
    if size > max_len {
        Some((size - max_len) as u64)
    } else {
        None
    }
}

/// How many members to drop from the watched-videos set of `size` members.
pub fn watched_set_excess(size: u64, max_len: u64) -> (r: Option<u64>)
    ensures
        r == set_excess(size, max_len),
{
    if size > max_len {
        Some(size - max_len)
    } else {
        None
    }
}

/// `r` splits `0..len` into consecutive ranges, in order, of `size`
/// elements each but the last, which holds the rest (as `chunks(size)` does).
pub open spec fn is_chunking(r: Seq<(usize, usize)>, len: usize, size: usize) -> bool {
    &&& (r.len() == 0 <==> len == 0)
    &&& r.len() > 0 ==> r[0].0 == 0 && r.last().1 == len
    &&& forall|i: int| 0 <= i < r.len() ==> #[trigger] r[i].0 < r[i].1 && r[i].1 <= r[i].0 + size
    &&& forall|i: int| 0 <= i < r.len() - 1 ==> #[trigger] r[i].1 == r[i].0 + size && r[i].1 == r[i + 1].0
}

/// The ranges of the chunks of `size` elements that a batch of `len`
/// elements is written in.
pub fn chunk_ranges(len: usize, size: usize) -> (r: Vec<(usize, usize)>)
    requires
        size > 0,
    ensures
        is_chunking(r@, len, size),
{
    let mut r: Vec<(usize, usize)> = Vec::new();
    let mut start: usize = 0;
    while start < len
        invariant
            size > 0,
            start <= len,
            (r@.len() == 0 <==> start == 0),
            r@.len() > 0 ==> r@[0].0 == 0 && r@.last().1 == start,
            forall|i: int| 0 <= i < r@.len() ==> #[trigger] r@[i].0 < r@[i].1 && r@[i].1 <= r@[i].0 + size,
            forall|i: int| 0 <= i < r@.len() - 1 ==> #[trigger] r@[i].1 == r@[i].0 + size && r@[i].1 == r@[i + 1].0,
            r@.len() > 0 && start < len ==> r@.last().1 == r@.last().0 + size,
        decreases len - start,
    {
        let end: usize = if len - start > size { start + size } else { len };
        let ghost old_r = r@;
        r.push((start, end));
        proof {
            assert forall|i: int| 0 <= i < r@.len() - 1 implies #[trigger] r@[i].1 == r@[i].0 + size && r@[i].1 == r@[i + 1].0 by {
                if i < old_r.len() - 1 {
                    assert(r@[i] == old_r[i] && r@[i + 1] == old_r[i + 1]);
                } else {
                    assert(r@[i] == old_r.last());
                }
            }
        }
        start = end;
    }
    r
}

/// The key of the watched-videos set that goes with a history key: the
/// part of the key before its last `_`, and the clean or NSFW set suffix.
pub open spec fn watched_set_key_of(key: Seq<char>, nsfw: bool) -> Seq<char> {
    before_last_underscore(key) + if nsfw {
        feed_consts::USER_WATCHED_VIDEO_IDS_SET_NSFW_SUFFIX_V2@
    } else {
        feed_consts::USER_WATCHED_VIDEO_IDS_SET_CLEAN_SUFFIX_V2@
    }
}

/// The key of the watched-videos set that goes with the history key `key`.
pub fn watched_set_key(key: &str, nsfw: bool) -> (r: String)
    ensures
        r@ == watched_set_key_of(key@, nsfw),
{
    let user_id = watched_ids_user_id(key);
    let suffix = if nsfw {
        feed_consts::USER_WATCHED_VIDEO_IDS_SET_NSFW_SUFFIX_V2
    } else {
        feed_consts::USER_WATCHED_VIDEO_IDS_SET_CLEAN_SUFFIX_V2
    };
    key_with_suffix(user_id.as_str(), suffix)
}

/// Appends `suffix` to `key` and pushes the result.
fn push_key(keys: &mut Vec<String>, key: &str, suffix: &str)
    ensures
        string_views(final(keys)@) == string_views(old(keys)@).push(key@ + suffix@),
{
    let k = key_with_suffix(key, suffix);
    keys.push(k);
    proof {
        assert(string_views(keys@) =~= string_views(old(keys)@).push(key@ + suffix@));
    }
}

/// The keys of all of a user's caches (v1 keys), as deleted together.
pub fn user_cache_keys(key: &str) -> (r: Vec<String>)
    ensures
        keys_with_suffixes(string_views(r@), key@, user_cache_suffixes()),
{
    let mut keys: Vec<String> = Vec::new();
    push_key(&mut keys, key, feed_consts::USER_WATCH_HISTORY_CLEAN_SUFFIX);
    push_key(&mut keys, key, feed_consts::USER_SUCCESS_HISTORY_CLEAN_SUFFIX);
    push_key(&mut keys, key, feed_consts::USER_WATCH_HISTORY_NSFW_SUFFIX);
    push_key(&mut keys, key, feed_consts::USER_SUCCESS_HISTORY_NSFW_SUFFIX);
    push_key(&mut keys, key, feed_consts::USER_WATCH_HISTORY_PLAIN_POST_ITEM_SUFFIX);
    push_key(&mut keys, key, feed_consts::USER_LIKE_HISTORY_PLAIN_POST_ITEM_SUFFIX);
    push_key(&mut keys, key, feed_consts::USER_CACHE_CLEAN_SUFFIX);
    push_key(&mut keys, key, feed_consts::USER_CACHE_NSFW_SUFFIX);
    push_key(&mut keys, key, feed_consts::USER_CACHE_MIXED_SUFFIX);
    proof {
        let sv = string_views(keys@);
        let sfx = user_cache_suffixes();
        assert(sv.len() == 9);
        assert forall|i: int| 0 <= i < sv.len() implies #[trigger] sv[i] == key@ + sfx[i] by {
            assert(sv =~= seq![
                key@ + sfx[0], key@ + sfx[1], key@ + sfx[2], key@ + sfx[3], key@ + sfx[4],
                key@ + sfx[5], key@ + sfx[6], key@ + sfx[7], key@ + sfx[8],
            ]);
        }
    }
    keys
}

/// The keys of all of a user's caches (v2 and v3 keys), as deleted together.
pub fn user_cache_keys_v2(key: &str) -> (r: Vec<String>)
    ensures
        keys_with_suffixes(string_views(r@), key@, user_cache_suffixes_v2()),
{
    let mut keys: Vec<String> = Vec::new();
    push_key(&mut keys, key, feed_consts::USER_WATCH_HISTORY_CLEAN_SUFFIX_V2);
    push_key(&mut keys, key, feed_consts::USER_SUCCESS_HISTORY_CLEAN_SUFFIX_V2);
    push_key(&mut keys, key, feed_consts::USER_WATCH_HISTORY_NSFW_SUFFIX_V2);
    push_key(&mut keys, key, feed_consts::USER_SUCCESS_HISTORY_NSFW_SUFFIX_V2);
    push_key(&mut keys, key, feed_consts::USER_WATCH_HISTORY_PLAIN_POST_ITEM_SUFFIX_V2);
    push_key(&mut keys, key, feed_consts::USER_LIKE_HISTORY_PLAIN_POST_ITEM_SUFFIX_V2);
    push_key(&mut keys, key, feed_consts::USER_CACHE_CLEAN_SUFFIX_V2);
    push_key(&mut keys, key, feed_consts::USER_CACHE_NSFW_SUFFIX_V2);
    push_key(&mut keys, key, feed_consts::USER_CACHE_MIXED_SUFFIX_V2);
    proof {
        let sv = string_views(keys@);
        let sfx = user_cache_suffixes_v2();
        assert(sv.len() == 9);
        assert forall|i: int| 0 <= i < sv.len() implies #[trigger] sv[i] == key@ + sfx[i] by {
            assert(sv =~= seq![
                key@ + sfx[0], key@ + sfx[1], key@ + sfx[2], key@ + sfx[3], key@ + sfx[4],
                key@ + sfx[5], key@ + sfx[6], key@ + sfx[7], key@ + sfx[8],
            ]);
        }
    }
    keys
}

/// The user id of a per-user cache key: the part before the key's last `_`
/// (all of the key when it has none).
pub fn watched_ids_user_id(key: &str) -> (r: String)
    ensures
        r@ == before_last_underscore(key@),
{
    let n = key.unicode_len();
    let mut i: usize = n;
    while i > 0
        invariant
            i <= n,
            n == key@.len(),
            forall|j: int| i <= j < n ==> key@[j] != '_',
        decreases i,
    {
        if key.get_char(i - 1) == '_' {
            let ghost k = (i - 1) as int;
            proof {
                assert(0 <= k < key@.len() && key@[k] == '_');
                let c = choose|c: int|
                    0 <= c < key@.len() && key@[c] == '_' && forall|j: int| c < j < key@.len() ==> key@[j] != '_';
                if c < k {
                    assert(key@[k] != '_');
                } else if c > k {
                    assert(key@[c] != '_');
                }
            }
            return key.substring_char(0, i - 1).to_string();
        }
        i = i - 1;
    }
    key.to_string()
}

/// Whether `key` names an NSFW cache: it contains `_nsfw`.
pub fn is_nsfw_key(key: &str) -> (r: bool)
    ensures
        r == contains_text(key@, "_nsfw"@),
{
    proof {
        reveal_strlit("_nsfw");
    }
    let needle = "_nsfw";
    let n = key.unicode_len();
    if n < 5 {
        assert forall|i: int| 0 <= i && i + needle@.len() <= key@.len() implies
            #[trigger] key@.subrange(i, i + needle@.len()) != needle@ by {}
        return false;
    }
    let mut i: usize = 0;
    while i <= n - 5
        invariant
            n == key@.len(),
            n >= 5,
            i <= n - 4,
            needle@ == "_nsfw"@,
            needle@.len() == 5,
            forall|p: int| 0 <= p < i ==> #[trigger] key@.subrange(p, p + 5) != needle@,
        decreases n - i,
    {
        let sub = key.substring_char(i, i + 5);
        let found = sub.to_string() == needle.to_string();
        if found {
            assert(key@.subrange(i as int, i + 5) == needle@);
            return true;
        }
        i = i + 1;
    }
    assert forall|p: int| 0 <= p && p + needle@.len() <= key@.len() implies
        #[trigger] key@.subrange(p, p + needle@.len()) != needle@ by {
        assert(p < i);
    }
    false
}

/// Trimming by `trim_end_rank` leaves exactly `max_len` members of a set
/// that holds more than `max_len`, and leaves a smaller set untouched.
pub proof fn lemma_trim_leaves_max(num_items: u64, max_len: u64)
    ensures
        match trim_end_rank(num_items, max_len) {
            Some(end) => num_items > max_len && num_items - (end + 1) == max_len,
            None => num_items <= max_len,
        },
{
}

/// A v2 post item converted to v3 and back is the same item.
pub proof fn lemma_post_item_round_trip(v: PostItemV2View)
    ensures
        post_v3_to_v2(post_v2_to_v3(v)) == Some(v),
{
    lemma_parse_decimal(v.post_id);
}

/// A v3 post item whose post id is the decimal text of a `u64` converts to
/// v2 and back to the same item.
pub proof fn lemma_post_item_v3_round_trip(v: PostItemV3View, n: u64)
    requires
        v.post_id == decimal(n as nat),
    ensures
        post_v3_to_v2(v) matches Some(w) && post_v2_to_v3(w) == v,
{
    lemma_parse_decimal(n);
}

/// A v2 history entry converted to v3 and back is the same entry.
pub proof fn lemma_history_item_round_trip(v: HistoryItemView<u64>)
    ensures
        history_v3_to_v2(history_v2_to_v3(v)) == Some(v),
{
    lemma_parse_decimal(v.post_id);
}

/// A v2 buffer entry converted to v3 and back is the same entry.
pub proof fn lemma_buffer_item_round_trip(v: BufferItemView<u64>)
    ensures
        buffer_v3_to_v2(buffer_v2_to_v3(v)) == Some(v),
{
    lemma_parse_decimal(v.post_id);
}

impl<Pool> MLFeedCacheState<Pool> {
    /// Converts a v2 post item to v3, writing its post id in decimal.
    pub fn convert_post_item_v2_to_v3(item: &PostItemV2) -> (r: PostItemV3)
        ensures
            r@ == post_v2_to_v3(item@),
    {
        PostItemV3 {
            publisher_user_id: item.publisher_user_id.clone(),
            canister_id: item.canister_id.clone(),
            post_id: u64_to_decimal(item.post_id),
            video_id: item.video_id.clone(),
            is_nsfw: item.is_nsfw,
        }
    }

    /// Converts a v3 post item to v2; `None` when its post id is not a `u64`.
    pub fn try_convert_post_item_v3_to_v2(item: &PostItemV3) -> (r: Option<PostItemV2>)
        ensures
            match r {
                Some(v) => post_v3_to_v2(item@) == Some(v@),
                None => post_v3_to_v2(item@) is None,
            },
    {
        match parse_u64(item.post_id.as_str()) {
            Some(post_id) => Some(
                PostItemV2 {
                    publisher_user_id: item.publisher_user_id.clone(),
                    canister_id: item.canister_id.clone(),
                    post_id,
                    video_id: item.video_id.clone(),
                    is_nsfw: item.is_nsfw,
                },
            ),
            None => None,
        }
    }

    /// Converts a v2 history entry to v3, writing its post id in decimal.
    pub fn convert_history_item_v2_to_v3(item: &MLFeedCacheHistoryItemV2) -> (r: MLFeedCacheHistoryItemV3)
        ensures
            r@ == history_v2_to_v3(item@),
    {
        MLFeedCacheHistoryItemV3 {
            publisher_user_id: item.publisher_user_id.clone(),
            canister_id: item.canister_id.clone(),
            post_id: u64_to_decimal(item.post_id),
            video_id: item.video_id.clone(),
            item_type: item.item_type.clone(),
            timestamp: item.timestamp,
            percent_watched_bits: item.percent_watched_bits,
        }
    }

    /// Converts a v3 history entry to v2; `None` when its post id is not a `u64`.
    pub fn try_convert_history_item_v3_to_v2(item: &MLFeedCacheHistoryItemV3) -> (r: Option<MLFeedCacheHistoryItemV2>)
        ensures
            match r {
                Some(v) => history_v3_to_v2(item@) == Some(v@),
                None => history_v3_to_v2(item@) is None,
            },
    {
        match parse_u64(item.post_id.as_str()) {
            Some(post_id) => Some(
                MLFeedCacheHistoryItemV2 {
                    publisher_user_id: item.publisher_user_id.clone(),
                    canister_id: item.canister_id.clone(),
                    post_id,
                    video_id: item.video_id.clone(),
                    item_type: item.item_type.clone(),
                    timestamp: item.timestamp,
                    percent_watched_bits: item.percent_watched_bits,
                },
            ),
            None => None,
        }
    }

    /// Converts a v2 buffer entry to v3, writing its post id in decimal.
    pub fn convert_buffer_item_v2_to_v3(item: &BufferItemV2) -> (r: BufferItemV3)
        ensures
            r@ == buffer_v2_to_v3(item@),
    {
        BufferItemV3 {
            publisher_user_id: item.publisher_user_id.clone(),
            post_id: u64_to_decimal(item.post_id),
            video_id: item.video_id.clone(),
            item_type: item.item_type.clone(),
            percent_watched_bits: item.percent_watched_bits,
            user_id: item.user_id.clone(),
            timestamp: item.timestamp,
        }
    }

    /// Converts a v3 buffer entry to v2; `None` when its post id is not a `u64`.
    pub fn try_convert_buffer_item_v3_to_v2(item: &BufferItemV3) -> (r: Option<BufferItemV2>)
        ensures
            match r {
                Some(v) => buffer_v3_to_v2(item@) == Some(v@),
                None => buffer_v3_to_v2(item@) is None,
            },
    {
        match parse_u64(item.post_id.as_str()) {
            Some(post_id) => Some(
                BufferItemV2 {
                    publisher_user_id: item.publisher_user_id.clone(),
                    post_id,
                    video_id: item.video_id.clone(),
                    item_type: item.item_type.clone(),
                    percent_watched_bits: item.percent_watched_bits,
                    user_id: item.user_id.clone(),
                    timestamp: item.timestamp,
                },
            ),
            None => None,
        }
    }

    /// Parses a textual post id back to the numeric id of legacy systems.
    pub fn try_parse_legacy_post_id(post_id: &str) -> (r: Option<u64>)
        ensures
            r == parse_u64_spec(post_id@),
    {
        parse_u64(post_id)
    }
}

/// The watched-videos set of a history key is an NSFW key exactly when the
/// NSFW set was asked for: the key names the NSFW set with `_nsfw` and the
/// clean set without it (for a user id that holds no `_nsfw` itself).
pub proof fn lemma_watched_set_key_marks_nsfw(key: Seq<char>, nsfw: bool)
    requires
        !contains_text(before_last_underscore(key), "_nsfw"@),
    ensures
        contains_text(watched_set_key_of(key, nsfw), "_nsfw"@) <==> nsfw,
{
    reveal_strlit("_nsfw");
    reveal_strlit("_watched_video_ids_nsfw_v2");
    reveal_strlit("_watched_video_ids_clean_v2");
    let user = before_last_underscore(key);
    let needle = "_nsfw"@;
    let suffix = if nsfw {
        feed_consts::USER_WATCHED_VIDEO_IDS_SET_NSFW_SUFFIX_V2@
    } else {
        feed_consts::USER_WATCHED_VIDEO_IDS_SET_CLEAN_SUFFIX_V2@
    };
    let t = watched_set_key_of(key, nsfw);
    assert(t == user + suffix);
    let u: int = user.len() as int;
    if nsfw {
        assert(t.subrange(u + 18, u + 18 + needle.len()) =~= needle);
    } else {
        assert forall|i: int| 0 <= i && i + needle.len() <= t.len() implies #[trigger] t.subrange(i, i + needle.len())
            != needle by {
            if i + 5 <= u {
                assert(t.subrange(i, i + 5) =~= user.subrange(i, i + 5));
            } else if i < u {
                assert(t.subrange(i, i + 5)[u - i] == t[u]);
                assert(t[u] == '_');
            } else {
                let j = i - u;
                assert(t.subrange(i, i + 5) =~= suffix.subrange(j, j + 5));
                assert(suffix.subrange(j, j + 5)[1] != 'n' || suffix.subrange(j, j + 5)[0] != '_'
                    || suffix.subrange(j, j + 5)[2] != 's' || suffix.subrange(j, j + 5)[3] != 'f');
            }
        }
    }
}

} // verus!
