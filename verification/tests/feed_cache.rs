use std::hash::Hasher;
use std::time::SystemTime;

use yral_common::feed_cache::{
    cache_trim_end_rank, chunk_ranges, is_nsfw_key, user_cache_keys, user_cache_keys_v2, watched_ids_user_id,
    watched_set_excess, watched_set_key, MLFeedCacheState,
};
use yral_common::feed_consts::{MAX_WATCH_HISTORY_CACHE_LEN, USER_WATCH_HISTORY_CLEAN_SUFFIX_V2};
use yral_common::feed_items::{BufferItemV2, MLFeedCacheHistoryItemV2};
use yral_common::post::{PostItemV2, PostItemV3};

#[test]
fn test_v2_to_v3_conversion() {
    // Test PostItemV2 to PostItemV3 conversion
    let v2_item = PostItemV2 {
        publisher_user_id: "user1".to_string(),
        canister_id: "can1".to_string(),
        post_id: 12345u64,
        video_id: "vid1".to_string(),
        is_nsfw: false,
    };

    let v3_item = MLFeedCacheState::<()>::convert_post_item_v2_to_v3(&v2_item);
    assert_eq!(v3_item.post_id, "12345");
    assert_eq!(v3_item.publisher_user_id, v2_item.publisher_user_id);
    assert_eq!(v3_item.video_id, v2_item.video_id);

    // Test V3 to V2 conversion (should succeed for numeric strings)
    let result = MLFeedCacheState::<()>::try_convert_post_item_v3_to_v2(&v3_item);
    assert!(result.is_some());
    let v2_back = result.unwrap();
    assert_eq!(v2_back.post_id, 12345u64);

    // Test V3 to V2 conversion with non-numeric string (should fail)
    let v3_non_numeric = PostItemV3 {
        publisher_user_id: "user1".to_string(),
        canister_id: "can1".to_string(),
        post_id: "not-a-number".to_string(),
        video_id: "vid1".to_string(),
        is_nsfw: false,
    };

    let result = MLFeedCacheState::<()>::try_convert_post_item_v3_to_v2(&v3_non_numeric);
    assert!(result.is_none());
}

#[test]
fn test_history_item_conversions() {
    let v2_item = MLFeedCacheHistoryItemV2 {
        publisher_user_id: "pub1".to_string(),
        canister_id: "can1".to_string(),
        post_id: 999u64,
        video_id: "vid1".to_string(),
        item_type: "view".to_string(),
        timestamp: SystemTime::now(),
        percent_watched_bits: 0.5f32.to_bits(),
    };

    let v3_item = MLFeedCacheState::<()>::convert_history_item_v2_to_v3(&v2_item);
    assert_eq!(v3_item.post_id, "999");

    let v2_back = MLFeedCacheState::<()>::try_convert_history_item_v3_to_v2(&v3_item);
    assert!(v2_back.is_some());
    assert_eq!(v2_back.unwrap().post_id, 999u64);
}

#[test]
fn test_buffer_item_conversions() {
    let v2_item = BufferItemV2 {
        publisher_user_id: "pub1".to_string(),
        post_id: 777u64,
        video_id: "vid1".to_string(),
        item_type: "like".to_string(),
        percent_watched_bits: 1.0f32.to_bits(),
        user_id: "user1".to_string(),
        timestamp: SystemTime::now(),
    };

    let v3_item = MLFeedCacheState::<()>::convert_buffer_item_v2_to_v3(&v2_item);
    assert_eq!(v3_item.post_id, "777");

    let v2_back = MLFeedCacheState::<()>::try_convert_buffer_item_v3_to_v2(&v3_item);
    assert!(v2_back.is_some());
    assert_eq!(v2_back.unwrap().post_id, 777u64);
}

#[test]
fn test_legacy_post_id_parsing() {
    // Test valid numeric strings
    assert_eq!(MLFeedCacheState::<()>::try_parse_legacy_post_id("123"), Some(123u64));
    assert_eq!(MLFeedCacheState::<()>::try_parse_legacy_post_id("0"), Some(0u64));
    assert_eq!(MLFeedCacheState::<()>::try_parse_legacy_post_id("999999"), Some(999999u64));

    // Test invalid strings
    assert_eq!(MLFeedCacheState::<()>::try_parse_legacy_post_id("abc"), None);
    assert_eq!(MLFeedCacheState::<()>::try_parse_legacy_post_id("123-456"), None);
    assert_eq!(MLFeedCacheState::<()>::try_parse_legacy_post_id(""), None);
    assert_eq!(MLFeedCacheState::<()>::try_parse_legacy_post_id("12.34"), None);
}

#[test]
fn legacy_post_id_edges() {
    assert_eq!(MLFeedCacheState::<()>::try_parse_legacy_post_id("+7"), Some(7));
    assert_eq!(MLFeedCacheState::<()>::try_parse_legacy_post_id("+"), None);
    assert_eq!(MLFeedCacheState::<()>::try_parse_legacy_post_id("-7"), None);
    assert_eq!(MLFeedCacheState::<()>::try_parse_legacy_post_id("007"), Some(7));
    assert_eq!(
        MLFeedCacheState::<()>::try_parse_legacy_post_id("18446744073709551615"),
        Some(u64::MAX)
    );
    assert_eq!(MLFeedCacheState::<()>::try_parse_legacy_post_id("18446744073709551616"), None);
    assert_eq!(MLFeedCacheState::<()>::try_parse_legacy_post_id(" 1"), None);
}

#[test]
fn post_item_round_trip_keeps_every_field() {
    let v2 = PostItemV2 {
        publisher_user_id: "p".to_string(),
        canister_id: "c".to_string(),
        post_id: u64::MAX,
        video_id: "v".to_string(),
        is_nsfw: true,
    };
    let v3 = MLFeedCacheState::<()>::convert_post_item_v2_to_v3(&v2);
    assert_eq!(v3.post_id, "18446744073709551615");
    assert!(v3.is_nsfw);
    assert_eq!(v3.canister_id, "c");
    let back = MLFeedCacheState::<()>::try_convert_post_item_v3_to_v2(&v3).unwrap();
    assert_eq!(back.post_id, u64::MAX);
    assert_eq!(back.publisher_user_id, "p");
    assert_eq!(back.canister_id, "c");
    assert!(back.is_nsfw);
    assert!(back == v2);
}

#[test]
fn post_items_are_equal_by_video() {
    let a = PostItemV3 {
        publisher_user_id: "a".to_string(),
        canister_id: "a".to_string(),
        post_id: "1".to_string(),
        video_id: "same".to_string(),
        is_nsfw: false,
    };
    let mut b = a.clone();
    b.post_id = "2".to_string();
    b.is_nsfw = true;
    assert!(a == b);
    b.video_id = "other".to_string();
    assert!(a != b);
}

#[test]
fn trim_rank_leaves_the_limit() {
    assert_eq!(cache_trim_end_rank(10, 10), None);
    assert_eq!(cache_trim_end_rank(5, 10), None);
    assert_eq!(cache_trim_end_rank(11, 10), Some(0));
    assert_eq!(cache_trim_end_rank(10_500, MAX_WATCH_HISTORY_CACHE_LEN), Some(499));
}

#[test]
fn watched_set_excess_counts_the_overflow() {
    assert_eq!(watched_set_excess(10_000, 10_000), None);
    assert_eq!(watched_set_excess(10_003, 10_000), Some(3));
    assert_eq!(watched_set_excess(0, 10_000), None);
}

#[test]
fn chunks_cover_the_batch_in_order() {
    assert_eq!(chunk_ranges(0, 1000), vec![]);
    assert_eq!(chunk_ranges(5, 1000), vec![(0, 5)]);
    assert_eq!(chunk_ranges(1000, 1000), vec![(0, 1000)]);
    assert_eq!(chunk_ranges(2500, 1000), vec![(0, 1000), (1000, 2000), (2000, 2500)]);
    let items: Vec<u32> = (0..7).collect();
    let chunked: Vec<Vec<u32>> = chunk_ranges(items.len(), 3).iter().map(|(a, b)| items[*a..*b].to_vec()).collect();
    let expected: Vec<Vec<u32>> = items.chunks(3).map(|c| c.to_vec()).collect();
    assert_eq!(chunked, expected);
}

#[test]
fn user_id_is_the_key_before_its_last_underscore() {
    assert_eq!(watched_ids_user_id("abc_watch"), "abc");
    assert_eq!(watched_ids_user_id("a_b_c"), "a_b");
    assert_eq!(watched_ids_user_id("plain"), "plain");
    assert_eq!(watched_ids_user_id("_x"), "");
    assert_eq!(watched_ids_user_id(""), "");
    let key = format!("user1{}", USER_WATCH_HISTORY_CLEAN_SUFFIX_V2);
    assert_eq!(watched_ids_user_id(&key), "user1_watch_clean");
}

#[test]
fn nsfw_keys_contain_the_marker() {
    assert!(is_nsfw_key("u_watch_nsfw_v2"));
    assert!(is_nsfw_key("_nsfw"));
    assert!(!is_nsfw_key("u_watch_clean_v2"));
    assert!(!is_nsfw_key("_nsf"));
    assert!(!is_nsfw_key(""));
}

#[test]
fn watched_set_keys() {
    assert_eq!(watched_set_key("user1_watch_nsfw", true), "user1_watch_watched_video_ids_nsfw_v2");
    assert_eq!(watched_set_key("user1_plain", false), "user1_watched_video_ids_clean_v2");
}

#[test]
fn user_cache_key_lists() {
    let keys = user_cache_keys("u");
    assert_eq!(
        keys,
        vec![
            "u_watch_clean",
            "u_success_clean",
            "u_watch_nsfw",
            "u_success_nsfw",
            "u_watch_plain_post_item",
            "u_like_plain_post_item",
            "u_cache_clean",
            "u_cache_nsfw",
            "u_cache_mixed",
        ]
    );
    let keys = user_cache_keys_v2("u");
    assert_eq!(keys.len(), 9);
    assert!(keys.iter().all(|k| k.starts_with('u') && k.ends_with("_v2")));
}

fn hash_of<T: std::hash::Hash>(v: &T) -> u64 {
    let mut h = std::collections::hash_map::DefaultHasher::new();
    v.hash(&mut h);
    h.finish()
}

#[test]
fn equal_posts_hash_alike() {
    let a = PostItemV2 {
        publisher_user_id: "a".to_string(),
        canister_id: "a".to_string(),
        post_id: 1,
        video_id: "v".to_string(),
        is_nsfw: false,
    };
    let mut b = a.clone();
    b.post_id = 2;
    assert!(a == b);
    assert_eq!(hash_of(&a), hash_of(&b));
    let v3 = MLFeedCacheState::<()>::convert_post_item_v2_to_v3(&a);
    let mut w3 = v3.clone();
    w3.canister_id = "other".to_string();
    assert_eq!(hash_of(&v3), hash_of(&w3));
    let mut set = std::collections::HashSet::new();
    set.insert(v3);
    assert!(!set.insert(w3));
}
