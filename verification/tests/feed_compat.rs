use std::time::{Duration, SystemTime, UNIX_EPOCH};

use yral_common::feed_cache::MLFeedCacheState;

use yral_common::feed_compat::{
    buffer_item_v2_from_bytes, history_item_v1_from_bytes, history_item_v2_from_bytes, post_id_from_bytes,
    post_item_v1_from_bytes, post_item_v2_from_bytes, stored_time_from_bytes, StoredEntry,
    buffer_item_v2_from_fields, flag_or_default, history_item_v1_from_fields, history_item_v2_from_fields,
    post_item_v1_from_fields, post_item_v2_from_fields, resolve_post_id, string_or_number, text_or_default,
    BufferItemFields, HistoryItemFields, JsonField, LegacyHistoryFields, LegacyPostFields, PostItemFields,
    StringOrNumber,
};

fn text(s: &str) -> JsonField {
    JsonField::Text(s.to_string())
}

#[test]
fn post_id_from_number_or_decimal_text() {
    assert_eq!(resolve_post_id(&JsonField::Unsigned(12345)), Some(12345));
    assert_eq!(resolve_post_id(&text("67890")), Some(67890));
    assert_eq!(resolve_post_id(&text("abc123def")), None);
    assert_eq!(resolve_post_id(&text("")), None);
    assert_eq!(resolve_post_id(&JsonField::Flag(true)), None);
    assert_eq!(resolve_post_id(&JsonField::Other), None);
    assert_eq!(resolve_post_id(&JsonField::Absent), None);
}

#[test]
fn missing_members_default() {
    assert_eq!(text_or_default(&JsonField::Absent), "");
    assert_eq!(text_or_default(&JsonField::Unsigned(3)), "");
    assert_eq!(text_or_default(&text("x")), "x");
    assert!(!flag_or_default(&JsonField::Absent));
    assert!(!flag_or_default(&text("true")));
    assert!(flag_or_default(&JsonField::Flag(true)));
}

#[test]
fn post_item_from_mixed_post_ids() {
    let fields = PostItemFields {
        post_id: text("999999"),
        publisher_user_id: text("publisher4"),
        canister_id: text("canister4"),
        video_id: text("video4"),
        is_nsfw: JsonField::Flag(true),
    };
    let item = post_item_v2_from_fields(&fields).unwrap();
    assert_eq!(item.post_id, 999999);
    assert_eq!(item.publisher_user_id, "publisher4");
    assert_eq!(item.canister_id, "canister4");
    assert_eq!(item.video_id, "video4");
    assert!(item.is_nsfw);

    let skipped = PostItemFields {
        post_id: text("abc123def"),
        publisher_user_id: text("publisher3"),
        canister_id: text("canister3"),
        video_id: text("video3"),
        is_nsfw: JsonField::Absent,
    };
    assert!(post_item_v2_from_fields(&skipped).is_none());

    let sparse = PostItemFields {
        post_id: JsonField::Unsigned(1),
        publisher_user_id: JsonField::Absent,
        canister_id: JsonField::Other,
        video_id: text("v"),
        is_nsfw: JsonField::Absent,
    };
    let item = post_item_v2_from_fields(&sparse).unwrap();
    assert_eq!(item.publisher_user_id, "");
    assert_eq!(item.canister_id, "");
    assert!(!item.is_nsfw);
}

#[test]
fn history_and_buffer_items_from_members() {
    let at = UNIX_EPOCH + Duration::from_secs(1_700_000_000);
    let fields = HistoryItemFields {
        post_id: JsonField::Unsigned(10001),
        publisher_user_id: text("pub1"),
        canister_id: text("can1"),
        video_id: text("vid1"),
        item_type: text("video_viewed"),
        timestamp: at,
        percent_watched_bits: 50.0f32.to_bits(),
    };
    let item = history_item_v2_from_fields(&fields).unwrap();
    assert_eq!(item.post_id, 10001);
    assert_eq!(item.item_type, "video_viewed");
    assert_eq!(item.timestamp, at);
    assert_eq!(f32::from_bits(item.percent_watched_bits), 50.0);

    let fields = BufferItemFields {
        post_id: text("9003"),
        publisher_user_id: text("buf_pub4"),
        video_id: text("buf_vid4"),
        item_type: text("like_video"),
        user_id: text("user4"),
        percent_watched_bits: 25.0f32.to_bits(),
        timestamp: at,
    };
    let item = buffer_item_v2_from_fields(&fields).unwrap();
    assert_eq!(item.post_id, 9003);
    assert_eq!(item.user_id, "user4");
    assert_eq!(item.video_id, "buf_vid4");

    let skipped = BufferItemFields {
        post_id: text("buffer_string_id"),
        publisher_user_id: text("buf_pub3"),
        video_id: text("buf_vid3"),
        item_type: text("like_video"),
        user_id: text("user3"),
        percent_watched_bits: 0,
        timestamp: SystemTime::now(),
    };
    assert!(buffer_item_v2_from_fields(&skipped).is_none());
}

#[test]
fn first_layout_items_from_members() {
    let fields = LegacyPostFields {
        post_id: text("42"),
        canister_id: text("c"),
        video_id: text("v"),
        nsfw_probability_bits: 0.25f32.to_bits(),
    };
    let item = post_item_v1_from_fields(&fields).unwrap();
    assert_eq!(item.post_id, 42);
    assert_eq!(f32::from_bits(item.nsfw_probability_bits), 0.25);

    let at = SystemTime::now();
    let fields = LegacyHistoryFields {
        post_id: JsonField::Unsigned(7),
        canister_id: JsonField::Absent,
        video_id: text("v"),
        item_type: text("like_video"),
        nsfw_probability_bits: 0,
        timestamp: at,
        percent_watched_bits: 0,
    };
    let item = history_item_v1_from_fields(&fields).unwrap();
    assert_eq!(item.post_id, 7);
    assert_eq!(item.canister_id, "");
    assert_eq!(item.timestamp, at);

    let fields = LegacyHistoryFields {
        post_id: JsonField::Other,
        canister_id: JsonField::Absent,
        video_id: text("v"),
        item_type: text("like_video"),
        nsfw_probability_bits: 0,
        timestamp: at,
        percent_watched_bits: 0,
    };
    assert!(history_item_v1_from_fields(&fields).is_none());
}

#[test]
fn stored_post_ids_read_as_text() {
    assert_eq!(string_or_number(StringOrNumber::Number(789)), "789");
    assert_eq!(string_or_number(StringOrNumber::String("789".to_string())), "789");
    assert_eq!(string_or_number(StringOrNumber::Number(0)), "0");
    assert_eq!(string_or_number(StringOrNumber::String("abc-456-def".to_string())), "abc-456-def");
}

#[test]
fn decimal_text_and_number_read_back_the_same() {
    for n in [0u64, 9, 10, 456, u64::MAX] {
        let t = string_or_number(StringOrNumber::Number(n));
        assert_eq!(resolve_post_id(&JsonField::Text(t)), resolve_post_id(&JsonField::Unsigned(n)));
    }
}

#[test]
fn stored_post_entries_read_from_bytes() {
    let numeric = br#"{"publisher_user_id":"publisher1","canister_id":"canister1","post_id":12345,"video_id":"video1","is_nsfw":false}"#;
    match post_item_v2_from_bytes(numeric) {
        StoredEntry::Item(p) => {
            assert_eq!(p.post_id, 12345);
            assert_eq!(p.publisher_user_id, "publisher1");
            assert_eq!(p.canister_id, "canister1");
            assert_eq!(p.video_id, "video1");
            assert!(!p.is_nsfw);
        }
        _ => panic!("item expected"),
    }
    let textual = br#"{"publisher_user_id":"publisher4","canister_id":"canister4","post_id":"999999","video_id":"video4","is_nsfw":true}"#;
    match post_item_v2_from_bytes(textual) {
        StoredEntry::Item(p) => {
            assert_eq!(p.post_id, 999999);
            assert!(p.is_nsfw);
        }
        _ => panic!("item expected"),
    }
    let bad_id = br#"{"publisher_user_id":"publisher3","canister_id":"canister3","post_id":"abc123def","video_id":"video3"}"#;
    assert!(matches!(post_item_v2_from_bytes(bad_id), StoredEntry::Skipped));
    assert!(matches!(post_item_v2_from_bytes(br#"{"post_id":1.5}"#), StoredEntry::Skipped));
    assert!(matches!(post_item_v2_from_bytes(br#"{"video_id":"v"}"#), StoredEntry::Skipped));
    assert!(matches!(post_item_v2_from_bytes(br#"[1,2]"#), StoredEntry::Skipped));
    assert!(matches!(post_item_v2_from_bytes(b"not json"), StoredEntry::NotJson));
    match post_item_v2_from_bytes(br#"{"post_id":7}"#) {
        StoredEntry::Item(p) => {
            assert_eq!(p.publisher_user_id, "");
            assert_eq!(p.video_id, "");
            assert!(!p.is_nsfw);
        }
        _ => panic!("item expected"),
    }
    assert_eq!(post_id_from_bytes(br#"{"post_id":"42"}"#), Some(42));
    assert_eq!(post_id_from_bytes(br#"{"post_id":-1}"#), None);
    assert_eq!(post_id_from_bytes(b"{"), None);
}

#[test]
fn stored_history_and_buffer_entries_read_from_bytes() {
    let at = UNIX_EPOCH + Duration::from_secs(1_700_000_000);
    let now = UNIX_EPOCH + Duration::from_secs(5);
    let history = br#"{"publisher_user_id":"pub3","canister_id":"can3","post_id":"30003","video_id":"vid3","item_type":"like_video","timestamp":{"secs_since_epoch":1700000000,"nanos_since_epoch":0},"percent_watched":75.0}"#;
    match history_item_v2_from_bytes(history, now, 75.0f32.to_bits()) {
        StoredEntry::Item(h) => {
            assert_eq!(h.post_id, 30003);
            assert_eq!(h.canister_id, "can3");
            assert_eq!(h.item_type, "like_video");
            assert_eq!(h.timestamp, at);
            assert_eq!(f32::from_bits(h.percent_watched_bits), 75.0);
        }
        _ => panic!("item expected"),
    }
    let skipped = br#"{"post_id":"string_post_123","video_id":"vid3"}"#;
    assert!(matches!(history_item_v2_from_bytes(skipped, now, 0), StoredEntry::Skipped));
    let buffer = br#"{"publisher_user_id":"buf_pub4","post_id":9003,"video_id":"buf_vid4","item_type":"video_viewed","percent_watched":25.0,"user_id":"user4"}"#;
    match buffer_item_v2_from_bytes(buffer, now, 25.0f32.to_bits()) {
        StoredEntry::Item(b) => {
            assert_eq!(b.post_id, 9003);
            assert_eq!(b.timestamp, now);
            assert_eq!(b.user_id, "user4");
            assert_eq!(b.publisher_user_id, "buf_pub4");
        }
        _ => panic!("item expected"),
    }
    assert!(matches!(buffer_item_v2_from_bytes(b"\xff", now, 0), StoredEntry::NotJson));
    let legacy = br#"{"canister_id":"c","post_id":"5","video_id":"v","nsfw_probability":0.5}"#;
    match post_item_v1_from_bytes(legacy, 0.5f32.to_bits()) {
        StoredEntry::Item(p) => {
            assert_eq!(p.post_id, 5);
            assert_eq!(p.canister_id, "c");
        }
        _ => panic!("item expected"),
    }
    let legacy_history = br#"{"canister_id":"c","post_id":6,"video_id":"v","item_type":"video_viewed"}"#;
    match history_item_v1_from_bytes(legacy_history, now, 0, 0) {
        StoredEntry::Item(h) => {
            assert_eq!(h.post_id, 6);
            assert_eq!(h.timestamp, now);
            assert_eq!(h.item_type, "video_viewed");
        }
        _ => panic!("item expected"),
    }
}

#[test]
fn stored_time_is_the_epoch_plus_the_stored_seconds() {
    let now = UNIX_EPOCH + Duration::from_secs(5);
    let stamped = br#"{"post_id":1,"timestamp":{"secs_since_epoch":1700000000,"nanos_since_epoch":0}}"#;
    assert_eq!(stored_time_from_bytes(stamped, now), UNIX_EPOCH + Duration::from_secs(1_700_000_000));
    assert_eq!(stored_time_from_bytes(br#"{"timestamp":{"secs_since_epoch":0}}"#, now), UNIX_EPOCH);
    assert_eq!(stored_time_from_bytes(br#"{"post_id":1}"#, now), now);
    assert_eq!(stored_time_from_bytes(br#"{"timestamp":{"secs_since_epoch":"17"}}"#, now), now);
    assert_eq!(stored_time_from_bytes(br#"{"timestamp":{"secs_since_epoch":-3}}"#, now), now);
    assert_eq!(stored_time_from_bytes(br#"{"timestamp":17}"#, now), now);
    assert_eq!(stored_time_from_bytes(b"not json", now), now);
    let legacy = br#"{"canister_id":"c","post_id":6,"video_id":"v","item_type":"video_viewed","timestamp":{"secs_since_epoch":60}}"#;
    match history_item_v1_from_bytes(legacy, now, 0, 0) {
        StoredEntry::Item(h) => assert_eq!(h.timestamp, UNIX_EPOCH + Duration::from_secs(60)),
        _ => panic!("item expected"),
    }
}

#[test]
fn test_mixed_type_deserialization_history_item() {
    let json_with_number = r#"{
        "publisher_user_id": "user123",
        "canister_id": "canister456",
        "post_id": 789,
        "video_id": "video111",
        "item_type": "like_video",
        "timestamp": {"secs_since_epoch": 1700000000, "nanos_since_epoch": 0},
        "percent_watched": 75.5
    }"#;
    let json_with_string = json_with_number.replace("789", "\"789\"");
    for json in [json_with_number.to_string(), json_with_string] {
        match history_item_v2_from_bytes(json.as_bytes(), SystemTime::now(), 75.5f32.to_bits()) {
            StoredEntry::Item(h) => {
                let item = MLFeedCacheState::<()>::convert_history_item_v2_to_v3(&h);
                assert_eq!(item.post_id, "789");
                assert_eq!(item.timestamp, UNIX_EPOCH + Duration::from_secs(1_700_000_000));
            }
            _ => panic!("item expected"),
        }
    }
}

#[test]
fn test_mixed_type_deserialization_buffer_item() {
    let json_with_number = r#"{
        "publisher_user_id": "publisher123",
        "post_id": 456,
        "video_id": "video789",
        "item_type": "video_watched",
        "percent_watched": 50.0,
        "user_id": "user999",
        "timestamp": {"secs_since_epoch": 1700000000, "nanos_since_epoch": 0}
    }"#;
    let json_with_string = json_with_number.replace("456", "\"456\"");
    for json in [json_with_number.to_string(), json_with_string] {
        match buffer_item_v2_from_bytes(json.as_bytes(), SystemTime::now(), 50.0f32.to_bits()) {
            StoredEntry::Item(b) => {
                let item = MLFeedCacheState::<()>::convert_buffer_item_v2_to_v3(&b);
                assert_eq!(item.post_id, "456");
                assert_eq!(item.timestamp, UNIX_EPOCH + Duration::from_secs(1_700_000_000));
            }
            _ => panic!("item expected"),
        }
    }
}
