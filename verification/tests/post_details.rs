use candid::Principal;
use yral_common::post_details::{
    merge_creator_info, CanisterPostDetails, CreatorProfile, PostDetails, ServicePost, ServicePostDetails,
};
use yral_common::profile::propic_from_principal;

fn canister_post() -> CanisterPostDetails {
    CanisterPostDetails {
        id: 42,
        video_uid: "uid1".to_string(),
        description: "a cat".to_string(),
        total_view_count: 10,
        like_count: 3,
        created_by_display_name: Some("Ann".to_string()),
        created_by_profile_photo_url: None,
        created_by_user_principal_id: Principal::anonymous(),
        liked_by_me: true,
        hashtags: vec!["cats".to_string()],
        hot_or_not_feed_ranking_score: None,
        created_at_secs: 100,
        created_at_nanos: 2_500_000_000,
    }
}

#[test]
fn canister_posts() {
    let p = PostDetails::from_canister_post(false, None, Principal::management_canister(), canister_post());
    assert_eq!(p.post_id, "42");
    assert_eq!(p.liked_by_user, None);
    assert_eq!(p.propic_url, propic_from_principal(Principal::anonymous()));
    assert!(!p.is_nsfw);
    assert!(!p.is_hot_or_not());
    assert_eq!((p.created_at_secs, p.created_at_nanos), (102, 500_000_000));
    assert_eq!(p.nsfw_probability_bits, 0);
    let mut with_photo = canister_post();
    with_photo.created_by_profile_photo_url = Some("https://pic".to_string());
    with_photo.hot_or_not_feed_ranking_score = Some(7);
    let q = PostDetails::from_canister_post_with_nsfw_info(
        true,
        Some("ann".to_string()),
        Principal::management_canister(),
        with_photo,
        0.9f32.to_bits(),
        true,
    );
    assert_eq!(q.propic_url, "https://pic");
    assert_eq!(q.liked_by_user, Some(true));
    assert!(q.is_nsfw);
    assert!(q.is_hot_or_not());
    assert_eq!(q.username_or_principal(), "ann");
    assert_eq!(p.username_or_principal(), "2vxsx-fae");
    assert_eq!(p.username_or_fallback("gen123".to_string()), "gen123");
    assert_eq!(p.display_name_or_fallback("gen123".to_string()), "Ann");
}

#[test]
fn service_posts() {
    let post = ServicePost {
        id: "p1".to_string(),
        video_uid: "u".to_string(),
        description: "d".to_string(),
        total_view_count: 5,
        likes: vec![Principal::anonymous(), Principal::management_canister()],
        creator_principal: Principal::anonymous(),
        hashtags: vec![],
        created_at_secs: 1,
        created_at_nanos: 2,
    };
    let p = PostDetails::from_service_post_anonymous(None, Principal::management_canister(), post);
    assert_eq!(p.likes, 2);
    assert_eq!(p.hot_or_not_feed_ranking_score, Some(0));
    assert_eq!(p.liked_by_user, None);
    assert!(p.is_hot_or_not());
    let details = ServicePostDetails {
        id: "p2".to_string(),
        video_uid: "u".to_string(),
        description: "d".to_string(),
        total_view_count: 5,
        like_count: 9,
        created_by_user_principal_id: Principal::anonymous(),
        liked_by_me: false,
        creator_principal: Principal::management_canister(),
        hashtags: vec!["x".to_string()],
        created_at_secs: 3,
        created_at_nanos: 4,
    };
    let q = PostDetails::from_service_post(Some("bo".to_string()), Principal::anonymous(), details);
    assert_eq!(q.likes, 9);
    assert_eq!(q.liked_by_user, Some(false));
    assert_eq!(q.poster_principal, Principal::management_canister());
    assert_eq!(q.propic_url, propic_from_principal(Principal::anonymous()));
    assert_eq!(q.display_name_or_fallback("gen".to_string()), "bo");
}

#[test]
fn creator_info_is_merged() {
    let post = PostDetails::from_canister_post(true, None, Principal::anonymous(), canister_post());
    let original_pic = post.propic_url.clone();
    let profile = CreatorProfile {
        caller_follows_user: Some(true),
        user_follows_caller: Some(false),
        bio: Some("hi".to_string()),
        profile_picture_url: Some("https://new".to_string()),
    };
    let merged = merge_creator_info(post.clone(), Some("ann".to_string()), "gen1".to_string(), Some(profile));
    assert_eq!(merged.username.as_deref(), Some("ann"));
    assert_eq!(merged.user_follows_creator, Some(true));
    assert_eq!(merged.creator_follows_user, Some(false));
    assert_eq!(merged.creator_bio.as_deref(), Some("hi"));
    assert_eq!(merged.propic_url, "https://new");
    assert_eq!(merged.post_id, post.post_id);
    assert_eq!(merged.views, post.views);

    let empty_pic = CreatorProfile {
        caller_follows_user: None,
        user_follows_caller: None,
        bio: None,
        profile_picture_url: Some(String::new()),
    };
    let merged = merge_creator_info(post.clone(), Some(String::new()), "gen1".to_string(), Some(empty_pic));
    assert_eq!(merged.username.as_deref(), Some("gen1"));
    assert_eq!(merged.propic_url, original_pic);

    let merged = merge_creator_info(post.clone(), None, "gen2".to_string(), None);
    assert_eq!(merged.username.as_deref(), Some("gen2"));
    assert_eq!(merged.creator_bio, None);
    assert_eq!(merged.propic_url, original_pic);
}
