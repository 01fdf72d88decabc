use std::time::Duration;

use candid::Principal;
use yral_common::post_details::{post_lookup, viewable_post, PostDetails, PostLookup, PostStatus, ServicePost};
use yral_common::profile::{CanisterUserProfile, ProfileDetails, ServiceUserProfile};
use yral_common::ref_history::HistoryDetails;
use yral_common::session::{profile_read_for, sign_in_next, SignIn, SignInAction, SignInEvent};
use yral_common::text::contains_text;
use yral_common::vote::{VoteDetails, VoteKind, VoteOutcome};

fn service() -> Principal {
    Principal::from_slice(&[0, 0, 0, 0, 2, 0, 0, 1, 1, 1])
}

fn user() -> Principal {
    Principal::from_slice(&[7, 7, 7])
}

fn user_canister() -> Principal {
    Principal::from_slice(&[0, 0, 0, 0, 0, 0, 0, 9, 1, 1])
}

fn canister_profile() -> CanisterUserProfile {
    CanisterUserProfile {
        principal_id: user(),
        display_name: Some("Ann".to_string()),
        profile_picture_url: None,
        followers_count: 1,
        following_count: 2,
        lifetime_earnings: 3,
        hot_bets_received: 4,
        not_bets_received: 5,
    }
}

#[test]
fn known_users_read_their_profile_where_their_canister_keeps_it() {
    let (state, action) =
        sign_in_next(user(), service(), SignIn::LookingUp, SignInEvent::Metadata(Some((user_canister(), "ann".to_string()))));
    assert!(matches!(action, SignInAction::ReadCanisterProfile { user_canister: c } if c == user_canister()));
    let (done, last) = sign_in_next(user(), service(), state, SignInEvent::CanisterProfile(Ok(canister_profile())));
    assert!(matches!(last, SignInAction::Stop));
    match done {
        SignIn::SignedIn { user_canister: c, profile } => {
            assert_eq!(c, user_canister());
            assert_eq!(profile.username.as_deref(), Some("ann"));
            assert_eq!(profile.user_canister, user_canister());
            assert_eq!(profile.followers_cnt, 1);
            assert_eq!(profile.hots, 4);
        }
        _ => panic!("signed in expected"),
    }

    let (state, action) =
        sign_in_next(user(), service(), SignIn::LookingUp, SignInEvent::Metadata(Some((service(), String::new()))));
    assert!(matches!(action, SignInAction::ReadServiceProfile));
    let reply = Ok(ServiceUserProfile { profile_picture_url: Some("https://pic".to_string()) });
    match sign_in_next(user(), service(), state, SignInEvent::ServiceProfile(reply)).0 {
        SignIn::SignedIn { user_canister: c, profile } => {
            assert_eq!(c, service());
            assert_eq!(profile.username, None);
            assert_eq!(profile.display_name.as_deref(), Some(""));
            assert_eq!(profile.user_canister, user());
            assert_eq!(profile.profile_pic.as_deref(), Some("https://pic"));
        }
        _ => panic!("signed in expected"),
    }
    assert!(matches!(profile_read_for(service(), service()), SignInAction::ReadServiceProfile));
}

#[test]
fn unknown_users_are_registered_with_the_user_info_service() {
    let (state, action) = sign_in_next(user(), service(), SignIn::LookingUp, SignInEvent::Metadata(None));
    assert!(matches!(state, SignIn::Registering));
    assert!(matches!(action, SignInAction::Register));
    let (state, action) = sign_in_next(user(), service(), state, SignInEvent::Registration(Ok(())));
    assert!(matches!(state, SignIn::RecordingMetadata));
    assert!(matches!(action, SignInAction::RecordMetadata));
    let exists = SignInEvent::Registration(Err("User Already Exists".to_string()));
    let (again, action) = sign_in_next(user(), service(), SignIn::Registering, exists);
    assert!(matches!(again, SignIn::RecordingMetadata));
    assert!(matches!(action, SignInAction::RecordMetadata));
    let refused = SignInEvent::Registration(Err("quota".to_string()));
    match sign_in_next(user(), service(), SignIn::Registering, refused) {
        (SignIn::Failed(m), SignInAction::Stop) => {
            assert_eq!(m, format!("Failed to register new user: quota for user {}", user().to_text()))
        }
        _ => panic!("failure expected"),
    }
    let (state, action) = sign_in_next(user(), service(), state, SignInEvent::MetadataRecorded(Ok(())));
    assert!(matches!(action, SignInAction::ReadServiceProfile));
    match &state {
        SignIn::ReadingProfile { user_canister: c, username } => {
            assert_eq!(*c, service());
            assert_eq!(*username, None);
        }
        _ => panic!("reading expected"),
    }
    match sign_in_next(user(), service(), state, SignInEvent::ServiceProfile(Err("no profile".to_string()))).0 {
        SignIn::Failed(m) => assert_eq!(m, format!("no profile for principal {}", user().to_text())),
        _ => panic!("failure expected"),
    }
    let failed = SignInEvent::MetadataRecorded(Err("down".to_string()));
    assert!(matches!(sign_in_next(user(), service(), SignIn::RecordingMetadata, failed).0, SignIn::Failed(m) if m == "down"));
    let stray = SignInEvent::Registration(Ok(()));
    assert!(matches!(sign_in_next(user(), service(), SignIn::LookingUp, stray), (SignIn::LookingUp, SignInAction::Stop)));
}

#[test]
fn text_search() {
    assert!(contains_text("user already exists here", "already exists"));
    assert!(!contains_text("already exist", "already exists"));
    assert!(contains_text("abc", ""));
    assert!(contains_text("aab", "ab"));
    assert!(!contains_text("", "a"));
}

fn post() -> PostDetails {
    let service_post = ServicePost {
        id: "p1".to_string(),
        video_uid: "uid".to_string(),
        description: String::new(),
        total_view_count: 0,
        likes: vec![],
        creator_principal: user(),
        hashtags: vec![],
        created_at_secs: 1,
        created_at_nanos: 0,
    };
    PostDetails::from_service_post_anonymous(None, service(), service_post)
}

#[test]
fn only_posts_ready_to_view_are_shown() {
    assert!(PostStatus::ReadyToView.is_viewable());
    assert!(viewable_post(PostStatus::ReadyToView, post()).is_some());
    for status in [PostStatus::NotYetReady, PostStatus::Banned, PostStatus::Deleted] {
        assert!(!status.is_viewable());
        assert!(viewable_post(status, post()).is_none());
    }
}

#[test]
fn posts_are_read_where_they_are_kept() {
    match post_lookup(service(), service(), "abc") {
        PostLookup::UserPostService(id) => assert_eq!(id, "abc"),
        _ => panic!("service expected"),
    }
    match post_lookup(user_canister(), service(), "42") {
        PostLookup::UserCanister { user_canister: c, post_id } => {
            assert_eq!(c, user_canister());
            assert_eq!(post_id, 42);
        }
        _ => panic!("canister expected"),
    }
}

#[test]
fn vote_end_and_remaining_time() {
    let v = VoteDetails {
        outcome: VoteOutcome::AwaitingResult,
        post_id: 1,
        canister_id: user_canister(),
        vote_kind: VoteKind::Not,
        vote_amount: 5,
        placed_at: Duration::from_secs(0),
        slot_id: 2,
    };
    let created = Duration::from_secs(1000);
    assert_eq!(v.end_time(created), Duration::from_secs(8500));
    assert_eq!(v.checked_end_time(created), Some(Duration::from_secs(8500)));
    assert_eq!(v.checked_end_time(Duration::from_secs(u64::MAX)), None);
    assert_eq!(v.time_remaining(created, Duration::from_secs(8000)), Duration::from_secs(500));
    assert_eq!(v.time_remaining(created, Duration::from_secs(9000)), Duration::ZERO);
    assert_eq!(v.checked_time_remaining(created, Duration::from_secs(8000)), Some(Duration::from_secs(500)));
    assert_eq!(v.checked_time_remaining(Duration::from_secs(u64::MAX), Duration::ZERO), None);
}

#[test]
fn referral_history_is_keyed_by_referee() {
    let h = HistoryDetails { epoch_secs: 10, referee: user(), amount: 100 };
    assert_eq!(h.key(), user());
}

#[test]
fn profile_fallback_names() {
    let mut p = ProfileDetails::from_canister(user_canister(), None, canister_profile());
    assert_eq!(p.username_or_fallback("gen-name".to_string()), "gen-name");
    assert_eq!(p.display_name_or_fallback("gen-name".to_string()), "Ann");
    p.display_name = None;
    assert_eq!(p.display_name_or_fallback("gen-name".to_string()), "gen-name");
    p.username = Some("ann".to_string());
    assert_eq!(p.username_or_fallback("gen-name".to_string()), "ann");
    assert_eq!(p.display_name_or_fallback("gen-name".to_string()), "ann");
}
