//! Signing in with a delegated identity: the lifetime of the session, and
//! the decisions between the calls to the metadata service, the user info
//! service and the user's canister.

use vstd::prelude::*;
use candid::Principal;
use crate::profile::{principal_text, principal_to_text, same_principal, CanisterUserProfile, ProfileDetails, ServiceUserProfile};
use crate::text::{concat2, concat3, contains_text, occurs_in};

verus! {

/// The earliest of the expirations, or `u64::MAX` when there are none.
pub open spec fn earliest(expirations: Seq<u64>) -> u64
    decreases expirations.len(),
{
    if expirations.len() == 0 {
        u64::MAX
    } else {
        let rest = earliest(expirations.drop_last());
        if expirations.last() < rest {
            expirations.last()
        } else {
            rest
        }
    }
}

/// When a session delegated through a chain of delegations expires, in
/// nanoseconds: at the earliest expiration of the chain (`u64::MAX` for an
/// empty chain).
pub fn delegation_expiry(expirations: &Vec<u64>) -> (r: u64)
    ensures
        r == earliest(expirations@),
        forall|i: int| 0 <= i < expirations@.len() ==> r <= expirations@[i],
        r == u64::MAX || exists|i: int| 0 <= i < expirations@.len() && r == expirations@[i],
{
    let mut r: u64 = u64::MAX;
    let mut i: usize = 0;
    while i < expirations.len()
        invariant
            i <= expirations@.len(),
            r == earliest(expirations@.take(i as int)),
            forall|j: int| 0 <= j < i ==> r <= expirations@[j],
            r == u64::MAX || exists|j: int| 0 <= j < i && r == expirations@[j],
        decreases expirations@.len() - i,
    {
        assert(expirations@.take(i + 1).drop_last() =~= expirations@.take(i as int));
        if expirations[i] < r {
            r = expirations[i];
        }
        i = i + 1;
    }
    assert(expirations@.take(i as int) =~= expirations@);
    r
}

/// The lowercase form of a text, as `str::to_lowercase` gives it.
pub uninterp spec fn lowercase_of(s: Seq<char>) -> Seq<char>;

/// `str::to_lowercase`: the text with each character mapped to its Unicode
/// lowercase form (a capital sigma by its place in the word).
#[verifier::external_body]
fn to_lowercase(s: &str) -> (r: String)
    ensures
        r@ == lowercase_of(s@),
{
    s.to_lowercase()
}

/// Whether the user info service refused a registration only because the
/// user is already registered: its message holds "already exists", in any case.
pub open spec fn already_registered(message: Seq<char>) -> bool {
    occurs_in("already exists"@, lowercase_of(message))
}

/// How far signing in has come.
#[derive(Clone, Debug)]
pub enum SignIn {
    /// The user's metadata has been asked for.
    LookingUp,
    /// The user is being registered with the user info service.
    Registering,
    /// The user's metadata is being set to the user info service and an empty username.
    RecordingMetadata,
    /// The profile kept by `user_canister` is being read; `username` is the
    /// one the metadata holds, if any.
    ReadingProfile { user_canister: Principal, username: Option<String> },
    /// Signed in, with the user's canister and profile.
    SignedIn { user_canister: Principal, profile: ProfileDetails },
    /// Signing in failed with this message.
    Failed(String),
}

/// An answer that signing in waits for.
#[derive(Debug)]
pub enum SignInEvent {
    /// The metadata service's answer: the user's canister and username, or
    /// nothing for a user it does not know.
    Metadata(Option<(Principal, String)>),
    /// The user info service's answer to the registration.
    Registration(Result<(), String>),
    /// The metadata service's answer to setting the metadata.
    MetadataRecorded(Result<(), String>),
    /// The user info service's answer for the profile.
    ServiceProfile(Result<ServiceUserProfile, String>),
    /// The user's canister's answer for the profile.
    CanisterProfile(Result<CanisterUserProfile, String>),
}

/// The call that signing in asks for next.
#[derive(Clone, Copy, Debug)]
pub enum SignInAction {
    /// Register the user with the user info service.
    Register,
    /// Set the user's metadata: the user info service as their canister, no username.
    RecordMetadata,
    /// Read the profile from the user info service.
    ReadServiceProfile,
    /// Read the profile from the user's canister `user_canister`.
    ReadCanisterProfile { user_canister: Principal },
    /// Nothing more: signing in has ended (or the answer was not the one awaited).
    Stop,
}

/// The call that reads the profile kept by `user_canister`: the user info
/// service keeps its own users' profiles, every other canister its user's.
pub open spec fn profile_read(user_canister: Principal, user_info_service: Principal) -> SignInAction {
    if user_canister == user_info_service {
        SignInAction::ReadServiceProfile
    } else {
        SignInAction::ReadCanisterProfile { user_canister }
    }
}

/// Where the profile kept by `user_canister` is read from.
pub fn profile_read_for(user_canister: Principal, user_info_service: Principal) -> (r: SignInAction)
    ensures
        r == profile_read(user_canister, user_info_service),
{
    if same_principal(&user_canister, &user_info_service) {
        SignInAction::ReadServiceProfile
    } else {
        SignInAction::ReadCanisterProfile { user_canister }
    }
}

/// The message of a refused registration.
pub open spec fn registration_failure(message: Seq<char>, principal: Principal) -> Seq<char> {
    "Failed to register new user: "@ + message + " for user "@ + principal_text(principal)
}

/// The message of a profile the user info service would not give.
pub open spec fn service_profile_failure(message: Seq<char>, principal: Principal) -> Seq<char> {
    message + " for principal "@ + principal_text(principal)
}

/// The username of a metadata answer.
pub open spec fn metadata_username(meta: Option<(Principal, String)>) -> Option<String> {
    match meta {
        Some(m) => Some(m.1),
        None => None,
    }
}

/// One step of signing in as `principal`, `user_info_service` being the
/// user info service's canister: from where it stands and the answer
/// awaited, where it stands next and the call to make.
///
/// - The metadata answer: a known user's profile is read where their
///   canister keeps it (see `profile_read`); an unknown user is registered.
/// - The registration answer: accepted, or refused because the user already
///   exists, leads to setting the metadata; any other refusal ends signing in.
/// - Once the metadata is set, the profile is read from the user info service.
/// - The profile answer ends signing in, with the profile built as
///   `ProfileDetails::from_service_canister` or `from_canister` build it, or
///   with the failure.
/// - An answer that is not the one awaited leaves everything as it is.
pub open spec fn sign_in_step(
    principal: Principal,
    user_info_service: Principal,
    state: SignIn,
    event: SignInEvent,
    next: SignIn,
    action: SignInAction,
) -> bool {
    match (state, event) {
        (SignIn::LookingUp, SignInEvent::Metadata(Some((user_canister, username)))) => {
            &&& next == (SignIn::ReadingProfile { user_canister, username: Some(username) })
            &&& action == profile_read(user_canister, user_info_service)
        },
        (SignIn::LookingUp, SignInEvent::Metadata(None)) => next is Registering && action == SignInAction::Register,
        (SignIn::Registering, SignInEvent::Registration(reply)) => match reply {
            Err(e) if !already_registered(e@) => {
                &&& next matches SignIn::Failed(m) && m@ == registration_failure(e@, principal)
                &&& action == SignInAction::Stop
            },
            _ => next is RecordingMetadata && action == SignInAction::RecordMetadata,
        },
        (SignIn::RecordingMetadata, SignInEvent::MetadataRecorded(reply)) => match reply {
            Ok(()) => {
                &&& next == (SignIn::ReadingProfile { user_canister: user_info_service, username: None })
                &&& action == SignInAction::ReadServiceProfile
            },
            Err(e) => next == SignIn::Failed(e) && action == SignInAction::Stop,
        },
        (SignIn::ReadingProfile { user_canister, username }, SignInEvent::ServiceProfile(reply)) => {
            &&& action == SignInAction::Stop
            &&& match reply {
                Ok(details) => next matches SignIn::SignedIn { user_canister: c, profile } && {
                    &&& c == user_canister
                    &&& profile.username.deep_view() == crate::profile::nonempty_name(username.deep_view())
                    &&& profile.display_name == username
                    &&& profile.profile_pic == details.profile_picture_url
                    &&& profile.principal == principal
                    &&& profile.user_canister == principal
                    &&& profile.lifetime_earnings == 0 && profile.followers_cnt == 0 && profile.following_cnt == 0
                    &&& profile.hots == 0 && profile.nots == 0
                },
                Err(e) => next matches SignIn::Failed(m) && m@ == service_profile_failure(e@, principal),
            }
        },
        (SignIn::ReadingProfile { user_canister, username }, SignInEvent::CanisterProfile(reply)) => {
            &&& action == SignInAction::Stop
            &&& match reply {
                Ok(user) => next matches SignIn::SignedIn { user_canister: c, profile } && {
                    &&& c == user_canister
                    &&& profile.username.deep_view() == crate::profile::nonempty_name(username.deep_view())
                    &&& profile.lifetime_earnings == user.lifetime_earnings
                    &&& profile.followers_cnt == user.followers_count
                    &&& profile.following_cnt == user.following_count
                    &&& profile.profile_pic == user.profile_picture_url
                    &&& profile.display_name == user.display_name
                    &&& profile.principal == user.principal_id
                    &&& profile.user_canister == user_canister
                    &&& profile.hots == user.hot_bets_received
                    &&& profile.nots == user.not_bets_received
                },
                Err(e) => next == SignIn::Failed(e),
            }
        },
        (s, _) => next == s && action == SignInAction::Stop,
    }
}

/// One step of signing in; see `sign_in_step`.
pub fn sign_in_next(
    principal: Principal,
    user_info_service: Principal,
    state: SignIn,
    event: SignInEvent,
) -> (r: (SignIn, SignInAction))
    ensures
        sign_in_step(principal, user_info_service, state, event, r.0, r.1),
{
    match (state, event) {
        (SignIn::LookingUp, SignInEvent::Metadata(Some((user_canister, username)))) => {
            let action = profile_read_for(user_canister, user_info_service);
            (SignIn::ReadingProfile { user_canister, username: Some(username) }, action)
        },
        (SignIn::LookingUp, SignInEvent::Metadata(None)) => (SignIn::Registering, SignInAction::Register),
        (SignIn::Registering, SignInEvent::Registration(reply)) => match reply {
            Err(e) => {
                let lower = to_lowercase(e.as_str());
                if contains_text(lower.as_str(), "already exists") {
                    (SignIn::RecordingMetadata, SignInAction::RecordMetadata)
                } else {
                    let who = principal_to_text(&principal);
                    let head = concat2("Failed to register new user: ", e.as_str());
                    let message = concat3(head.as_str(), " for user ", who.as_str());
                    (SignIn::Failed(message), SignInAction::Stop)
                }
            },
            Ok(()) => (SignIn::RecordingMetadata, SignInAction::RecordMetadata),
        },
        (SignIn::RecordingMetadata, SignInEvent::MetadataRecorded(reply)) => match reply {
            Ok(()) => (
                SignIn::ReadingProfile { user_canister: user_info_service, username: None },
                SignInAction::ReadServiceProfile,
            ),
            Err(e) => (SignIn::Failed(e), SignInAction::Stop),
        },
        (SignIn::ReadingProfile { user_canister, username }, SignInEvent::ServiceProfile(reply)) => match reply {
            Ok(details) => {
                let profile = ProfileDetails::from_service_canister(principal, username, details);
                (SignIn::SignedIn { user_canister, profile }, SignInAction::Stop)
            },
            Err(e) => {
                let who = principal_to_text(&principal);
                (SignIn::Failed(concat3(e.as_str(), " for principal ", who.as_str())), SignInAction::Stop)
            },
        },
        (SignIn::ReadingProfile { user_canister, username }, SignInEvent::CanisterProfile(reply)) => match reply {
            Ok(user) => {
                let profile = ProfileDetails::from_canister(user_canister, username, user);
                (SignIn::SignedIn { user_canister, profile }, SignInAction::Stop)
            },
            Err(e) => (SignIn::Failed(e), SignInAction::Stop),
        },
        (s, _) => (s, SignInAction::Stop),
    }
}

} // verus!
