//! User profiles, and the generated profile picture of a user without one.

use vstd::prelude::*;
use candid::Principal;
use crate::decimal::{decimal, u64_to_decimal};
use crate::text::concat3;

verus! {

broadcast use vstd::string::group_string_axioms;

/// Address prefix of the generated profile pictures.
pub const GOBGOB_PROPIC_URL: &'static str = "https://imagedelivery.net/abXI9nS4DYYtyR1yFFtziA/gob.";

/// Number of generated profile pictures.
pub const GOBGOB_TOTAL_COUNT: u32 = 18557;

/// The significant bytes of a principal (`Principal::as_slice`).
pub uninterp spec fn principal_bytes(p: Principal) -> Seq<u8>;

/// The textual form of a principal (`Principal::to_text`).
pub uninterp spec fn principal_text(p: Principal) -> Seq<char>;

/// The CRC-32 checksum of a byte string (`crc32fast::hash`).
pub uninterp spec fn crc32_of(bytes: Seq<u8>) -> u32;

/// `Principal::as_slice`: the principal's significant bytes, at most 29 of them.
#[verifier::external_body]
fn principal_as_bytes(p: &Principal) -> (r: Vec<u8>)
    ensures
        r@ == principal_bytes(*p),
        r@.len() <= 29,
{
    p.as_slice().to_vec()
}

/// `Principal::to_text`: the principal's textual form.
#[verifier::external_body]
pub(crate) fn principal_to_text(p: &Principal) -> (r: String)
    ensures
        r@ == principal_text(*p),
{
    p.to_text()
}

/// `Principal == Principal`: `Principal` derives `PartialEq` over its length
/// and its byte buffer, which every constructor zero-fills past the length,
/// so two principals compare equal exactly when they are the same value.
#[verifier::external_body]
pub(crate) fn same_principal(a: &Principal, b: &Principal) -> (r: bool)
    ensures
        r == (*a == *b),
{
    a == b
}

/// `crc32fast::hash`: the CRC-32 checksum of `bytes`.
#[verifier::external_body]
fn crc32_hash(bytes: &[u8]) -> (r: u32)
    ensures
        r == crc32_of(bytes@),
{
    crc32fast::hash(bytes)
}

/// The number, from 1 to `GOBGOB_TOTAL_COUNT`, of a principal's generated picture.
pub open spec fn propic_index(p: Principal) -> u32 {
    (crc32_of(principal_bytes(p)) % GOBGOB_TOTAL_COUNT + 1) as u32
}

/// The address of a principal's generated profile picture.
pub open spec fn propic_url_of(p: Principal) -> Seq<char> {
    GOBGOB_PROPIC_URL@ + decimal(propic_index(p) as nat) + "/public"@
}

fn index_from_principal(principal: Principal) -> (r: u32)
    ensures
        r == propic_index(principal),
        1 <= r <= GOBGOB_TOTAL_COUNT,
{
    let bytes = principal_as_bytes(&principal);
    let hash_value = crc32_hash(bytes.as_slice());
    (hash_value % GOBGOB_TOTAL_COUNT) + 1
}

/// The address of the generated profile picture of `principal`: one of the
/// `GOBGOB_TOTAL_COUNT` pictures, chosen by the CRC-32 of its bytes.
pub fn propic_from_principal(principal: Principal) -> (r: String)
    ensures
        r@ == propic_url_of(principal),
{
    let index = index_from_principal(principal);
    let shown = u64_to_decimal(index as u64);
    concat3(GOBGOB_PROPIC_URL, shown.as_str(), "/public")
}

/// A user's profile.
#[derive(Clone, Debug)]
pub struct ProfileDetails {
    /// The username. The constructors `from_canister` and
    /// `from_service_canister` leave out an empty one; the field itself is
    /// public and holds whatever is put in it.
    pub username: Option<String>,
    pub lifetime_earnings: u64,
    pub followers_cnt: u64,
    pub following_cnt: u64,
    pub profile_pic: Option<String>,
    pub display_name: Option<String>,
    pub principal: Principal,
    pub user_canister: Principal,
    pub hots: u64,
    pub nots: u64,
}

/// What a user's own canister reports of their profile.
#[derive(Clone, Debug)]
pub struct CanisterUserProfile {
    pub principal_id: Principal,
    pub display_name: Option<String>,
    pub profile_picture_url: Option<String>,
    pub followers_count: u64,
    pub following_count: u64,
    pub lifetime_earnings: u64,
    pub hot_bets_received: u64,
    pub not_bets_received: u64,
}

/// What the user info service reports of a profile.
#[derive(Clone, Debug)]
pub struct ServiceUserProfile {
    pub profile_picture_url: Option<String>,
}

/// A username kept only where it is not empty.
pub open spec fn nonempty_name(u: Option<Seq<char>>) -> Option<Seq<char>> {
    match u {
        Some(s) => if s.len() > 0 {
            Some(s)
        } else {
            None
        },
        None => None,
    }
}

fn filter_nonempty(u: &Option<String>) -> (r: Option<String>)
    ensures
        r.deep_view() == nonempty_name(u.deep_view()),
{
    match u {
        Some(s) => if s.as_str().is_empty() {
            None
        } else {
            Some(s.clone())
        },
        None => None,
    }
}

impl ProfileDetails {
    /// The profile that a user's canister reports, with the username from
    /// the metadata service (dropped when empty).
    pub fn from_canister(user_canister: Principal, username: Option<String>, user: CanisterUserProfile) -> (r: Self)
        ensures
            r.username.deep_view() == nonempty_name(username.deep_view()),
            r.lifetime_earnings == user.lifetime_earnings,
            r.followers_cnt == user.followers_count,
            r.following_cnt == user.following_count,
            r.profile_pic == user.profile_picture_url,
            r.display_name == user.display_name,
            r.principal == user.principal_id,
            r.user_canister == user_canister,
            r.hots == user.hot_bets_received,
            r.nots == user.not_bets_received,
    {
        ProfileDetails {
            username: filter_nonempty(&username),
            lifetime_earnings: user.lifetime_earnings,
            followers_cnt: user.followers_count,
            following_cnt: user.following_count,
            profile_pic: user.profile_picture_url,
            display_name: user.display_name,
            principal: user.principal_id,
            user_canister,
            hots: user.hot_bets_received,
            nots: user.not_bets_received,
        }
    }

    /// The profile that the user info service reports: the username is also
    /// the display name, the principal is also the canister, and the counts
    /// are zero.
    pub fn from_service_canister(
        user_principal: Principal,
        username: Option<String>,
        profile_details: ServiceUserProfile,
    ) -> (r: Self)
        ensures
            r.username.deep_view() == nonempty_name(username.deep_view()),
            r.display_name == username,
            r.profile_pic == profile_details.profile_picture_url,
            r.principal == user_principal,
            r.user_canister == user_principal,
            r.lifetime_earnings == 0 && r.followers_cnt == 0 && r.following_cnt == 0,
            r.hots == 0 && r.nots == 0,
    {
        ProfileDetails {
            username: filter_nonempty(&username),
            lifetime_earnings: 0,
            followers_cnt: 0,
            following_cnt: 0,
            profile_pic: profile_details.profile_picture_url,
            display_name: username,
            principal: user_principal,
            user_canister: user_principal,
            hots: 0,
            nots: 0,
        }
    }

    /// The textual form of the user's principal.
    pub fn principal(&self) -> (r: String)
        ensures
            r@ == principal_text(self.principal),
    {
        principal_to_text(&self.principal)
    }

    /// The username, or else the principal's textual form (safe in URLs).
    pub fn username_or_principal(&self) -> (r: String)
        ensures
            r@ == match self.username {
                Some(u) => u@,
                None => principal_text(self.principal),
            },
    {
        match &self.username {
            Some(u) => u.clone(),
            None => self.principal(),
        }
    }

    /// The username, or else `fallback`, the username generated from the
    /// principal (not for URLs: use `username_or_principal` there).
    pub fn username_or_fallback(&self, fallback: String) -> (r: String)
        ensures
            r@ == match self.username {
                Some(u) => u@,
                None => fallback@,
            },
    {
        match &self.username {
            Some(u) => u.clone(),
            None => fallback,
        }
    }

    /// The display name, or else what `username_or_fallback` gives.
    pub fn display_name_or_fallback(&self, fallback: String) -> (r: String)
        ensures
            r@ == match self.display_name {
                Some(d) => d@,
                None => match self.username {
                    Some(u) => u@,
                    None => fallback@,
                },
            },
    {
        match &self.display_name {
            Some(d) => d.clone(),
            None => self.username_or_fallback(fallback),
        }
    }

    /// The profile picture, or the generated one where there is none or it is empty.
    pub fn profile_pic_or_random(&self) -> (r: String)
        ensures
            r@ == match self.profile_pic {
                Some(p) => if p@.len() > 0 {
                    p@
                } else {
                    propic_url_of(self.principal)
                },
                None => propic_url_of(self.principal),
            },
    {
        if let Some(p) = &self.profile_pic {
            if !p.as_str().is_empty() {
                return p.clone();
            }
        }
        propic_from_principal(self.principal)
    }
}

} // verus!
