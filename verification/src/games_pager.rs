//! Paging through a user's games at the hot-or-not worker: the worker
//! hands back a cursor with each page, and the next request sends it.

use vstd::prelude::*;
use candid::Principal;
use crate::hon::PaginatedGamesReq;
use crate::profile::principal_text;

verus! {

broadcast use vstd::string::group_string_axioms;

/// The worker's versions of the games list.
#[derive(Clone, Copy, Debug, PartialEq, Eq, Structural)]
pub enum GamesApi {
    V1,
    V2,
    V3,
    V4,
}

/// The path prefix of a games list, before the user's principal.
pub open spec fn games_path_prefix(api: GamesApi) -> Seq<char> {
    match api {
        GamesApi::V1 | GamesApi::V2 => "/games/"@,
        GamesApi::V3 => "/v3/games/"@,
        GamesApi::V4 => "/v4/games/"@,
    }
}

/// The position in a user's games: the cursor of the next page, if one was
/// handed back. Pages only go forward.
#[derive(Clone, Debug)]
pub struct GamesPager {
    pub next: Option<String>,
    pub user_principal: Principal,
    pub api: GamesApi,
}

impl GamesPager {
    /// A pager at the first page.
    pub fn new(user_principal: Principal, api: GamesApi) -> (r: Self)
        ensures
            r.next is None,
            r.user_principal == user_principal,
            r.api == api,
    {
        GamesPager { next: None, user_principal, api }
    }

    /// The path of the user's games list.
    pub fn games_path(&self) -> (r: String)
        ensures
            r@ == games_path_prefix(self.api) + principal_text(self.user_principal),
    {
        let prefix = match self.api {
            GamesApi::V1 | GamesApi::V2 => "/games/",
            GamesApi::V3 => "/v3/games/",
            GamesApi::V4 => "/v4/games/",
        };
        let principal = crate::profile::principal_to_text(&self.user_principal);
        crate::text::concat2(prefix, principal.as_str())
    }

    /// The request of the page `start..end`: its size, and the cursor that
    /// the last page handed back.
    pub fn page_request(&self, start: usize, end: usize) -> (r: PaginatedGamesReq)
        requires
            start <= end,
        ensures
            r.page_size == end - start,
            r.cursor.deep_view() == self.next.deep_view(),
    {
        let cursor = match &self.next {
            Some(c) => Some(c.clone()),
            None => None,
        };
        PaginatedGamesReq { page_size: end - start, cursor }
    }

    /// Records the cursor a page handed back; whether that page was the last.
    pub fn record_page(&mut self, next: Option<String>) -> (r: bool)
        ensures
            r == next is None,
            final(self).next == next,
            final(self).user_principal == old(self).user_principal,
            final(self).api == old(self).api,
    {
        let end = next.is_none();
        self.next = next;
        end
    }
}

/// The worker serves a user's games at `/games/`, `/v3/games/` and
/// `/v4/games/`, each followed by the user's principal: the V1 and V2
/// lists are read at the same path for every user, and the V3 and V4 lists
/// at their own, so that no two of those three paths coincide.
pub proof fn lemma_games_paths(p: Principal)
    ensures
        games_path_prefix(GamesApi::V2) + principal_text(p) == games_path_prefix(GamesApi::V1) + principal_text(p),
        games_path_prefix(GamesApi::V1) + principal_text(p) == "/games/"@ + principal_text(p),
        games_path_prefix(GamesApi::V3) + principal_text(p) == "/v3/games/"@ + principal_text(p),
        games_path_prefix(GamesApi::V4) + principal_text(p) == "/v4/games/"@ + principal_text(p),
        games_path_prefix(GamesApi::V1) + principal_text(p) != games_path_prefix(GamesApi::V3) + principal_text(p),
        games_path_prefix(GamesApi::V1) + principal_text(p) != games_path_prefix(GamesApi::V4) + principal_text(p),
        games_path_prefix(GamesApi::V3) + principal_text(p) != games_path_prefix(GamesApi::V4) + principal_text(p),
{
    reveal_strlit("/games/");
    reveal_strlit("/v3/games/");
    reveal_strlit("/v4/games/");
    let t = principal_text(p);
    assert(("/games/"@ + t)[1] != ("/v3/games/"@ + t)[1]);
    assert(("/games/"@ + t)[1] != ("/v4/games/"@ + t)[1]);
    assert(("/v3/games/"@ + t)[2] != ("/v4/games/"@ + t)[2]);
}

} // verus!
