//! Game info request.

use vstd::prelude::*;
use vstd::slice::slice_index_get;
use crate::api_url::{ApiBase, ApiUrl, base_text, pair_text};
use crate::lookup::{eq_ignore_case, str_eq_ignore_case};
use crate::request::{HelixRequest, HttpMethod};

verus! {

/// Game info request.
///
/// This request uses the `/games` path to get info about a game, by
/// either its id, or its name.
#[derive(PartialEq, Eq, Clone, Debug)]
pub enum Request {
    /// Search by id.
    Id(String),
    /// Search by name.
    Name(String),
}

impl Request {
    /// Whether a game matches this request: its id or its name, depending
    /// on the search mode, equals the searched string ignoring case.
    pub open spec fn matches_game(&self, game: Game) -> bool {
        match self {
            Request::Id(id) => eq_ignore_case(id@, game.id@),
            Request::Name(name) => eq_ignore_case(name@, game.name@),
        }
    }

    /// Returns the specific game found by this request's response.
    ///
    /// It attempts to match any game in the output against the request,
    /// ignoring case; the first match is returned, else nothing.
    pub fn game<'a>(&self, games: &'a [Game]) -> (r: Option<&'a Game>)
        ensures
            (r matches Some(g) ==> exists|i: int|
                0 <= i < games@.len() && games@[i] == *g && self.matches_game(games@[i]) && (
                forall|j: int| 0 <= j < i ==> !self.matches_game(games@[j]))),
            (r is None <==> (forall|i: int|
                0 <= i < games@.len() ==> !self.matches_game(games@[i]))),
    {
        let mut i: usize = 0;
        while i < games.len()
            invariant
                i <= games@.len(),
                forall|j: int| 0 <= j < i ==> !self.matches_game(games@[j]),
            decreases games@.len() - i,
        {
            let game = slice_index_get(games, i);
            let found = match self {
                Request::Id(id) => str_eq_ignore_case(id.as_str(), game.id.as_str()),
                Request::Name(name) => str_eq_ignore_case(name.as_str(), game.name.as_str()),
            };
            if found {
                return Some(game);
            }
            i = i + 1;
        }
        None
    }
}

impl HelixRequest for Request {
    type Response = Vec<Game>;

    open spec fn url_spec(&self) -> Seq<char> {
        base_text(ApiBase::Helix) + "/"@ + "games"@ + "?"@ + (match self {
            Request::Id(id) => pair_text("id"@, id@),
            Request::Name(name) => pair_text("name"@, name@),
        })
    }

    open spec fn method_spec(&self) -> HttpMethod {
        HttpMethod::Get
    }

    fn url(&self) -> (u: ApiUrl) {
        let mut u = ApiUrl::new(ApiBase::Helix);
        u.push_segment("games");
        match self {
            Request::Id(id) => u.push_pair("id", id.as_str()),
            Request::Name(name) => u.push_pair("name", name.as_str()),
        }
        proof {
            assert(u@ =~= self.url_spec());
        }
        u
    }

    fn http_method(&self) -> HttpMethod {
        HttpMethod::Get
    }
}

/// Each game in the output data.
#[derive(PartialEq, Eq, Clone, Debug)]
pub struct Game {
    /// Game's box art.
    pub box_art_url: String,
    /// Game id.
    pub id: String,
    /// Game name.
    pub name: String,
}

} // verus!
