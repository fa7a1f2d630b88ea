use vstd::prelude::*;
use cosmwasm_std::StdError;
use crate::error::{generic_err, generic_error, key_too_long, too_long};
use crate::msg::GetGamesResponse;
use crate::sessions::{is_listing, list_games, load_game, name_fits};
use crate::state::{GameState, GameStateView};
use crate::storage::{fits_key, Pair, Store};

verus! {

/// The message of the error for a game that is not there.
pub open spec fn no_game() -> Seq<char> {
    "No game found"@
}

/// What looking up the game under `(host, opponent)` gives: the one game
/// that is stored there, or an error that says that there is none, or
/// that no key can hold `host`.
pub open spec fn lookup_outcome(
    sessions: Map<Pair, GameStateView>,
    host: Seq<char>,
    opponent: Seq<char>,
    r: Result<GetGamesResponse, StdError>,
) -> bool {
    if !fits_key(host) {
        r == Err::<GetGamesResponse, StdError>(generic_error(too_long()))
    } else if !sessions.dom().contains((host, opponent)) {
        r == Err::<GetGamesResponse, StdError>(generic_error(no_game()))
    } else {
        r matches Ok(response) && response@ == seq![sessions[(host, opponent)]]
    }
}

/// What listing the games of `host` gives: the games stored under the
/// pairs that begin with `host`, by ascending second name. It fails where
/// no key can hold `host`, and where `host` is among `clutter`, the hosts
/// under whose name the storage holds something that cannot be read; and
/// only there.
pub open spec fn listing_outcome(
    sessions: Map<Pair, GameStateView>,
    clutter: Set<Seq<char>>,
    host: Seq<char>,
    r: Result<GetGamesResponse, StdError>,
) -> bool {
    if !fits_key(host) {
        r == Err::<GetGamesResponse, StdError>(generic_error(too_long()))
    } else if clutter.contains(host) {
        r is Err
    } else {
        r matches Ok(response) && is_listing(response@, sessions, host)
    }
}

/// Looks up the game stored under `(host, opponent)`. Either player finds
/// a game of the two by naming itself first.
pub fn try_query_game_by_host_and_opponent(store: &Store, host: String, opponent: String) -> (r: Result<GetGamesResponse, StdError>)
    ensures
        lookup_outcome(store.sessions(), host@, opponent@, r),
{
    if !name_fits(host.as_str()) {
        return Err(key_too_long());
    }
    match load_game(store, host.as_str(), opponent.as_str()) {
        Some(g) => {
            let mut games: Vec<GameState> = Vec::new();
            games.push(g);
            let response = GetGamesResponse { games };
            assert(response@ =~= seq![store.sessions()[(host@, opponent@)]]);
            Ok(response)
        },
        None => Err(generic_err("No game found")),
    }
}

/// Lists the games stored under the pairs that begin with `host`, by
/// ascending second name. Where the storage cannot read what it holds
/// under `host`, its error is returned.
pub fn try_query_games_by_host(store: &Store, host: String) -> (r: Result<GetGamesResponse, StdError>)
    ensures
        listing_outcome(store.sessions(), store.clutter(), host@, r),
{
    if !name_fits(host.as_str()) {
        return Err(key_too_long());
    }
    match list_games(store, host.as_str()) {
        Ok(games) => Ok(GetGamesResponse { games }),
        Err(e) => Err(e),
    }
}

} // verus!
