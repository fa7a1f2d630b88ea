use vstd::prelude::*;
use cosmwasm_std::StdError;
use crate::msg::games_view;
use crate::records::{
    board_of_record, decode_board, decode_game, encode_board, encode_game, game_of_record,
    lemma_game_storable, lemma_record_round_trip, record_is_game, record_of_board, record_of_game,
};
use crate::state::{GameState, GameStateView, Leaderboard, LeaderboardView};
use crate::storage::{
    fits_key, games, leaderboards, lists_host, load_board_record, load_game_record, name_before,
    range_game_records, remove_game_record, save_board_record, save_game_record, serializable,
    snapshot, unreadable, Pair, RecordView, Store, StoreMut,
};

verus! {

impl<'a> Store<'a> {
    /// The games in the storage: what lies in its map `games` and stands
    /// for a game, by pair of players.
    pub open spec fn sessions(self) -> Map<Pair, GameStateView> {
        Map::new(
            |k: Pair| games(self).dom().contains(k) && record_is_game(games(self)[k]),
            |k: Pair| game_of_record(games(self)[k]),
        )
    }

    /// The tallies in the storage, by pair of players.
    pub open spec fn ledger(self) -> Map<Pair, LeaderboardView> {
        Map::new(
            |k: Pair| leaderboards(self).dom().contains(k),
            |k: Pair| board_of_record(leaderboards(self)[k]),
        )
    }

    /// The hosts whose games cannot be listed: under their name the
    /// storage holds a key or a value that cannot be read.
    pub open spec fn clutter(self) -> Set<Seq<char>> {
        unreadable(self)
    }
}

impl<'a> StoreMut<'a> {
    /// The games in the storage.
    pub open spec fn sessions(self) -> Map<Pair, GameStateView> {
        snapshot(self).sessions()
    }

    /// The tallies in the storage.
    pub open spec fn ledger(self) -> Map<Pair, LeaderboardView> {
        snapshot(self).ledger()
    }

    /// The hosts whose games cannot be listed.
    pub open spec fn clutter(self) -> Set<Seq<char>> {
        snapshot(self).clutter()
    }
}

/// Whether the storage takes a game: whether it can serialize the record
/// of the game. The game alone decides.
pub open spec fn saves_game(game: GameStateView) -> bool {
    serializable(RecordView::Game(record_of_game(game)))
}

/// Whether the storage takes a tally: whether it can serialize the
/// record of the tally. The tally alone decides.
pub open spec fn saves_board(board: LeaderboardView) -> bool {
    serializable(RecordView::Board(record_of_board(board)))
}

/// Whether `found` lists the games that `sessions` holds under the pairs
/// that begin with `host`: each such pair once, `names` giving its second
/// name, by ascending second name.
pub open spec fn lists_games(
    names: Seq<Seq<char>>,
    found: Seq<GameStateView>,
    sessions: Map<Pair, GameStateView>,
    host: Seq<char>,
) -> bool {
    &&& names.len() == found.len()
    &&& forall|i: int| 0 <= i < names.len() ==> sessions.contains_pair((host, #[trigger] names[i]), found[i])
    &&& forall|i: int, j: int| 0 <= i < j < names.len() ==> name_before(#[trigger] names[i], #[trigger] names[j])
    &&& forall|opponent: Seq<char>| #[trigger] sessions.dom().contains((host, opponent)) ==> names.contains(opponent)
}

/// Whether `found` is the list of the games that `sessions` holds under
/// the pairs that begin with `host`, by ascending second name.
pub open spec fn is_listing(found: Seq<GameStateView>, sessions: Map<Pair, GameStateView>, host: Seq<char>) -> bool {
    exists|names: Seq<Seq<char>>| #[trigger] lists_games(names, found, sessions, host)
}

/// Whether a name can be the first part of a storage key.
pub fn name_fits(name: &str) -> (r: bool)
    ensures
        r == fits_key(name@),
{
    name.as_bytes().len() <= 0xFFFF
}

/// The game stored under `(host, opponent)`, if there is one.
pub fn load_game(store: &Store, host: &str, opponent: &str) -> (r: Option<GameState>)
    requires
        fits_key(host@),
    ensures
        r is Some <==> store.sessions().dom().contains((host@, opponent@)),
        r matches Some(g) ==> g@ == store.sessions()[(host@, opponent@)],
{
    match load_game_record(store, host, opponent) {
        Ok(record) => decode_game(&record),
        Err(_) => None,
    }
}

/// Stores `game` under `(host, opponent)`. It succeeds exactly where the
/// storage takes the game; where it does not, nothing changes. No host's
/// games become unlistable.
pub fn save_game(store: &mut StoreMut, host: &str, opponent: &str, game: &GameState) -> (r: Result<(), StdError>)
    requires
        fits_key(host@),
    ensures
        r is Ok <==> saves_game(game@),
        r is Ok ==> final(store).sessions() == old(store).sessions().insert((host@, opponent@), game@),
        r is Err ==> final(store).sessions() == old(store).sessions(),
        final(store).ledger() == old(store).ledger(),
        final(store).clutter().subset_of(old(store).clutter()),
{
    let record = encode_game(game);
    let r = save_game_record(store, host, opponent, &record);
    proof {
        lemma_game_storable(*game);
        lemma_record_round_trip(game@);
        if r is Ok {
            assert(store.sessions() =~= old(store).sessions().insert((host@, opponent@), game@));
        } else {
            assert(store.sessions() =~= old(store).sessions());
        }
        assert(store.ledger() =~= old(store).ledger());
    }
    r
}

/// Deletes the game stored under `(host, opponent)`, if there is one.
/// No host's games become unlistable.
pub fn remove_game(store: &mut StoreMut, host: &str, opponent: &str)
    requires
        fits_key(host@),
    ensures
        final(store).sessions() == old(store).sessions().remove((host@, opponent@)),
        final(store).ledger() == old(store).ledger(),
        final(store).clutter().subset_of(old(store).clutter()),
{
    remove_game_record(store, host, opponent);
    proof {
        assert(store.sessions() =~= old(store).sessions().remove((host@, opponent@)));
        assert(store.ledger() =~= old(store).ledger());
    }
}

/// The games stored under the pairs that begin with `host`, by ascending
/// second name. It fails exactly where the storage holds, under `host`,
/// a key or a value that cannot be read; the error is the storage's.
pub fn list_games(store: &Store, host: &str) -> (r: Result<Vec<GameState>, StdError>)
    requires
        fits_key(host@),
    ensures
        r is Ok <==> !store.clutter().contains(host@),
        r matches Ok(found) ==> is_listing(games_view(found@), store.sessions(), host@),
{
    let records = match range_game_records(store, host) {
        Ok(records) => records,
        Err(e) => {
            return Err(e);
        },
    };
    let ghost raw = records.deep_view();
    let ghost all = games(*store);
    let ghost sessions = store.sessions();
    let mut found: Vec<GameState> = Vec::new();
    let ghost mut names: Seq<Seq<char>> = Seq::empty();
    let ghost mut origin: Seq<int> = Seq::empty();
    let mut i: usize = 0;
    while i < records.len()
        invariant
            i <= records.len(),
            raw == records.deep_view(),
            raw.len() == records.len(),
            all == games(*store),
            sessions == store.sessions(),
            lists_host(raw, all, host@),
            names.len() == found.len(),
            origin.len() == found.len(),
            forall|j: int| 0 <= j < origin.len() ==> 0 <= #[trigger] origin[j] < i && names[j] == raw[origin[j]].0,
            forall|j: int, k: int| 0 <= j < k < origin.len() ==> #[trigger] origin[j] < #[trigger] origin[k],
            forall|j: int| 0 <= j < names.len() ==> sessions.contains_pair((host@, #[trigger] names[j]), found[j]@),
            forall|k: int| 0 <= k < i && record_is_game((#[trigger] raw[k]).1) ==> names.contains(raw[k].0),
        decreases records.len() - i,
    {
        let ghost entry = raw[i as int];
        assert(entry == records[i as int].deep_view());
        assert(all.contains_pair((host@, entry.0), entry.1));
        match decode_game(&records[i].1) {
            Some(game) => {
                proof {
                    let ghost old_names = names;
                    names = names.push(entry.0);
                    origin = origin.push(i as int);
                    assert forall|k: int| 0 <= k < i + 1 && record_is_game((#[trigger] raw[k]).1) implies names.contains(raw[k].0) by {
                        if k < i {
                            let j = choose|j: int| 0 <= j < old_names.len() && old_names[j] == raw[k].0;
                            assert(names[j] == raw[k].0);
                        } else {
                            assert(names[names.len() - 1] == raw[k].0);
                        }
                    }
                }
                found.push(game);
            },
            None => {},
        }
        i += 1;
    }
    proof {
        let view = games_view(found@);
        assert forall|a: int, b: int| 0 <= a < b < names.len() implies name_before(#[trigger] names[a], #[trigger] names[b]) by {
            assert(origin[a] < origin[b]);
            assert(name_before(raw[origin[a]].0, raw[origin[b]].0));
        }
        assert forall|opponent: Seq<char>| #[trigger] sessions.dom().contains((host@, opponent)) implies names.contains(opponent) by {
            assert(all.dom().contains((host@, opponent)));
            let k = choose|k: int| 0 <= k < raw.len() && (#[trigger] raw[k]).0 == opponent;
            assert(all.contains_pair((host@, raw[k].0), raw[k].1));
        }
        assert forall|j: int| 0 <= j < names.len() implies sessions.contains_pair((host@, #[trigger] names[j]), view[j]) by {
            assert(view[j] == found[j]@);
        }
        assert(lists_games(names, view, sessions, host@));
        assert(lists_games(names, games_view(found@), store.sessions(), host@));
    }
    Ok(found)
}

/// The tally stored under `(host, opponent)`, if there is one.
pub fn load_board(store: &Store, host: &str, opponent: &str) -> (r: Option<Leaderboard>)
    requires
        fits_key(host@),
    ensures
        r is Some <==> store.ledger().dom().contains((host@, opponent@)),
        r matches Some(b) ==> b@ == store.ledger()[(host@, opponent@)],
{
    match load_board_record(store, host, opponent) {
        Ok(record) => Some(decode_board(&record)),
        Err(_) => None,
    }
}

/// Stores `board` under `(host, opponent)`. It succeeds exactly where
/// the storage takes the tally; where it does not, nothing changes. The
/// games are not touched.
pub fn save_board(store: &mut StoreMut, host: &str, opponent: &str, board: &Leaderboard) -> (r: Result<(), StdError>)
    requires
        fits_key(host@),
    ensures
        r is Ok <==> saves_board(board@),
        r is Ok ==> final(store).ledger() == old(store).ledger().insert((host@, opponent@), board@),
        r is Err ==> final(store).ledger() == old(store).ledger(),
        final(store).sessions() == old(store).sessions(),
        final(store).clutter() == old(store).clutter(),
{
    let record = encode_board(board);
    let r = save_board_record(store, host, opponent, &record);
    proof {
        if r is Ok {
            assert(store.ledger() =~= old(store).ledger().insert((host@, opponent@), board@));
        } else {
            assert(store.ledger() =~= old(store).ledger());
        }
        assert(store.sessions() =~= old(store).sessions());
    }
    r
}

} // verus!
