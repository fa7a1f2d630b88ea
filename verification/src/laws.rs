use vstd::prelude::*;
use vstd::utf8::encode_utf8;
use cosmwasm_std::StdError;
use crate::answer::{
    answer_refusal, board_key, board_so_far, counted_result, counter_of, ledger_after, raised,
    sessions_without,
};
use crate::start::{pending_game, sessions_with, start_refusal};
use crate::error::{generic_error, ContractErrorView};
use crate::msg::GetGamesResponse;
use crate::query::{lookup_outcome, no_game};
use crate::state::{counter_value, CoinView, GameMove, GameResult, GameStateView, LeaderboardView};
use crate::sessions::{is_listing, lists_games};
use crate::storage::{bytes_before, fits_key, name_before, Pair};

verus! {

/// Whether every stored game lies under both orders of a pair of players.
pub open spec fn sessions_mirrored(sessions: Map<Pair, GameStateView>) -> bool {
    forall|a: Seq<char>, b: Seq<char>| #[trigger]
        sessions.dom().contains((a, b)) ==> sessions.dom().contains((b, a)) && sessions[(b, a)] == sessions[(a, b)]
}

/// Whether no two players have a tally under both orders of the pair.
pub open spec fn ledger_single(ledger: Map<Pair, LeaderboardView>) -> bool {
    forall|a: Seq<char>, b: Seq<char>| #[trigger]
        ledger.dom().contains((a, b)) && a != b ==> !ledger.dom().contains((b, a))
}

/// The games that a tally has counted.
pub open spec fn games_counted(board: LeaderboardView) -> nat {
    counter_value(board.host_score) + counter_value(board.opp_score) + counter_value(board.ties)
}

/// A game that is started waits for its answer, carries a wager, and,
/// while the address validator hands the opponent's address back as it
/// stands, has two different players.
pub proof fn lemma_started_game_is_pending(
    sessions: Map<Pair, GameStateView>,
    sender: Seq<char>,
    opponent: Seq<char>,
    validated: Result<Seq<char>, StdError>,
    funds: Seq<CoinView>,
    host_move: GameMove,
)
    requires
        start_refusal(sessions, sender, opponent, validated, funds) is None,
    ensures
        validated is Ok,
        ({
            let game = pending_game(sender, validated->Ok_0, funds, host_move);
            let after = sessions_with(sessions, game);
            &&& game.host_wager.len() > 0
            &&& game.result is None && game.opp_move is None && game.opp_wager is None
            &&& validated->Ok_0 == opponent ==> game.host != game.opponent
            &&& after.contains_pair((game.host, game.opponent), game)
            &&& after.contains_pair((game.opponent, game.host), game)
            &&& forall|k: Pair|
                k != (game.host, game.opponent) && k != (game.opponent, game.host) ==> (
                #[trigger] after.dom().contains(k) <==> sessions.dom().contains(k)) && (sessions.dom().contains(k)
                    ==> after[k] == sessions[k])
        }),
{
}

/// Once a game is started, the same player cannot start another against
/// the same opponent, whatever move and funds come with the second try:
/// it is refused because the two already have a game.
pub proof fn lemma_second_start_refused(
    sessions: Map<Pair, GameStateView>,
    sender: Seq<char>,
    opponent: Seq<char>,
    validated: Result<Seq<char>, StdError>,
    funds: Seq<CoinView>,
    host_move: GameMove,
    later_funds: Seq<CoinView>,
)
    requires
        start_refusal(sessions, sender, opponent, validated, funds) is None,
    ensures
        validated is Ok,
        start_refusal(
            sessions_with(sessions, pending_game(sender, validated->Ok_0, funds, host_move)),
            sender,
            opponent,
            validated,
            later_funds,
        ) == Some(ContractErrorView::ActiveGameAlreadyExists),
{
}

/// Once a game is started, the opponent cannot start one against the
/// host either. Whatever the address validator says of the host's
/// address, short of turning it into another address, the try is
/// refused: because the validator rejects the address, or because the two
/// already have a game.
pub proof fn lemma_reverse_start_refused(
    sessions: Map<Pair, GameStateView>,
    sender: Seq<char>,
    opponent: Seq<char>,
    validated: Result<Seq<char>, StdError>,
    funds: Seq<CoinView>,
    host_move: GameMove,
    later_validated: Result<Seq<char>, StdError>,
    later_funds: Seq<CoinView>,
)
    requires
        start_refusal(sessions, sender, opponent, validated, funds) is None,
        later_validated matches Ok(address) ==> address == sender,
    ensures
        start_refusal(
            sessions_with(sessions, pending_game(sender, validated->Ok_0, funds, host_move)),
            validated->Ok_0,
            sender,
            later_validated,
            later_funds,
        ) == Some(
            if validated->Ok_0 == sender {
                ContractErrorView::HostAndOpponentCannotBeTheSame { val: sender }
            } else {
                match later_validated {
                    Ok(_) => ContractErrorView::ActiveGameAlreadyExists,
                    Err(e) => ContractErrorView::Std(e),
                }
            },
        ),
{
}

/// Starting a game keeps every stored game under both orders of its
/// players.
pub proof fn lemma_start_keeps_mirror(sessions: Map<Pair, GameStateView>, game: GameStateView)
    requires
        sessions_mirrored(sessions),
    ensures
        sessions_mirrored(sessions_with(sessions, game)),
{
    let after = sessions_with(sessions, game);
    assert forall|a: Seq<char>, b: Seq<char>| #[trigger] after.dom().contains((a, b)) implies after.dom().contains(
        (b, a),
    ) && after[(b, a)] == after[(a, b)] by {
        if (a, b) == (game.host, game.opponent) || (a, b) == (game.opponent, game.host) {
        } else {
            assert(sessions.dom().contains((a, b)));
        }
    }
}

/// Settling a game keeps every stored game under both orders of its
/// players.
pub proof fn lemma_answer_keeps_mirror(sessions: Map<Pair, GameStateView>, host: Seq<char>, opponent: Seq<char>)
    requires
        sessions_mirrored(sessions),
    ensures
        sessions_mirrored(sessions_without(sessions, host, opponent)),
{
    let after = sessions_without(sessions, host, opponent);
    assert forall|a: Seq<char>, b: Seq<char>| #[trigger] after.dom().contains((a, b)) implies after.dom().contains(
        (b, a),
    ) && after[(b, a)] == after[(a, b)] by {
        assert(sessions.dom().contains((a, b)));
    }
}

/// After a game is settled it cannot be looked up under either order of
/// its players, all other games are still there, and a second answer is
/// refused because there is no game.
pub proof fn lemma_settled_game_is_gone(
    sessions: Map<Pair, GameStateView>,
    ledger: Map<Pair, LeaderboardView>,
    host: Seq<char>,
    sender: Seq<char>,
    funds: Seq<CoinView>,
    opp_move: GameMove,
    later_ledger: Map<Pair, LeaderboardView>,
    later_funds: Seq<CoinView>,
    later_move: GameMove,
)
    requires
        answer_refusal(sessions, ledger, sender, Ok(host), funds, opp_move) is None,
    ensures
        !sessions_without(sessions, host, sender).dom().contains((host, sender)),
        !sessions_without(sessions, host, sender).dom().contains((sender, host)),
        forall|k: Pair|
            k != (host, sender) && k != (sender, host) ==> (#[trigger] sessions_without(
                sessions,
                host,
                sender,
            ).dom().contains(k) <==> sessions.dom().contains(k)) && (sessions.dom().contains(k)
                ==> sessions_without(sessions, host, sender)[k] == sessions[k]),
        answer_refusal(
            sessions_without(sessions, host, sender),
            later_ledger,
            sender,
            Ok(host),
            later_funds,
            later_move,
        ) == Some(ContractErrorView::GameNotFound),
{
}

/// After a game is settled, a lookup of it under either order of its
/// players gives an error and no game.
pub proof fn lemma_settled_game_lookup_fails(
    sessions: Map<Pair, GameStateView>,
    host: Seq<char>,
    sender: Seq<char>,
    first: Result<GetGamesResponse, StdError>,
    second: Result<GetGamesResponse, StdError>,
)
    requires
        lookup_outcome(sessions_without(sessions, host, sender), host, sender, first),
        lookup_outcome(sessions_without(sessions, host, sender), sender, host, second),
    ensures
        first is Err,
        second is Err,
        fits_key(host) ==> first == Err::<GetGamesResponse, StdError>(generic_error(no_game())),
        fits_key(sender) ==> second == Err::<GetGamesResponse, StdError>(generic_error(no_game())),
{
}

/// Counting a game raises exactly one counter of a tally, by exactly one,
/// and leaves the names and the other two counters as they were.
pub proof fn lemma_raised_one_counter(board: LeaderboardView, result: GameResult)
    ensures
        raised(board, result).host == board.host,
        raised(board, result).opponent == board.opponent,
        counter_value(counter_of(raised(board, result), result)) == counter_value(counter_of(board, result)) + 1,
        forall|other: GameResult|
            other != result ==> #[trigger] counter_of(raised(board, result), other) == counter_of(board, other),
        games_counted(raised(board, result)) == games_counted(board) + 1,
{
}

/// Settling a game changes the tally of its two players and no other:
/// the one row of the pair has one counter raised by one, every other
/// row is as it was.
pub proof fn lemma_settlement_counts_once(
    ledger: Map<Pair, LeaderboardView>,
    host: Seq<char>,
    opponent: Seq<char>,
    result: GameResult,
)
    ensures
        ({
            let key = board_key(ledger, host, opponent);
            let after = ledger_after(ledger, host, opponent, result);
            let counted = counted_result(ledger, host, opponent, result);
            &&& key == (host, opponent) || key == (opponent, host)
            &&& after.dom() == ledger.dom().insert(key)
            &&& after[key] == raised(board_so_far(ledger, host, opponent), counted)
            &&& games_counted(after[key]) == games_counted(board_so_far(ledger, host, opponent)) + 1
            &&& forall|k: Pair| k != key && #[trigger] ledger.dom().contains(k) ==> after[k] == ledger[k]
        }),
{
    lemma_raised_one_counter(
        board_so_far(ledger, host, opponent),
        counted_result(ledger, host, opponent, result),
    );
}

/// The tally counts a win for the player who won, whichever order the
/// pair was first recorded in: a win of the host raises the counter of
/// the row's host where the row begins with the host, and the counter of
/// the row's opponent where it begins with the opponent. A tie raises the
/// ties.
pub proof fn lemma_win_counted_for_winner(
    ledger: Map<Pair, LeaderboardView>,
    host: Seq<char>,
    opponent: Seq<char>,
    result: GameResult,
)
    ensures
        result == GameResult::Tie ==> counted_result(ledger, host, opponent, result) == GameResult::Tie,
        board_key(ledger, host, opponent) == (host, opponent) ==> counted_result(
            ledger,
            host,
            opponent,
            result,
        ) == result,
        board_key(ledger, host, opponent) != (host, opponent) && result == GameResult::HostWins
            ==> counted_result(ledger, host, opponent, result) == GameResult::OpponentWins,
        board_key(ledger, host, opponent) != (host, opponent) && result == GameResult::OpponentWins
            ==> counted_result(ledger, host, opponent, result) == GameResult::HostWins,
{
}

/// Settling a game never gives two players a second tally under the
/// other order of the pair.
pub proof fn lemma_settlement_keeps_one_row(
    ledger: Map<Pair, LeaderboardView>,
    host: Seq<char>,
    opponent: Seq<char>,
    result: GameResult,
)
    requires
        ledger_single(ledger),
    ensures
        ledger_single(ledger_after(ledger, host, opponent, result)),
{
    let after = ledger_after(ledger, host, opponent, result);
    let key = board_key(ledger, host, opponent);
    assert forall|a: Seq<char>, b: Seq<char>| #[trigger] after.dom().contains((a, b)) && a != b implies !after.dom().contains(
        (b, a),
    ) by {
        if (a, b) == key {
            if ledger.dom().contains((b, a)) {
                assert(ledger.dom().contains((a, b)) || !ledger.dom().contains((b, a)));
            }
        } else {
            assert(ledger.dom().contains((a, b)));
            if (b, a) == key {
                assert(ledger.dom().contains((b, a)) || !ledger.dom().contains((a, b)));
            }
        }
    }
}

/// No byte string comes before itself, and of two byte strings at most
/// one comes before the other.
pub proof fn lemma_bytes_order_strict(a: Seq<u8>, b: Seq<u8>)
    ensures
        !bytes_before(a, a),
        bytes_before(a, b) ==> !bytes_before(b, a),
    decreases a.len(),
{
    if a.len() > 0 {
        lemma_bytes_order_strict(a.drop_first(), a.drop_first());
        if b.len() > 0 && a[0] == b[0] {
            lemma_bytes_order_strict(a.drop_first(), b.drop_first());
        }
    }
}

/// Whether the names of a list come in ascending order of the storage's
/// keys.
pub open spec fn ascending(names: Seq<Seq<char>>) -> bool {
    forall|i: int, j: int| 0 <= i < j < names.len() ==> name_before(#[trigger] names[i], #[trigger] names[j])
}

/// Two ascending lists of the same names are the same list.
pub proof fn lemma_ascending_unique(a: Seq<Seq<char>>, b: Seq<Seq<char>>)
    requires
        ascending(a),
        ascending(b),
        forall|x: Seq<char>| a.contains(x) <==> b.contains(x),
    ensures
        a == b,
    decreases a.len(),
{
    if a.len() == 0 {
        if b.len() > 0 {
            assert(b.contains(b[0]));
        }
        assert(a =~= b);
    } else {
        assert(a.contains(a[0]));
        assert(b.contains(a[0]));
        assert(b.contains(b[0]));
        assert(a.contains(b[0]));
        let i = choose|i: int| 0 <= i < a.len() && a[i] == b[0];
        let j = choose|j: int| 0 <= j < b.len() && b[j] == a[0];
        lemma_bytes_order_strict(encode_utf8(a[0]), encode_utf8(b[0]));
        assert(a[0] == b[0]) by {
            if i > 0 && j > 0 {
                assert(name_before(a[0], a[i]));
                assert(name_before(b[0], b[j]));
            } else if i > 0 {
                assert(name_before(a[0], a[i]));
            } else if j > 0 {
                assert(name_before(b[0], b[j]));
            }
        }
        let ta = a.drop_first();
        let tb = b.drop_first();
        assert(ascending(ta)) by {
            assert forall|i: int, j: int| 0 <= i < j < ta.len() implies name_before(
                #[trigger] ta[i],
                #[trigger] ta[j],
            ) by {
                assert(ta[i] == a[i + 1] && ta[j] == a[j + 1]);
            }
        }
        assert(ascending(tb)) by {
            assert forall|i: int, j: int| 0 <= i < j < tb.len() implies name_before(
                #[trigger] tb[i],
                #[trigger] tb[j],
            ) by {
                assert(tb[i] == b[i + 1] && tb[j] == b[j + 1]);
            }
        }
        assert forall|x: Seq<char>| ta.contains(x) <==> tb.contains(x) by {
            lemma_bytes_order_strict(encode_utf8(x), encode_utf8(x));
            if ta.contains(x) {
                let k = choose|k: int| 0 <= k < ta.len() && ta[k] == x;
                assert(a[k + 1] == x);
                assert(name_before(a[0], a[k + 1]));
                assert(a.contains(x));
                let m = choose|m: int| 0 <= m < b.len() && b[m] == x;
                assert(m > 0);
                assert(tb[m - 1] == x);
            }
            if tb.contains(x) {
                let k = choose|k: int| 0 <= k < tb.len() && tb[k] == x;
                assert(b[k + 1] == x);
                assert(name_before(b[0], b[k + 1]));
                assert(b.contains(x));
                let m = choose|m: int| 0 <= m < a.len() && a[m] == x;
                assert(m > 0);
                assert(ta[m - 1] == x);
            }
        }
        lemma_ascending_unique(ta, tb);
        assert(a =~= seq![a[0]] + ta);
        assert(b =~= seq![b[0]] + tb);
    }
}

/// The stored games decide the list of a host's games: two lists of the
/// games under the pairs that begin with `host` are the same list.
pub proof fn lemma_listing_unique(
    first: Seq<GameStateView>,
    second: Seq<GameStateView>,
    sessions: Map<Pair, GameStateView>,
    host: Seq<char>,
)
    requires
        is_listing(first, sessions, host),
        is_listing(second, sessions, host),
    ensures
        first == second,
{
    let a = choose|names: Seq<Seq<char>>| #[trigger] lists_games(names, first, sessions, host);
    let b = choose|names: Seq<Seq<char>>| #[trigger] lists_games(names, second, sessions, host);
    assert forall|x: Seq<char>| a.contains(x) <==> b.contains(x) by {
        if a.contains(x) {
            let k = choose|k: int| 0 <= k < a.len() && a[k] == x;
            assert(sessions.contains_pair((host, a[k]), first[k]));
        }
        if b.contains(x) {
            let k = choose|k: int| 0 <= k < b.len() && b[k] == x;
            assert(sessions.contains_pair((host, b[k]), second[k]));
        }
    }
    lemma_ascending_unique(a, b);
    assert(first =~= second) by {
        assert forall|k: int| 0 <= k < first.len() implies first[k] == second[k] by {
            assert(sessions.contains_pair((host, a[k]), first[k]));
            assert(sessions.contains_pair((host, b[k]), second[k]));
        }
    }
}

/// Whether `game` is stored under a pair that begins with `host`.
pub open spec fn stored_under(sessions: Map<Pair, GameStateView>, host: Seq<char>, game: GameStateView) -> bool {
    exists|other: Seq<char>| #[trigger] sessions.contains_pair((host, other), game)
}

/// A list of a host's games holds each of the host's stored games, and
/// nothing else.
pub proof fn lemma_listing_complete(
    found: Seq<GameStateView>,
    sessions: Map<Pair, GameStateView>,
    host: Seq<char>,
    opponent: Seq<char>,
)
    requires
        is_listing(found, sessions, host),
    ensures
        sessions.dom().contains((host, opponent)) ==> found.contains(sessions[(host, opponent)]),
        forall|k: int| 0 <= k < found.len() ==> stored_under(sessions, host, #[trigger] found[k]),
{
    let names = choose|names: Seq<Seq<char>>| #[trigger] lists_games(names, found, sessions, host);
    if sessions.dom().contains((host, opponent)) {
        assert(names.contains(opponent));
        let k = choose|k: int| 0 <= k < names.len() && names[k] == opponent;
        assert(sessions.contains_pair((host, names[k]), found[k]));
    }
    assert forall|k: int| 0 <= k < found.len() implies stored_under(sessions, host, #[trigger] found[k]) by {
        assert(sessions.contains_pair((host, names[k]), found[k]));
    }
}

} // verus!
