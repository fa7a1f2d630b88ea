use vstd::prelude::*;
use vstd::string::StringExecFns;
use cosmwasm_std::StdError;
use crate::error::{
    generic_error, key_too_long, too_long, validation_view, ContractError, ContractErrorView,
};
use crate::msg::{attr, Attribute, BankMsgView, MessageInfo, Response, ResponseView};
use crate::outcome::{game_result, get_game_result, mirrored};
use crate::sessions::{load_board, load_game, name_fits, remove_game, save_board, saves_board};
use crate::settlement::{payable, payouts, send_funds_to_winner};
use crate::state::{
    coins_view, counter_value, CoinView, GameMove, GameResult, GameState, GameStateView,
    Leaderboard, LeaderboardView,
};
use crate::storage::{fits_key, reader, Pair, Store, StoreMut};
use crate::wager::{clone_coins, coins_equal};

verus! {

/// The key under which the tally of `host` and `opponent` lies: the
/// order in which the pair was first recorded, and `(host, opponent)`
/// where it never was.
pub open spec fn board_key(ledger: Map<Pair, LeaderboardView>, host: Seq<char>, opponent: Seq<char>) -> Pair {
    if !ledger.dom().contains((host, opponent)) && ledger.dom().contains((opponent, host)) {
        (opponent, host)
    } else {
        (host, opponent)
    }
}

/// The tally of `host` and `opponent` so far: the stored one, or a fresh
/// one with no counter raised.
pub open spec fn board_so_far(ledger: Map<Pair, LeaderboardView>, host: Seq<char>, opponent: Seq<char>) -> LeaderboardView {
    let key = board_key(ledger, host, opponent);
    if ledger.dom().contains(key) {
        ledger[key]
    } else {
        LeaderboardView { host, opponent, host_score: None, opp_score: None, ties: None }
    }
}

/// A result of a game of `host` against `opponent`, as the pair's tally
/// counts it: seen from the other seat where the tally was first recorded
/// in the other order.
pub open spec fn counted_result(
    ledger: Map<Pair, LeaderboardView>,
    host: Seq<char>,
    opponent: Seq<char>,
    result: GameResult,
) -> GameResult {
    seen_from(result, board_key(ledger, host, opponent) != (host, opponent))
}

/// A result as a tally counts it, where `swapped` says that the tally
/// names the two players in the other order than the game.
pub open spec fn seen_from(result: GameResult, swapped: bool) -> GameResult {
    if swapped {
        mirrored(result)
    } else {
        result
    }
}

/// The counter of a tally that a result raises.
pub open spec fn counter_of(board: LeaderboardView, result: GameResult) -> Option<nat> {
    match result {
        GameResult::HostWins => board.host_score,
        GameResult::OpponentWins => board.opp_score,
        GameResult::Tie => board.ties,
    }
}

/// Whether the counter that a result raises can be raised in 128 bits.
pub open spec fn can_raise(board: LeaderboardView, result: GameResult) -> bool {
    counter_value(counter_of(board, result)) + 1 <= u128::MAX
}

/// A tally after one more game: the counter of the result is one higher,
/// the rest is as before.
pub open spec fn raised(board: LeaderboardView, result: GameResult) -> LeaderboardView {
    let next = Some(counter_value(counter_of(board, result)) + 1);
    match result {
        GameResult::HostWins => LeaderboardView { host_score: next, ..board },
        GameResult::OpponentWins => LeaderboardView { opp_score: next, ..board },
        GameResult::Tie => LeaderboardView { ties: next, ..board },
    }
}

/// Why an answer is refused, if it is: the validator rejected the host's
/// address, a name is too long for a key, no game waits under
/// `(host, sender)`, the funds differ from the host's wager, or a payout
/// or the tally would overflow. The first that applies decides.
pub open spec fn answer_refusal(
    sessions: Map<Pair, GameStateView>,
    ledger: Map<Pair, LeaderboardView>,
    sender: Seq<char>,
    validated: Result<Seq<char>, StdError>,
    funds: Seq<CoinView>,
    opp_move: GameMove,
) -> Option<ContractErrorView> {
    match validated {
        Err(e) => Some(ContractErrorView::Std(e)),
        Ok(host) => if !fits_key(host) || !fits_key(sender) {
            Some(ContractErrorView::Std(generic_error(too_long())))
        } else if !sessions.dom().contains((host, sender)) {
            Some(ContractErrorView::GameNotFound)
        } else {
            settlement_refusal(
                sessions[(host, sender)],
                funds,
                opp_move,
                board_so_far(ledger, host, sender),
                board_key(ledger, host, sender) != (host, sender),
            )
        },
    }
}

/// Why a game that was found is not settled, if it is not: the funds
/// differ from the host's wager, or a payout or the tally would overflow.
/// The first that applies decides. `board` is the tally of the two
/// players so far, `swapped` says that it names them in the other order.
pub open spec fn settlement_refusal(
    game: GameStateView,
    funds: Seq<CoinView>,
    opp_move: GameMove,
    board: LeaderboardView,
    swapped: bool,
) -> Option<ContractErrorView> {
    let result = game_result(game.host_move, opp_move);
    if funds != game.host_wager {
        Some(ContractErrorView::InsufficientWagerAmount)
    } else if !payable(result, game.host_wager, funds) {
        Some(ContractErrorView::CounterOverflow)
    } else if !can_raise(board, seen_from(result, swapped)) {
        Some(ContractErrorView::CounterOverflow)
    } else {
        None
    }
}

/// The stored games after the game of `host` and `opponent` was settled:
/// it lies under neither order of the two.
pub open spec fn sessions_without(sessions: Map<Pair, GameStateView>, host: Seq<char>, opponent: Seq<char>) -> Map<Pair, GameStateView> {
    sessions.remove((host, opponent)).remove((opponent, host))
}

/// The stored tallies after a game of `host` against `opponent` ended
/// with `result`.
pub open spec fn ledger_after(
    ledger: Map<Pair, LeaderboardView>,
    host: Seq<char>,
    opponent: Seq<char>,
    result: GameResult,
) -> Map<Pair, LeaderboardView> {
    ledger.insert(
        board_key(ledger, host, opponent),
        raised(board_so_far(ledger, host, opponent), counted_result(ledger, host, opponent, result)),
    )
}

/// The answer to a settled game.
pub open spec fn answer_response(host: Seq<char>, opponent: Seq<char>, messages: Seq<BankMsgView>) -> ResponseView {
    ResponseView {
        messages,
        attributes: seq![
            ("execute"@, "opponent_response"@),
            ("host"@, host),
            ("opponent"@, opponent),
        ],
    }
}

/// Raises a counter by one; `None` if it does not fit.
pub fn raise_counter(counter: Option<u128>) -> (r: Option<u128>)
    ensures
        match counter {
            Some(n) => r == if n < u128::MAX {
                Some((n + 1) as u128)
            } else {
                None
            },
            None => r == Some(1u128),
        },
{
    match counter {
        Some(n) => n.checked_add(1),
        None => Some(1),
    }
}

/// Counts one more game in a tally; `None` if the counter does not fit.
pub fn raise_board(board: Leaderboard, result: GameResult) -> (r: Option<Leaderboard>)
    ensures
        r is Some <==> can_raise(board@, result),
        r matches Some(next) ==> next@ == raised(board@, result),
{
    match result {
        GameResult::HostWins => match raise_counter(board.host_score) {
            Some(n) => Some(Leaderboard { host_score: Some(n), ..board }),
            None => None,
        },
        GameResult::OpponentWins => match raise_counter(board.opp_score) {
            Some(n) => Some(Leaderboard { opp_score: Some(n), ..board }),
            None => None,
        },
        GameResult::Tie => match raise_counter(board.ties) {
            Some(n) => Some(Leaderboard { ties: Some(n), ..board }),
            None => None,
        },
    }
}

/// A result seen from the other seat.
pub fn mirror(result: GameResult) -> (r: GameResult)
    ensures
        r == mirrored(result),
{
    match result {
        GameResult::HostWins => GameResult::OpponentWins,
        GameResult::OpponentWins => GameResult::HostWins,
        GameResult::Tie => GameResult::Tie,
    }
}

/// The tally of `host` and `opponent` so far, and whether it was first
/// recorded in the other order.
pub fn find_board(store: &Store, host: &String, opponent: &String) -> (r: (Leaderboard, bool))
    requires
        fits_key(host@),
        fits_key(opponent@),
    ensures
        r.0@ == board_so_far(store.ledger(), host@, opponent@),
        r.1 == (board_key(store.ledger(), host@, opponent@) != (host@, opponent@)),
{
    match load_board(store, host.as_str(), opponent.as_str()) {
        Some(board) => (board, false),
        None => match load_board(store, opponent.as_str(), host.as_str()) {
            Some(board) => (board, true),
            None => (
                Leaderboard {
                    host: host.clone(),
                    opponent: opponent.clone(),
                    host_score: None,
                    opp_score: None,
                    ties: None,
                },
                false,
            ),
        },
    }
}

/// A settled game: how it ended, the pair's tally with the game counted,
/// and the answer with the payments.
#[derive(Clone, Debug, PartialEq, Eq)]
pub struct Settlement {
    pub result: GameResult,
    pub board: Leaderboard,
    pub response: Response,
}

/// Settles a game that was found under `(host, sender)`: compares the
/// attached funds with the host's wager, decides the game, counts it and
/// computes the payments, unless the answer is refused. `board` is the
/// tally so far, `swapped` says that it names the two players in the
/// other order.
pub fn settle_game(
    game: GameState,
    info: &MessageInfo,
    host: &String,
    opp_move: GameMove,
    board: Leaderboard,
    swapped: bool,
) -> (r: Result<Settlement, ContractError>)
    ensures
        match settlement_refusal(game@, coins_view(info.funds@), opp_move, board@, swapped) {
            Some(refusal) => r matches Err(e) && e@ == refusal,
            None => {
                &&& r matches Ok(settled)
                &&& settled.result == game_result(game@.host_move, opp_move)
                &&& settled.board@ == raised(board@, seen_from(settled.result, swapped))
                &&& settled.response@ == answer_response(
                    host@,
                    info.sender@,
                    payouts(settled.result, game@.host_wager, coins_view(info.funds@), host@, info.sender@),
                )
            },
        },
{
    if !coins_equal(&info.funds, &game.host_wager) {
        return Err(ContractError::InsufficientWagerAmount {  });
    }
    let result = match get_game_result(&game.host_move, &opp_move) {
        Ok(result) => result,
        Err(e) => {
            return Err(ContractError::from(e));
        },
    };
    let counted = if swapped {
        mirror(result)
    } else {
        result
    };
    let bank_msgs = match send_funds_to_winner(
        result,
        clone_coins(&info.funds),
        game.host_wager,
        host.clone(),
        info.sender.clone(),
    ) {
        Ok(msgs) => msgs,
        Err(e) => {
            return Err(e);
        },
    };
    let next = match raise_board(board, counted) {
        Some(next) => next,
        None => {
            return Err(ContractError::CounterOverflow {  });
        },
    };
    let mut attributes: Vec<Attribute> = Vec::new();
    attributes.push(attr("execute", String::from_str("opponent_response")));
    attributes.push(attr("host", host.clone()));
    attributes.push(attr("opponent", info.sender.clone()));
    let response = Response { messages: bank_msgs, attributes };
    proof {
        assert(response@.attributes =~= answer_response(host@, info.sender@, response@.messages).attributes);
    }
    Ok(Settlement { result, board: next, response })
}

/// What answering a game does: `before` and `after` are the storage
/// around the call, `r` is what the call returned. A refused answer
/// changes nothing and gives the refusal. An accepted answer deletes the
/// game under both orders of the two players, raises one counter of their
/// tally and gives the payments, where the storage takes the tally; where
/// it does not, nothing changes and the storage's error is returned. No
/// host's games become unlistable.
pub open spec fn answer_outcome(
    before: StoreMut,
    after: StoreMut,
    info: MessageInfo,
    host: Result<String, StdError>,
    opp_move: GameMove,
    r: Result<Response, ContractError>,
) -> bool {
    let refusal = answer_refusal(
        before.sessions(),
        before.ledger(),
        info.sender@,
        validation_view(host),
        coins_view(info.funds@),
        opp_move,
    );
    &&& after.clutter().subset_of(before.clutter())
    &&& match refusal {
        Some(refused) => {
            &&& r matches Err(e)
            &&& e@ == refused
            &&& after.sessions() == before.sessions()
            &&& after.ledger() == before.ledger()
        },
        None => {
            let address = host->Ok_0@;
            let game = before.sessions()[(address, info.sender@)];
            let result = game_result(game.host_move, opp_move);
            if saves_board(
                raised(
                    board_so_far(before.ledger(), address, info.sender@),
                    counted_result(before.ledger(), address, info.sender@, result),
                ),
            ) {
                &&& r matches Ok(response)
                &&& response@ == answer_response(
                    address,
                    info.sender@,
                    payouts(result, game.host_wager, coins_view(info.funds@), address, info.sender@),
                )
                &&& after.sessions() == sessions_without(before.sessions(), address, info.sender@)
                &&& after.ledger() == ledger_after(before.ledger(), address, info.sender@, result)
            } else {
                &&& r matches Err(e)
                &&& e@ is Std
                &&& after.sessions() == before.sessions()
                &&& after.ledger() == before.ledger()
            }
        },
    }
}

/// Answers the game that `host` started against the sender: compares the
/// attached funds with the host's wager, decides the game, counts it in
/// the pair's tally, deletes the game under both orders of the two
/// players and returns the payments. `host` is what the chain's address
/// validator said of the host's address. Where the answer is refused,
/// nothing changes.
pub fn try_opponent_response(
    store: &mut StoreMut,
    info: MessageInfo,
    host: Result<String, StdError>,
    opp_move: GameMove,
) -> (r: Result<Response, ContractError>)
    ensures
        answer_outcome(*old(store), *final(store), info, host, opp_move, r),
{
    let address = match host {
        Ok(address) => address,
        Err(e) => {
            return Err(ContractError::from(e));
        },
    };
    if !name_fits(address.as_str()) || !name_fits(info.sender.as_str()) {
        return Err(ContractError::from(key_too_long()));
    }
    let game = match load_game(&reader(store), address.as_str(), info.sender.as_str()) {
        Some(game) => game,
        None => {
            return Err(ContractError::GameNotFound {  });
        },
    };
    let found = find_board(&reader(store), &address, &info.sender);
    let settled = match settle_game(game, &info, &address, opp_move, found.0, found.1) {
        Ok(settled) => settled,
        Err(e) => {
            return Err(e);
        },
    };
    let saved = if found.1 {
        save_board(store, info.sender.as_str(), address.as_str(), &settled.board)
    } else {
        save_board(store, address.as_str(), info.sender.as_str(), &settled.board)
    };
    match saved {
        Ok(()) => {},
        Err(e) => {
            return Err(ContractError::from(e));
        },
    }
    remove_game(store, address.as_str(), info.sender.as_str());
    remove_game(store, info.sender.as_str(), address.as_str());
    Ok(settled.response)
}

} // verus!
