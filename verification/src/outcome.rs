use vstd::prelude::*;
use cosmwasm_std::StdError;
use crate::state::{GameMove, GameResult};

verus! {

/// Whether move `a` defeats move `b`: rock breaks scissors, scissors cut
/// paper, paper wraps rock.
pub open spec fn beats(a: GameMove, b: GameMove) -> bool {
    ||| a == GameMove::Rock && b == GameMove::Scissors
    ||| a == GameMove::Scissors && b == GameMove::Paper
    ||| a == GameMove::Paper && b == GameMove::Rock
}

/// The result of a game in which the host played `host_move` and the
/// opponent `opp_move`.
pub open spec fn game_result(host_move: GameMove, opp_move: GameMove) -> GameResult {
    if host_move == opp_move {
        GameResult::Tie
    } else if beats(host_move, opp_move) {
        GameResult::HostWins
    } else {
        GameResult::OpponentWins
    }
}

/// The same result, seen from the other seat.
pub open spec fn mirrored(r: GameResult) -> GameResult {
    match r {
        GameResult::HostWins => GameResult::OpponentWins,
        GameResult::OpponentWins => GameResult::HostWins,
        GameResult::Tie => GameResult::Tie,
    }
}

/// Decides a game. It never fails.
pub fn get_game_result(host_move: &GameMove, opp_move: &GameMove) -> (r: Result<GameResult, StdError>)
    ensures
        r == Ok::<GameResult, StdError>(game_result(*host_move, *opp_move)),
{
    let h = *host_move;
    let o = *opp_move;
    if h == o {
        Ok(GameResult::Tie)
    } else if h == GameMove::Rock && o == GameMove::Paper
        || h == GameMove::Paper && o == GameMove::Scissors
        || h == GameMove::Scissors && o == GameMove::Rock {
        Ok(GameResult::OpponentWins)
    } else {
        Ok(GameResult::HostWins)
    }
}

/// Equal moves tie, and only equal moves do.
pub proof fn lemma_tie_iff_equal_moves(a: GameMove, b: GameMove)
    ensures
        game_result(a, a) == GameResult::Tie,
        game_result(a, b) == GameResult::Tie <==> a == b,
{
}

/// Swapping the seats swaps the winner: the host wins a game exactly when
/// the opponent wins the game with the moves exchanged.
pub proof fn lemma_result_antisymmetric(a: GameMove, b: GameMove)
    ensures
        game_result(b, a) == mirrored(game_result(a, b)),
        game_result(a, b) == GameResult::HostWins <==> game_result(b, a) == GameResult::OpponentWins,
        game_result(a, b) == GameResult::OpponentWins <==> game_result(b, a) == GameResult::HostWins,
{
}

/// Of two different moves exactly one defeats the other.
pub proof fn lemma_one_move_wins(a: GameMove, b: GameMove)
    requires
        a != b,
    ensures
        beats(a, b) != beats(b, a),
{
}

} // verus!
