use vstd::prelude::*;
use crate::state::{
    coins_view, counter_view, Coin, CoinView, GameMove, GameResult, GameState, GameStateView,
    Leaderboard, LeaderboardView,
};
use crate::storage::{BoardRecord, BoardRecordView, GameRecord, GameRecordView};

verus! {

/// The code under which a move is stored.
pub open spec fn move_code(m: GameMove) -> u8 {
    match m {
        GameMove::Rock => 0,
        GameMove::Paper => 1,
        GameMove::Scissors => 2,
    }
}

/// The move that a code stands for, if it stands for one.
pub open spec fn move_of_code(code: u8) -> Option<GameMove> {
    if code == 0 {
        Some(GameMove::Rock)
    } else if code == 1 {
        Some(GameMove::Paper)
    } else if code == 2 {
        Some(GameMove::Scissors)
    } else {
        None
    }
}

/// The code under which a result is stored.
pub open spec fn result_code(r: GameResult) -> u8 {
    match r {
        GameResult::HostWins => 0,
        GameResult::OpponentWins => 1,
        GameResult::Tie => 2,
    }
}

/// The result that a code stands for, if it stands for one.
pub open spec fn result_of_code(code: u8) -> Option<GameResult> {
    if code == 0 {
        Some(GameResult::HostWins)
    } else if code == 1 {
        Some(GameResult::OpponentWins)
    } else if code == 2 {
        Some(GameResult::Tie)
    } else {
        None
    }
}

/// A wager as it is stored: pairs of denomination and amount.
pub open spec fn pairs_of_coins(coins: Seq<CoinView>) -> Seq<(Seq<char>, u128)> {
    coins.map_values(|c: CoinView| (c.denom, c.amount as u128))
}

/// The wager that stored pairs stand for.
pub open spec fn coins_of_pairs(pairs: Seq<(Seq<char>, u128)>) -> Seq<CoinView> {
    pairs.map_values(|p: (Seq<char>, u128)| CoinView { denom: p.0, amount: p.1 as nat })
}

/// Whether every amount of a wager fits in 128 bits.
pub open spec fn coins_storable(coins: Seq<CoinView>) -> bool {
    forall|i: int| 0 <= i < coins.len() ==> (#[trigger] coins[i]).amount <= u128::MAX
}

/// Whether a game can be stored: its amounts fit in 128 bits.
pub open spec fn game_storable(g: GameStateView) -> bool {
    &&& coins_storable(g.host_wager)
    &&& g.opp_wager matches Some(w) ==> coins_storable(w)
}

/// The record under which a game is stored.
pub open spec fn record_of_game(g: GameStateView) -> GameRecordView {
    (
        g.host,
        g.opponent,
        pairs_of_coins(g.host_wager),
        match g.opp_wager {
            Some(w) => Some(pairs_of_coins(w)),
            None => None,
        },
        move_code(g.host_move),
        match g.opp_move {
            Some(m) => Some(move_code(m)),
            None => None,
        },
        match g.result {
            Some(r) => Some(result_code(r)),
            None => None,
        },
    )
}

/// Whether a stored record stands for a game: its codes are those of
/// moves and of a result.
pub open spec fn record_is_game(r: GameRecordView) -> bool {
    &&& move_of_code(r.4) is Some
    &&& r.5 matches Some(code) ==> move_of_code(code) is Some
    &&& r.6 matches Some(code) ==> result_of_code(code) is Some
}

/// The game that a stored record stands for.
pub open spec fn game_of_record(r: GameRecordView) -> GameStateView {
    GameStateView {
        host: r.0,
        opponent: r.1,
        host_wager: coins_of_pairs(r.2),
        opp_wager: match r.3 {
            Some(w) => Some(coins_of_pairs(w)),
            None => None,
        },
        host_move: move_of_code(r.4).unwrap(),
        opp_move: match r.5 {
            Some(code) => move_of_code(code),
            None => None,
        },
        result: match r.6 {
            Some(code) => result_of_code(code),
            None => None,
        },
    }
}

/// Storing a wager and reading it back gives the same wager.
pub proof fn lemma_coins_round_trip(coins: Seq<CoinView>)
    requires
        coins_storable(coins),
    ensures
        coins_of_pairs(pairs_of_coins(coins)) == coins,
{
    assert(coins_of_pairs(pairs_of_coins(coins)) =~= coins) by {
        assert forall|i: int| 0 <= i < coins.len() implies coins_of_pairs(pairs_of_coins(coins))[i] == coins[i] by {
            assert(coins[i].amount <= u128::MAX);
        }
    }
}

/// Storing a game and reading it back gives the same game.
pub proof fn lemma_record_round_trip(g: GameStateView)
    requires
        game_storable(g),
    ensures
        record_is_game(record_of_game(g)),
        game_of_record(record_of_game(g)) == g,
{
    lemma_coins_round_trip(g.host_wager);
    if let Some(w) = g.opp_wager {
        lemma_coins_round_trip(w);
    }
}

/// The record under which a tally is stored.
pub open spec fn record_of_board(b: LeaderboardView) -> BoardRecordView {
    (
        b.host,
        b.opponent,
        match b.host_score {
            Some(n) => Some(n as u128),
            None => None,
        },
        match b.opp_score {
            Some(n) => Some(n as u128),
            None => None,
        },
        match b.ties {
            Some(n) => Some(n as u128),
            None => None,
        },
    )
}

/// The tally that a stored record stands for.
pub open spec fn board_of_record(r: BoardRecordView) -> LeaderboardView {
    LeaderboardView {
        host: r.0,
        opponent: r.1,
        host_score: counter_view(r.2),
        opp_score: counter_view(r.3),
        ties: counter_view(r.4),
    }
}

/// A game that a program holds can be stored.
pub proof fn lemma_game_storable(g: GameState)
    ensures
        game_storable(g@),
{
    assert(coins_storable(coins_view(g.host_wager@)));
    if let Some(w) = g.opp_wager {
        assert(coins_storable(coins_view(w@)));
    }
}

fn encode_coins(coins: &Vec<Coin>) -> (r: Vec<(String, u128)>)
    ensures
        r.deep_view() == pairs_of_coins(coins_view(coins@)),
{
    let mut out: Vec<(String, u128)> = Vec::new();
    let mut i: usize = 0;
    while i < coins.len()
        invariant
            i <= coins.len(),
            out.len() == i,
            forall|j: int| 0 <= j < i ==> (#[trigger] out[j]).0@ == coins[j].denom@ && out[j].1 == coins[j].amount,
        decreases coins.len() - i,
    {
        out.push((coins[i].denom.clone(), coins[i].amount));
        i += 1;
    }
    assert(out.deep_view() =~= pairs_of_coins(coins_view(coins@)));
    out
}

fn decode_coins(pairs: &Vec<(String, u128)>) -> (r: Vec<Coin>)
    ensures
        coins_view(r@) == coins_of_pairs(pairs.deep_view()),
{
    let mut out: Vec<Coin> = Vec::new();
    let mut i: usize = 0;
    while i < pairs.len()
        invariant
            i <= pairs.len(),
            out.len() == i,
            forall|j: int| 0 <= j < i ==> (#[trigger] out[j]).denom@ == pairs[j].0@ && out[j].amount == pairs[j].1,
        decreases pairs.len() - i,
    {
        out.push(Coin { denom: pairs[i].0.clone(), amount: pairs[i].1 });
        i += 1;
    }
    assert(coins_view(out@) =~= coins_of_pairs(pairs.deep_view()));
    out
}

fn encode_move(m: GameMove) -> (code: u8)
    ensures
        code == move_code(m),
{
    match m {
        GameMove::Rock => 0,
        GameMove::Paper => 1,
        GameMove::Scissors => 2,
    }
}

fn decode_move(code: u8) -> (m: Option<GameMove>)
    ensures
        m == move_of_code(code),
{
    if code == 0 {
        Some(GameMove::Rock)
    } else if code == 1 {
        Some(GameMove::Paper)
    } else if code == 2 {
        Some(GameMove::Scissors)
    } else {
        None
    }
}

fn encode_result(r: GameResult) -> (code: u8)
    ensures
        code == result_code(r),
{
    match r {
        GameResult::HostWins => 0,
        GameResult::OpponentWins => 1,
        GameResult::Tie => 2,
    }
}

fn decode_result(code: u8) -> (r: Option<GameResult>)
    ensures
        r == result_of_code(code),
{
    if code == 0 {
        Some(GameResult::HostWins)
    } else if code == 1 {
        Some(GameResult::OpponentWins)
    } else if code == 2 {
        Some(GameResult::Tie)
    } else {
        None
    }
}

/// Makes the record under which a game is stored.
pub fn encode_game(g: &GameState) -> (r: GameRecord)
    ensures
        r.deep_view() == record_of_game(g@),
{
    let opp_wager = match &g.opp_wager {
        Some(w) => Some(encode_coins(w)),
        None => None,
    };
    let opp_move = match g.opp_move {
        Some(m) => Some(encode_move(m)),
        None => None,
    };
    let result = match g.result {
        Some(r) => Some(encode_result(r)),
        None => None,
    };
    (
        g.host.clone(),
        g.opponent.clone(),
        encode_coins(&g.host_wager),
        opp_wager,
        encode_move(g.host_move),
        opp_move,
        result,
    )
}

/// Reads a game out of a stored record; `None` where a code in it stands
/// for no move or for no result.
pub fn decode_game(r: &GameRecord) -> (g: Option<GameState>)
    ensures
        g is Some <==> record_is_game(r.deep_view()),
        g matches Some(game) ==> game@ == game_of_record(r.deep_view()),
{
    let host_move = match decode_move(r.4) {
        Some(m) => m,
        None => {
            return None;
        },
    };
    let opp_move = match r.5 {
        Some(code) => match decode_move(code) {
            Some(m) => Some(m),
            None => {
                return None;
            },
        },
        None => None,
    };
    let result = match r.6 {
        Some(code) => match decode_result(code) {
            Some(res) => Some(res),
            None => {
                return None;
            },
        },
        None => None,
    };
    let opp_wager = match &r.3 {
        Some(w) => Some(decode_coins(w)),
        None => None,
    };
    Some(
        GameState {
            host: r.0.clone(),
            opponent: r.1.clone(),
            host_wager: decode_coins(&r.2),
            opp_wager,
            host_move,
            opp_move,
            result,
        },
    )
}

/// Makes the record under which a tally is stored.
pub fn encode_board(b: &Leaderboard) -> (r: BoardRecord)
    ensures
        r.deep_view() == record_of_board(b@),
        board_of_record(r.deep_view()) == b@,
{
    (b.host.clone(), b.opponent.clone(), b.host_score, b.opp_score, b.ties)
}

/// Reads a tally out of a stored record.
pub fn decode_board(r: &BoardRecord) -> (b: Leaderboard)
    ensures
        b@ == board_of_record(r.deep_view()),
{
    Leaderboard {
        host: r.0.clone(),
        opponent: r.1.clone(),
        host_score: r.2,
        opp_score: r.3,
        ties: r.4,
    }
}

} // verus!
