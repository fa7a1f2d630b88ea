use vstd::prelude::*;

verus! {

/// One of the three moves a player can commit to.
#[derive(Clone, Copy, Debug, PartialEq, Eq, Structural)]
pub enum GameMove {
    Rock,
    Paper,
    Scissors,
}

/// How a game ended, seen from the two seats of the session.
#[derive(Clone, Copy, Debug, PartialEq, Eq, Structural)]
pub enum GameResult {
    HostWins,
    OpponentWins,
    Tie,
}

/// An amount of one denomination.
#[derive(Clone, Debug, PartialEq, Eq)]
pub struct Coin {
    pub denom: String,
    pub amount: u128,
}

/// A coin as a mathematical value.
pub ghost struct CoinView {
    pub denom: Seq<char>,
    pub amount: nat,
}

impl View for Coin {
    type V = CoinView;

    open spec fn view(&self) -> CoinView {
        CoinView { denom: self.denom@, amount: self.amount as nat }
    }
}

/// The coins of a wager, in order, as mathematical values.
pub open spec fn coins_view(coins: Seq<Coin>) -> Seq<CoinView> {
    coins.map_values(|c: Coin| c@)
}

/// The coins of a wager that may be absent.
pub open spec fn opt_coins_view(coins: Option<Vec<Coin>>) -> Option<Seq<CoinView>> {
    match coins {
        Some(v) => Some(coins_view(v@)),
        None => None,
    }
}

/// One wager match between a host and an opponent. While `result` is `None`
/// the game is pending: the opponent has not answered yet.
#[derive(Clone, Debug, PartialEq, Eq)]
pub struct GameState {
    pub host: String,
    pub opponent: String,
    pub host_wager: Vec<Coin>,
    pub opp_wager: Option<Vec<Coin>>,
    pub host_move: GameMove,
    pub opp_move: Option<GameMove>,
    pub result: Option<GameResult>,
}

/// A game as a mathematical value.
pub ghost struct GameStateView {
    pub host: Seq<char>,
    pub opponent: Seq<char>,
    pub host_wager: Seq<CoinView>,
    pub opp_wager: Option<Seq<CoinView>>,
    pub host_move: GameMove,
    pub opp_move: Option<GameMove>,
    pub result: Option<GameResult>,
}

impl View for GameState {
    type V = GameStateView;

    open spec fn view(&self) -> GameStateView {
        GameStateView {
            host: self.host@,
            opponent: self.opponent@,
            host_wager: coins_view(self.host_wager@),
            opp_wager: opt_coins_view(self.opp_wager),
            host_move: self.host_move,
            opp_move: self.opp_move,
            result: self.result,
        }
    }
}

/// The running tally of one pair of players. A counter that is `None` has
/// never been raised and counts as zero.
#[derive(Clone, Debug, PartialEq, Eq)]
pub struct Leaderboard {
    pub host: String,
    pub opponent: String,
    pub host_score: Option<u128>,
    pub opp_score: Option<u128>,
    pub ties: Option<u128>,
}

/// A tally as a mathematical value.
pub ghost struct LeaderboardView {
    pub host: Seq<char>,
    pub opponent: Seq<char>,
    pub host_score: Option<nat>,
    pub opp_score: Option<nat>,
    pub ties: Option<nat>,
}

/// A counter that may never have been raised, as a mathematical value.
pub open spec fn counter_view(c: Option<u128>) -> Option<nat> {
    match c {
        Some(n) => Some(n as nat),
        None => None,
    }
}

/// What a counter counts: zero while it has never been raised.
pub open spec fn counter_value(c: Option<nat>) -> nat {
    match c {
        Some(n) => n,
        None => 0,
    }
}

impl View for Leaderboard {
    type V = LeaderboardView;

    open spec fn view(&self) -> LeaderboardView {
        LeaderboardView {
            host: self.host@,
            opponent: self.opponent@,
            host_score: counter_view(self.host_score),
            opp_score: counter_view(self.opp_score),
            ties: counter_view(self.ties),
        }
    }
}

} // verus!
