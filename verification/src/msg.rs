use vstd::prelude::*;
use vstd::string::StringExecFns;
use crate::state::{coins_view, Coin, CoinView, GameMove, GameState, GameStateView};

verus! {

/// Setup parameters: the optional administrator.
#[derive(Clone, Debug, PartialEq, Eq)]
pub struct InstantiateMsg {
    pub admin: Option<String>,
}

/// The two commands of the game.
#[derive(Clone, Debug, PartialEq, Eq)]
pub enum ExecuteMsg {
    StartGame { opponent: String, host_move: GameMove },
    OpponentResponse { host: String, opp_move: GameMove },
}

/// The two read-only lookups.
#[derive(Clone, Debug, PartialEq, Eq)]
pub enum QueryMsg {
    GetGameByHostAndOpponent { host: String, opponent: String },
    GetGamesByHost { host: String },
}

/// Parameters of a migration; there are none.
#[derive(Clone, Debug, PartialEq, Eq)]
pub struct MigrateMsg {}

/// The games that a lookup found, in the order of their keys.
#[derive(Clone, Debug, PartialEq, Eq)]
pub struct GetGamesResponse {
    pub games: Vec<GameState>,
}

/// The games of a list, in order, as mathematical values.
pub open spec fn games_view(games: Seq<GameState>) -> Seq<GameStateView> {
    games.map_values(|g: GameState| g@)
}

impl View for GetGamesResponse {
    type V = Seq<GameStateView>;

    open spec fn view(&self) -> Seq<GameStateView> {
        games_view(self.games@)
    }
}

/// Who sent a command, and the funds attached to it.
#[derive(Clone, Debug, PartialEq, Eq)]
pub struct MessageInfo {
    pub sender: String,
    pub funds: Vec<Coin>,
}

/// An instruction to the bank: pay `amount` to `to_address`.
#[derive(Clone, Debug, PartialEq, Eq)]
pub struct BankMsg {
    pub to_address: String,
    pub amount: Vec<Coin>,
}

/// A payment as a mathematical value.
pub ghost struct BankMsgView {
    pub to_address: Seq<char>,
    pub amount: Seq<CoinView>,
}

impl View for BankMsg {
    type V = BankMsgView;

    open spec fn view(&self) -> BankMsgView {
        BankMsgView { to_address: self.to_address@, amount: coins_view(self.amount@) }
    }
}

/// The payments of a list, in order, as mathematical values.
pub open spec fn bank_msgs_view(msgs: Seq<BankMsg>) -> Seq<BankMsgView> {
    msgs.map_values(|m: BankMsg| m@)
}

/// A key and a value that a command reports.
#[derive(Clone, Debug, PartialEq, Eq)]
pub struct Attribute {
    pub key: String,
    pub value: String,
}

impl View for Attribute {
    type V = (Seq<char>, Seq<char>);

    open spec fn view(&self) -> (Seq<char>, Seq<char>) {
        (self.key@, self.value@)
    }
}

/// The attributes of a list, in order, as pairs of key and value.
pub open spec fn attributes_view(attrs: Seq<Attribute>) -> Seq<(Seq<char>, Seq<char>)> {
    attrs.map_values(|a: Attribute| a@)
}

/// What a command answers: the attributes it reports and the payments it
/// asks the chain to make.
#[derive(Clone, Debug, PartialEq, Eq)]
pub struct Response {
    pub messages: Vec<BankMsg>,
    pub attributes: Vec<Attribute>,
}

/// An answer as a mathematical value.
pub ghost struct ResponseView {
    pub messages: Seq<BankMsgView>,
    pub attributes: Seq<(Seq<char>, Seq<char>)>,
}

impl View for Response {
    type V = ResponseView;

    open spec fn view(&self) -> ResponseView {
        ResponseView {
            messages: bank_msgs_view(self.messages@),
            attributes: attributes_view(self.attributes@),
        }
    }
}

/// An attribute of a response.
pub fn attr(key: &str, value: String) -> (a: Attribute)
    ensures
        a@ == (key@, value@),
{
    Attribute { key: String::from_str(key), value }
}

} // verus!
