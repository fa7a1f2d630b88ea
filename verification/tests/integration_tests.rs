use cosmwasm_std::testing::MockStorage;
use cosmwasm_std::{
    to_json_binary, Addr, BankMsg, Binary, Coin, Deps, DepsMut, Empty, Env, MessageInfo, Response,
    StdError, StdResult, Storage, Uint128,
};
use cw_multi_test::{App, AppResponse, Contract, ContractWrapper, Executor};
use rock_paper_scissors::contract;
use rock_paper_scissors::error::ContractError;
use rock_paper_scissors::msg::{ExecuteMsg, InstantiateMsg, QueryMsg};
use rock_paper_scissors::sessions::load_board;
use rock_paper_scissors::state::GameMove;
use rock_paper_scissors::storage::{Store, StoreMut};

const USER: &str = "user";
const OPPONENT: &str = "opponent";

type ExecuteWire = (String, String, String);
type QueryWire = (String, Option<String>);
type GameWire = (String, String, Vec<Coin>, String);

fn game_move(name: &str) -> StdResult<GameMove> {
    match name {
        "Rock" => Ok(GameMove::Rock),
        "Paper" => Ok(GameMove::Paper),
        "Scissors" => Ok(GameMove::Scissors),
        _ => Err(StdError::generic_err("unknown move")),
    }
}

fn move_name(m: GameMove) -> String {
    match m {
        GameMove::Rock => "Rock".to_string(),
        GameMove::Paper => "Paper".to_string(),
        GameMove::Scissors => "Scissors".to_string(),
    }
}

fn lib_coins(coins: Vec<Coin>) -> Vec<rock_paper_scissors::state::Coin> {
    coins
        .into_iter()
        .map(|c| rock_paper_scissors::state::Coin { denom: c.denom, amount: c.amount.u128() })
        .collect()
}

fn wire_coins(coins: Vec<rock_paper_scissors::state::Coin>) -> Vec<Coin> {
    coins.into_iter().map(|c| Coin { denom: c.denom, amount: Uint128::new(c.amount) }).collect()
}

fn wire_response(r: rock_paper_scissors::msg::Response) -> Response {
    Response::new()
        .add_attributes(r.attributes.into_iter().map(|a| (a.key, a.value)))
        .add_messages(
            r.messages
                .into_iter()
                .map(|m| BankMsg::Send { to_address: m.to_address, amount: wire_coins(m.amount) }),
        )
}

fn wire_error(e: ContractError) -> StdError {
    match e {
        ContractError::Std(e) => e,
        other => StdError::generic_err(format!("{:?}", other)),
    }
}

fn instantiate(deps: DepsMut, _env: Env, _info: MessageInfo, admin: Option<String>) -> StdResult<Response> {
    let validated = match &admin {
        Some(a) => deps.api.addr_validate(a).map(|a| a.into_string()),
        None => Ok(String::new()),
    };
    contract::instantiate(InstantiateMsg { admin }, validated).map(wire_response).map_err(wire_error)
}

fn execute(deps: DepsMut, _env: Env, info: MessageInfo, msg: ExecuteWire) -> StdResult<Response> {
    let (command, other, played) = msg;
    let played = game_move(&played)?;
    let validated = deps.api.addr_validate(&other).map(|a| a.into_string());
    let msg = match command.as_str() {
        "start_game" => ExecuteMsg::StartGame { opponent: other, host_move: played },
        "opponent_response" => ExecuteMsg::OpponentResponse { host: other, opp_move: played },
        _ => return Err(StdError::generic_err("unknown command")),
    };
    let info = rock_paper_scissors::msg::MessageInfo {
        sender: info.sender.into_string(),
        funds: lib_coins(info.funds),
    };
    contract::execute(&mut StoreMut { storage: deps.storage }, info, msg, validated)
        .map(wire_response)
        .map_err(wire_error)
}

fn query(deps: Deps, _env: Env, msg: QueryWire) -> StdResult<Binary> {
    let msg = match msg {
        (host, Some(opponent)) => QueryMsg::GetGameByHostAndOpponent { host, opponent },
        (host, None) => QueryMsg::GetGamesByHost { host },
    };
    let found = contract::query(&Store { storage: deps.storage }, msg)?;
    let games: Vec<GameWire> = found
        .games
        .into_iter()
        .map(|g| (g.host, g.opponent, wire_coins(g.host_wager), move_name(g.host_move)))
        .collect();
    to_json_binary(&games)
}

pub fn contract_rps() -> Box<dyn Contract<Empty>> {
    let contract = ContractWrapper::new(execute, instantiate, query);

    Box::new(contract)
}

pub fn mock_app() -> App {
    let init_amount = vec![Coin { denom: "TNT".to_string(), amount: Uint128::new(100) }];

    let mut app = App::new(|router, _, storage| {
        router
            .bank
            .init_balance(storage, &Addr::unchecked(USER.to_string()), init_amount.clone())
            .unwrap()
    });

    app.init_modules(|router, _, storage| {
        router
            .bank
            .init_balance(storage, &Addr::unchecked(OPPONENT.to_string()), init_amount.clone())
            .unwrap()
    });

    app
}

pub struct Suite {
    pub app: App,
    pub contract_id: u64,
    pub owner: String,
}

impl Suite {
    pub fn init() -> Suite {
        let mut app = mock_app();
        let contract_id = app.store_code(contract_rps());
        let owner = USER.to_string();

        Suite { app, contract_id, owner }
    }

    pub fn instantiate(&mut self, admin: Option<String>) -> Addr {
        self.app
            .instantiate_contract(
                self.contract_id,
                Addr::unchecked(self.owner.to_string()),
                &None::<String>,
                &[],
                "rps",
                admin,
            )
            .unwrap()
    }

    pub fn execute(&mut self, contract_addr: Addr, msg: ExecuteWire, send_funds: Vec<Coin>) -> AppResponse {
        self.app
            .execute_contract(Addr::unchecked(self.owner.to_string()), contract_addr, &msg, &send_funds)
            .unwrap()
    }

    pub fn query(&self, contract_addr: Addr, msg: QueryWire) -> Vec<GameWire> {
        self.app.wrap().query_wasm_smart(contract_addr, &msg).unwrap()
    }
}

fn start_game_msg(opponent: &str, host_move: &str) -> ExecuteWire {
    ("start_game".to_string(), opponent.to_string(), host_move.to_string())
}

fn opponent_response_msg(host: &str, opp_move: &str) -> ExecuteWire {
    ("opponent_response".to_string(), host.to_string(), opp_move.to_string())
}

#[test]
fn test_instantiate_contract() {
    let mut suite = Suite::init();
    let contract_addr = suite.instantiate(None);

    assert_eq!(contract_addr.clone(), Addr::unchecked("contract0"));
}

#[test]
fn test_start_game() {
    let mut suite = Suite::init();
    let contract_addr = suite.instantiate(None);

    let msg = start_game_msg(OPPONENT, "Rock");

    let host_wager = vec![Coin { denom: "TNT".to_string(), amount: Uint128::new(10) }];

    let res = suite.execute(contract_addr.clone(), msg, host_wager.clone());

    assert_eq!(res.events[1].attributes[4].value, "10TNT ".to_string());

    let msg = (USER.to_string(), Some(OPPONENT.to_string()));

    let res = suite.query(contract_addr.clone(), msg);

    assert_eq!(res.len(), 1);
    assert_eq!(res[0], (USER.to_string(), OPPONENT.to_string(), host_wager, "Rock".to_string()));
}

#[test]
fn test_end_game() {
    let mut suite = Suite::init();
    let contract_addr = suite.instantiate(None);

    let msg = start_game_msg(OPPONENT, "Rock");

    let host_wager = vec![Coin { denom: "TNT".to_string(), amount: Uint128::new(10) }];

    let _res = suite.execute(contract_addr.clone(), msg, host_wager.clone());

    let msg = opponent_response_msg(&suite.owner.clone(), "Rock");

    let opp_wager = host_wager.clone();

    let res = suite
        .app
        .execute_contract(Addr::unchecked(OPPONENT.to_string()), contract_addr.clone(), &msg, &opp_wager)
        .unwrap();

    assert_eq!(res.events[1].attributes.len(), 4);
    assert_eq!(res.events[1].attributes[1].value, "opponent_response".to_string());
    let mut storage = MockStorage::new();
    for (key, value) in suite.app.dump_wasm_raw(&contract_addr) {
        storage.set(&key, &value);
    }
    let board = load_board(&Store { storage: &storage }, USER, OPPONENT).unwrap();
    assert_eq!(board.ties, Some(1));

    let res = suite
        .app
        .wrap()
        .query_balance(Addr::unchecked(suite.owner.clone()), opp_wager[0].denom.clone())
        .unwrap();

    assert_eq!(res.amount, Uint128::new(100));

    let res = suite
        .app
        .wrap()
        .query_balance(Addr::unchecked(OPPONENT), opp_wager[0].denom.clone())
        .unwrap();

    assert_eq!(res.amount, Uint128::new(100));
}

#[test]
fn winner_is_paid_by_the_bank() {
    let mut suite = Suite::init();
    let contract_addr = suite.instantiate(None);
    let wager = vec![Coin { denom: "TNT".to_string(), amount: Uint128::new(10) }];

    suite.execute(contract_addr.clone(), start_game_msg(OPPONENT, "Paper"), wager.clone());
    let held = suite.app.wrap().query_balance(contract_addr.clone(), "TNT").unwrap();
    assert_eq!(held.amount, Uint128::new(10));

    suite
        .app
        .execute_contract(
            Addr::unchecked(OPPONENT),
            contract_addr.clone(),
            &opponent_response_msg(USER, "Scissors"),
            &wager,
        )
        .unwrap();

    let user = suite.app.wrap().query_balance(USER, "TNT").unwrap();
    let opponent = suite.app.wrap().query_balance(OPPONENT, "TNT").unwrap();
    let held = suite.app.wrap().query_balance(contract_addr, "TNT").unwrap();
    assert_eq!(user.amount, Uint128::new(90));
    assert_eq!(opponent.amount, Uint128::new(110));
    assert_eq!(held.amount, Uint128::new(0));
}
