use cosmwasm_std::testing::{MockApi, MockStorage};
use cosmwasm_std::{Api, StdError, Storage};
use rock_paper_scissors::answer::{find_board, settle_game, try_opponent_response};
use rock_paper_scissors::contract::{execute, instantiate, migrate};
use rock_paper_scissors::error::ContractError;
use rock_paper_scissors::msg::{ExecuteMsg, InstantiateMsg, MessageInfo, MigrateMsg, Response};
use rock_paper_scissors::query::{try_query_game_by_host_and_opponent, try_query_games_by_host};
use rock_paper_scissors::sessions::{load_board, load_game, save_board};
use rock_paper_scissors::start::{check_start, open_game, try_start_game};
use rock_paper_scissors::state::{Coin, GameMove, GameResult, GameState, Leaderboard};
use rock_paper_scissors::storage::{Store, StoreMut};

const A: &str = "alice";
const B: &str = "bobby";

fn validate(address: &str) -> Result<String, StdError> {
    MockApi::default().addr_validate(address).map(|a| a.into_string())
}

fn tnt(amount: u128) -> Vec<Coin> {
    vec![Coin { denom: "TNT".to_string(), amount }]
}

fn info(sender: &str, funds: Vec<Coin>) -> MessageInfo {
    MessageInfo { sender: sender.to_string(), funds }
}

fn start(
    storage: &mut MockStorage,
    sender: &str,
    opponent: &str,
    host_move: GameMove,
    funds: Vec<Coin>,
) -> Result<Response, ContractError> {
    try_start_game(
        &mut StoreMut { storage },
        info(sender, funds),
        opponent.to_string(),
        validate(opponent),
        host_move,
    )
}

fn answer(
    storage: &mut MockStorage,
    sender: &str,
    host: &str,
    opp_move: GameMove,
    funds: Vec<Coin>,
) -> Result<Response, ContractError> {
    try_opponent_response(&mut StoreMut { storage }, info(sender, funds), validate(host), opp_move)
}

fn game(storage: &MockStorage, host: &str, opponent: &str) -> Option<GameState> {
    load_game(&Store { storage }, host, opponent)
}

fn board(storage: &MockStorage, host: &str, opponent: &str) -> Option<Leaderboard> {
    load_board(&Store { storage }, host, opponent)
}

fn lookup_fails(storage: &MockStorage, host: &str, opponent: &str) -> bool {
    let res = try_query_game_by_host_and_opponent(
        &Store { storage },
        host.to_string(),
        opponent.to_string(),
    );
    match res {
        Err(StdError::GenericErr { msg }) => msg == "No game found",
        _ => false,
    }
}

#[test]
fn tie_scenario() {
    let mut storage = MockStorage::new();
    start(&mut storage, A, B, GameMove::Rock, tnt(10)).unwrap();
    let res = answer(&mut storage, B, A, GameMove::Rock, tnt(10)).unwrap();

    assert_eq!(res.messages.len(), 2);
    assert_eq!(res.messages[0].to_address, A);
    assert_eq!(res.messages[0].amount, tnt(10));
    assert_eq!(res.messages[1].to_address, B);
    assert_eq!(res.messages[1].amount, tnt(10));

    let tally = board(&storage, A, B).unwrap();
    assert_eq!(tally.host, A);
    assert_eq!(tally.opponent, B);
    assert_eq!(tally.ties, Some(1));
    assert_eq!(tally.host_score, None);
    assert_eq!(tally.opp_score, None);

    assert!(lookup_fails(&storage, A, B));
    assert!(lookup_fails(&storage, B, A));
}

#[test]
fn responder_wins_scenario() {
    let mut storage = MockStorage::new();
    start(&mut storage, A, B, GameMove::Paper, tnt(10)).unwrap();
    let res = answer(&mut storage, B, A, GameMove::Scissors, tnt(10)).unwrap();

    assert_eq!(res.messages.len(), 1);
    assert_eq!(res.messages[0].to_address, B);
    assert_eq!(res.messages[0].amount, tnt(20));
    assert_eq!(res.attributes.len(), 3);
    assert_eq!(res.attributes[0].key, "execute");
    assert_eq!(res.attributes[0].value, "opponent_response");
    assert_eq!(res.attributes[1].key, "host");
    assert_eq!(res.attributes[1].value, A);
    assert_eq!(res.attributes[2].key, "opponent");
    assert_eq!(res.attributes[2].value, B);

    let tally = board(&storage, A, B).unwrap();
    assert_eq!(tally.opp_score, Some(1));
    assert_eq!(tally.host_score, None);
    assert_eq!(tally.ties, None);
}

#[test]
fn host_wins_scenario() {
    let mut storage = MockStorage::new();
    start(&mut storage, A, B, GameMove::Rock, tnt(10)).unwrap();
    let res = answer(&mut storage, B, A, GameMove::Scissors, tnt(10)).unwrap();
    assert_eq!(res.messages.len(), 1);
    assert_eq!(res.messages[0].to_address, A);
    assert_eq!(res.messages[0].amount, tnt(20));
    let tally = board(&storage, A, B).unwrap();
    assert_eq!(tally.host_score, Some(1));
}

#[test]
fn start_without_funds_scenario() {
    let mut storage = MockStorage::new();
    let res = start(&mut storage, A, B, GameMove::Rock, vec![]);
    assert!(matches!(res, Err(ContractError::MissingWagerAmount {})));
    assert!(game(&storage, A, B).is_none());
    assert!(game(&storage, B, A).is_none());
    assert!(storage.range(None, None, cosmwasm_std::Order::Ascending).next().is_none());
}

#[test]
fn wager_mismatch_scenario() {
    let mut storage = MockStorage::new();
    start(&mut storage, A, B, GameMove::Rock, tnt(10)).unwrap();
    let before = game(&storage, A, B).unwrap();

    let res = answer(&mut storage, B, A, GameMove::Paper, tnt(5));
    assert!(matches!(res, Err(ContractError::InsufficientWagerAmount {})));

    let after = game(&storage, A, B).unwrap();
    assert_eq!(before, after);
    assert_eq!(after.result, None);
    assert_eq!(after.opp_move, None);
    assert_eq!(after.opp_wager, None);
    assert_eq!(game(&storage, B, A).unwrap(), after);
    assert!(board(&storage, A, B).is_none());
    assert!(board(&storage, B, A).is_none());
}

#[test]
fn started_game_is_stored_under_both_orders() {
    let mut storage = MockStorage::new();
    let res = start(&mut storage, A, B, GameMove::Scissors, tnt(10)).unwrap();
    assert!(res.messages.is_empty());
    assert_eq!(res.attributes.len(), 4);
    assert_eq!(res.attributes[0].key, "execute");
    assert_eq!(res.attributes[0].value, "start_game");
    assert_eq!(res.attributes[1].key, "host");
    assert_eq!(res.attributes[1].value, A);
    assert_eq!(res.attributes[2].key, "opponent");
    assert_eq!(res.attributes[2].value, B);
    assert_eq!(res.attributes[3].key, "host_wager");
    assert_eq!(res.attributes[3].value, "10TNT ");

    let expected = GameState {
        host: A.to_string(),
        opponent: B.to_string(),
        host_wager: tnt(10),
        opp_wager: None,
        host_move: GameMove::Scissors,
        opp_move: None,
        result: None,
    };
    assert_eq!(game(&storage, A, B).unwrap(), expected);
    assert_eq!(game(&storage, B, A).unwrap(), expected);
    assert!(game(&storage, A, "carol").is_none());
}

#[test]
fn second_start_is_refused() {
    let mut storage = MockStorage::new();
    start(&mut storage, A, B, GameMove::Rock, tnt(10)).unwrap();
    let again = start(&mut storage, A, B, GameMove::Paper, tnt(7));
    assert!(matches!(again, Err(ContractError::ActiveGameAlreadyExists {})));
    let without_funds = start(&mut storage, A, B, GameMove::Paper, vec![]);
    assert!(matches!(without_funds, Err(ContractError::ActiveGameAlreadyExists {})));
    assert_eq!(game(&storage, A, B).unwrap().host_move, GameMove::Rock);
    assert_eq!(game(&storage, A, B).unwrap().host_wager, tnt(10));
}

#[test]
fn reverse_start_is_refused() {
    let mut storage = MockStorage::new();
    start(&mut storage, A, B, GameMove::Rock, tnt(10)).unwrap();
    let reverse = start(&mut storage, B, A, GameMove::Paper, tnt(10));
    assert!(matches!(reverse, Err(ContractError::ActiveGameAlreadyExists {})));
    assert_eq!(game(&storage, B, A).unwrap().host, A);
}

#[test]
fn settled_game_can_be_started_again() {
    let mut storage = MockStorage::new();
    start(&mut storage, A, B, GameMove::Rock, tnt(10)).unwrap();
    answer(&mut storage, B, A, GameMove::Paper, tnt(10)).unwrap();
    start(&mut storage, A, B, GameMove::Rock, tnt(3)).unwrap();
    assert_eq!(game(&storage, A, B).unwrap().host_wager, tnt(3));
}

#[test]
fn settlement_happens_once() {
    let mut storage = MockStorage::new();
    start(&mut storage, A, B, GameMove::Rock, tnt(10)).unwrap();
    answer(&mut storage, B, A, GameMove::Paper, tnt(10)).unwrap();
    let again = answer(&mut storage, B, A, GameMove::Paper, tnt(10));
    assert!(matches!(again, Err(ContractError::GameNotFound {})));
    let tally = board(&storage, A, B).unwrap();
    assert_eq!(tally.opp_score, Some(1));
    assert_eq!(tally.host_score, None);
    assert_eq!(tally.ties, None);
}

#[test]
fn answer_without_game_is_refused() {
    let mut storage = MockStorage::new();
    let res = answer(&mut storage, B, A, GameMove::Paper, tnt(10));
    assert!(matches!(res, Err(ContractError::GameNotFound {})));
    assert!(board(&storage, A, B).is_none());
}

#[test]
fn same_player_is_refused() {
    let mut storage = MockStorage::new();
    let res = start(&mut storage, A, A, GameMove::Rock, tnt(10));
    match res {
        Err(ContractError::HostAndOpponentCannotBeTheSame { val }) => assert_eq!(val, A),
        _ => panic!("Should error here"),
    }
    assert!(game(&storage, A, A).is_none());
}

#[test]
fn same_player_is_refused_before_validation() {
    let mut storage = MockStorage::new();
    let res = start(&mut storage, "x", "x", GameMove::Rock, tnt(10));
    assert!(matches!(res, Err(ContractError::HostAndOpponentCannotBeTheSame { .. })));
}

#[test]
fn rejected_address_is_refused() {
    let mut storage = MockStorage::new();
    let res = start(&mut storage, A, "x", GameMove::Rock, tnt(10));
    assert!(matches!(res, Err(ContractError::Std(StdError::GenericErr { .. }))));
    let res = start(&mut storage, A, "x", GameMove::Rock, vec![]);
    assert!(matches!(res, Err(ContractError::Std(_))));
    let res = answer(&mut storage, B, "x", GameMove::Rock, tnt(10));
    assert!(matches!(res, Err(ContractError::Std(StdError::GenericErr { .. }))));
    assert!(storage.range(None, None, cosmwasm_std::Order::Ascending).next().is_none());
}

#[test]
fn names_too_long_for_a_key_are_refused() {
    let mut storage = MockStorage::new();
    let long = "a".repeat(0x10000);
    let fits = "a".repeat(0xFFFF);

    let res = try_start_game(
        &mut StoreMut { storage: &mut storage },
        info(&long, tnt(1)),
        B.to_string(),
        Ok(B.to_string()),
        GameMove::Rock,
    );
    match res {
        Err(ContractError::Std(StdError::GenericErr { msg })) => {
            assert_eq!(msg, "Address is too long for a storage key")
        }
        _ => panic!("Should error here"),
    }
    let res = try_start_game(
        &mut StoreMut { storage: &mut storage },
        info(A, tnt(1)),
        long.clone(),
        Ok(long.clone()),
        GameMove::Rock,
    );
    assert!(matches!(res, Err(ContractError::Std(StdError::GenericErr { .. }))));
    let res = try_opponent_response(
        &mut StoreMut { storage: &mut storage },
        info(A, tnt(1)),
        Ok(long.clone()),
        GameMove::Rock,
    );
    assert!(matches!(res, Err(ContractError::Std(StdError::GenericErr { .. }))));
    let res = try_query_games_by_host(&Store { storage: &storage }, long.clone());
    assert!(matches!(res, Err(StdError::GenericErr { .. })));
    let res = try_query_game_by_host_and_opponent(&Store { storage: &storage }, long, A.to_string());
    match res {
        Err(StdError::GenericErr { msg }) => assert_eq!(msg, "Address is too long for a storage key"),
        _ => panic!("Should error here"),
    }

    try_start_game(
        &mut StoreMut { storage: &mut storage },
        info(&fits, tnt(1)),
        B.to_string(),
        Ok(B.to_string()),
        GameMove::Rock,
    )
    .unwrap();
    assert!(game(&storage, &fits, B).is_some());
    assert!(game(&storage, B, &fits).is_some());
}

#[test]
fn checks_come_in_order() {
    let same = check_start(&info(A, vec![]), &A.to_string(), Err(StdError::generic_err("no")));
    assert!(matches!(same, Err(ContractError::HostAndOpponentCannotBeTheSame { .. })));
    let rejected = check_start(&info(A, vec![]), &B.to_string(), Err(StdError::generic_err("no")));
    match rejected {
        Err(ContractError::Std(StdError::GenericErr { msg })) => assert_eq!(msg, "no"),
        _ => panic!("Should error here"),
    }
    let accepted = check_start(&info(A, vec![]), &B.to_string(), Ok(B.to_string()));
    assert_eq!(accepted.unwrap(), B);
}

#[test]
fn tally_keeps_its_first_order() {
    let mut storage = MockStorage::new();
    start(&mut storage, A, B, GameMove::Rock, tnt(10)).unwrap();
    answer(&mut storage, B, A, GameMove::Paper, tnt(10)).unwrap();
    assert_eq!(board(&storage, A, B).unwrap().opp_score, Some(1));

    start(&mut storage, B, A, GameMove::Rock, tnt(10)).unwrap();
    answer(&mut storage, A, B, GameMove::Scissors, tnt(10)).unwrap();
    let tally = board(&storage, A, B).unwrap();
    assert_eq!(tally.host, A);
    assert_eq!(tally.opponent, B);
    assert_eq!(tally.opp_score, Some(2));
    assert_eq!(tally.host_score, None);
    assert!(board(&storage, B, A).is_none());

    start(&mut storage, B, A, GameMove::Rock, tnt(10)).unwrap();
    answer(&mut storage, A, B, GameMove::Paper, tnt(10)).unwrap();
    let tally = board(&storage, A, B).unwrap();
    assert_eq!(tally.opp_score, Some(2));
    assert_eq!(tally.host_score, Some(1));

    start(&mut storage, B, A, GameMove::Paper, tnt(10)).unwrap();
    answer(&mut storage, A, B, GameMove::Paper, tnt(10)).unwrap();
    let tally = board(&storage, A, B).unwrap();
    assert_eq!(tally.ties, Some(1));
    assert_eq!(tally.opp_score, Some(2));
    assert_eq!(tally.host_score, Some(1));
    assert!(board(&storage, B, A).is_none());

    let found = find_board(&Store { storage: &storage }, &B.to_string(), &A.to_string());
    assert!(found.1);
    assert_eq!(found.0, tally);
    let found = find_board(&Store { storage: &storage }, &A.to_string(), &B.to_string());
    assert!(!found.1);
    assert_eq!(found.0, tally);
}

#[test]
fn full_counter_refuses_the_answer() {
    let mut storage = MockStorage::new();
    let full = Leaderboard {
        host: A.to_string(),
        opponent: B.to_string(),
        host_score: Some(5),
        opp_score: Some(u128::MAX),
        ties: None,
    };
    save_board(&mut StoreMut { storage: &mut storage }, A, B, &full).unwrap();
    start(&mut storage, A, B, GameMove::Rock, tnt(10)).unwrap();

    let res = answer(&mut storage, B, A, GameMove::Paper, tnt(10));
    assert!(matches!(res, Err(ContractError::CounterOverflow {})));
    assert_eq!(board(&storage, A, B).unwrap(), full);
    assert!(game(&storage, A, B).is_some());
    assert!(game(&storage, B, A).is_some());

    let res = answer(&mut storage, B, A, GameMove::Scissors, tnt(10)).unwrap();
    assert_eq!(res.messages[0].to_address, A);
    assert_eq!(board(&storage, A, B).unwrap().host_score, Some(6));
    assert_eq!(board(&storage, A, B).unwrap().opp_score, Some(u128::MAX));
}

#[test]
fn payout_overflow_refuses_the_answer() {
    let mut storage = MockStorage::new();
    start(&mut storage, A, B, GameMove::Rock, tnt(u128::MAX)).unwrap();
    let res = answer(&mut storage, B, A, GameMove::Paper, tnt(u128::MAX));
    assert!(matches!(res, Err(ContractError::CounterOverflow {})));
    assert!(game(&storage, A, B).is_some());
    assert!(board(&storage, A, B).is_none());
    let res = answer(&mut storage, B, A, GameMove::Rock, tnt(u128::MAX)).unwrap();
    assert_eq!(res.messages.len(), 2);
    assert_eq!(board(&storage, A, B).unwrap().ties, Some(1));
}

#[test]
fn execute_dispatches_both_commands() {
    let mut storage = MockStorage::new();
    let res = execute(
        &mut StoreMut { storage: &mut storage },
        info(A, tnt(10)),
        ExecuteMsg::StartGame { opponent: B.to_string(), host_move: GameMove::Paper },
        validate(B),
    )
    .unwrap();
    assert_eq!(res.attributes[0].value, "start_game");
    let res = execute(
        &mut StoreMut { storage: &mut storage },
        info(B, tnt(10)),
        ExecuteMsg::OpponentResponse { host: A.to_string(), opp_move: GameMove::Rock },
        validate(A),
    )
    .unwrap();
    assert_eq!(res.attributes[0].value, "opponent_response");
    assert_eq!(res.messages[0].to_address, A);
}

#[test]
fn instantiate_reports_the_admin() {
    let msg = InstantiateMsg { admin: Some(A.to_string()) };
    let res = instantiate(msg.clone(), validate(A)).unwrap();
    assert!(res.messages.is_empty());
    assert_eq!(res.attributes.len(), 2);
    assert_eq!(res.attributes[0].key, "method");
    assert_eq!(res.attributes[0].value, "instantiate");
    assert_eq!(res.attributes[1].key, "admin");
    assert_eq!(res.attributes[1].value, A);

    let rejected = instantiate(InstantiateMsg { admin: Some("x".to_string()) }, validate("x"));
    assert!(matches!(rejected, Err(ContractError::Std(_))));

    let none = instantiate(InstantiateMsg { admin: None }, validate("x")).unwrap();
    assert_eq!(none.attributes[1].value, "None");
}

#[test]
fn migrate_reports_its_name() {
    let res = migrate(MigrateMsg {}).unwrap();
    assert!(res.messages.is_empty());
    assert_eq!(res.attributes.len(), 1);
    assert_eq!(res.attributes[0].key, "method");
    assert_eq!(res.attributes[0].value, "migrate");
}

#[test]
fn opening_decides_without_storage() {
    let taken = open_game(&info(A, tnt(10)), &B.to_string(), GameMove::Rock, true);
    assert!(matches!(taken, Err(ContractError::ActiveGameAlreadyExists {})));
    let taken = open_game(&info(A, vec![]), &B.to_string(), GameMove::Rock, true);
    assert!(matches!(taken, Err(ContractError::ActiveGameAlreadyExists {})));
    let unpaid = open_game(&info(A, vec![]), &B.to_string(), GameMove::Rock, false);
    assert!(matches!(unpaid, Err(ContractError::MissingWagerAmount {})));
    let (opened, response) = open_game(&info(A, tnt(10)), &B.to_string(), GameMove::Paper, false).unwrap();
    assert_eq!(opened.host, A);
    assert_eq!(opened.opponent, B);
    assert_eq!(opened.host_wager, tnt(10));
    assert_eq!(opened.host_move, GameMove::Paper);
    assert_eq!(opened.opp_wager, None);
    assert_eq!(opened.opp_move, None);
    assert_eq!(opened.result, None);
    assert_eq!(response.attributes[3].value, "10TNT ");
}

#[test]
fn settling_decides_without_storage() {
    let pending = GameState {
        host: A.to_string(),
        opponent: B.to_string(),
        host_wager: tnt(10),
        opp_wager: None,
        host_move: GameMove::Rock,
        opp_move: None,
        result: None,
    };
    let fresh = Leaderboard {
        host: A.to_string(),
        opponent: B.to_string(),
        host_score: None,
        opp_score: None,
        ties: None,
    };
    let short = settle_game(
        pending.clone(),
        &info(B, tnt(9)),
        &A.to_string(),
        GameMove::Paper,
        fresh.clone(),
        false,
    );
    assert!(matches!(short, Err(ContractError::InsufficientWagerAmount {})));

    let settled =
        settle_game(pending.clone(), &info(B, tnt(10)), &A.to_string(), GameMove::Paper, fresh.clone(), false)
            .unwrap();
    assert_eq!(settled.result, GameResult::OpponentWins);
    assert_eq!(settled.board.opp_score, Some(1));
    assert_eq!(settled.board.host_score, None);
    assert_eq!(settled.response.messages.len(), 1);
    assert_eq!(settled.response.messages[0].to_address, B);
    assert_eq!(settled.response.messages[0].amount, tnt(20));

    let other_order = Leaderboard { host: B.to_string(), opponent: A.to_string(), ..fresh.clone() };
    let settled =
        settle_game(pending.clone(), &info(B, tnt(10)), &A.to_string(), GameMove::Paper, other_order, true)
            .unwrap();
    assert_eq!(settled.result, GameResult::OpponentWins);
    assert_eq!(settled.board.host, B);
    assert_eq!(settled.board.host_score, Some(1));
    assert_eq!(settled.board.opp_score, None);
    assert_eq!(settled.response.messages[0].to_address, B);

    let full = Leaderboard { ties: Some(u128::MAX), ..fresh };
    let refused =
        settle_game(pending, &info(B, tnt(10)), &A.to_string(), GameMove::Rock, full, false);
    assert!(matches!(refused, Err(ContractError::CounterOverflow {})));
}
