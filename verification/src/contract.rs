use vstd::prelude::*;
use vstd::string::StringExecFns;
use cosmwasm_std::StdError;
use crate::answer::{answer_outcome, try_opponent_response};
use crate::error::{ContractError, ContractErrorView};
use crate::msg::{
    attr, Attribute, ExecuteMsg, GetGamesResponse, InstantiateMsg, MessageInfo, MigrateMsg,
    QueryMsg, Response, ResponseView,
};
use crate::query::{
    listing_outcome, lookup_outcome, try_query_game_by_host_and_opponent, try_query_games_by_host,
};
use crate::start::{start_outcome, try_start_game};
use crate::storage::{Store, StoreMut};

verus! {

/// The answer to a migration.
pub open spec fn migrate_response() -> ResponseView {
    ResponseView { messages: Seq::empty(), attributes: seq![("method"@, "migrate"@)] }
}

/// Migrates the contract: there is nothing to change.
pub fn migrate(_msg: MigrateMsg) -> (r: Result<Response, StdError>)
    ensures
        r matches Ok(response) && response@ == migrate_response(),
{
    let mut attributes: Vec<Attribute> = Vec::new();
    attributes.push(attr("method", String::from_str("migrate")));
    let response = Response { messages: Vec::new(), attributes };
    proof {
        assert(response@.attributes =~= migrate_response().attributes);
        assert(response@.messages =~= Seq::empty());
    }
    Ok(response)
}

/// The answer to the setup: the administrator that was named, or the word
/// `None`.
pub open spec fn instantiate_response(admin: Option<Seq<char>>) -> ResponseView {
    ResponseView {
        messages: Seq::empty(),
        attributes: seq![
            ("method"@, "instantiate"@),
            (
                "admin"@,
                match admin {
                    Some(address) => address,
                    None => "None"@,
                },
            ),
        ],
    }
}

/// Sets the contract up. `validated` is what the chain's address
/// validator said of the administrator that `msg` names; it is not looked
/// at where `msg` names none. A rejected administrator refuses the setup.
pub fn instantiate(msg: InstantiateMsg, validated: Result<String, StdError>) -> (r: Result<Response, ContractError>)
    ensures
        match (msg.admin, validated) {
            (Some(_), Err(e)) => r matches Err(err) && err@ == ContractErrorView::Std(e),
            (Some(_), Ok(address)) => r matches Ok(response) && response@ == instantiate_response(Some(address@)),
            (None, _) => r matches Ok(response) && response@ == instantiate_response(None),
        },
{
    let ghost named: Option<Seq<char>> = if msg.admin is Some && validated is Ok {
        Some(validated->Ok_0@)
    } else {
        None
    };
    let admin = match msg.admin {
        Some(_) => match validated {
            Ok(address) => address,
            Err(e) => {
                return Err(ContractError::from(e));
            },
        },
        None => String::from_str("None"),
    };
    let mut attributes: Vec<Attribute> = Vec::new();
    attributes.push(attr("method", String::from_str("instantiate")));
    attributes.push(attr("admin", admin));
    let response = Response { messages: Vec::new(), attributes };
    proof {
        assert(response@.attributes =~= instantiate_response(named).attributes);
        assert(response@.messages =~= Seq::empty());
    }
    Ok(response)
}

/// Carries out a command. `validated` is what the chain's address
/// validator said of the other player that the command names.
pub fn execute(
    store: &mut StoreMut,
    info: MessageInfo,
    msg: ExecuteMsg,
    validated: Result<String, StdError>,
) -> (r: Result<Response, ContractError>)
    ensures
        match msg {
            ExecuteMsg::StartGame { opponent, host_move } => start_outcome(
                *old(store),
                *final(store),
                info,
                opponent,
                validated,
                host_move,
                r,
            ),
            ExecuteMsg::OpponentResponse { host, opp_move } => answer_outcome(
                *old(store),
                *final(store),
                info,
                validated,
                opp_move,
                r,
            ),
        },
{
    match msg {
        ExecuteMsg::StartGame { opponent, host_move } => try_start_game(store, info, opponent, validated, host_move),
        ExecuteMsg::OpponentResponse { host: _, opp_move } => try_opponent_response(store, info, validated, opp_move),
    }
}

/// Answers a lookup.
pub fn query(store: &Store, msg: QueryMsg) -> (r: Result<GetGamesResponse, StdError>)
    ensures
        match msg {
            QueryMsg::GetGameByHostAndOpponent { host, opponent } => lookup_outcome(
                store.sessions(),
                host@,
                opponent@,
                r,
            ),
            QueryMsg::GetGamesByHost { host } => listing_outcome(
                store.sessions(),
                store.clutter(),
                host@,
                r,
            ),
        },
{
    match msg {
        QueryMsg::GetGameByHostAndOpponent { host, opponent } => try_query_game_by_host_and_opponent(
            store,
            host,
            opponent,
        ),
        QueryMsg::GetGamesByHost { host } => try_query_games_by_host(store, host),
    }
}

} // verus!
