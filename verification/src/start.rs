use vstd::prelude::*;
use vstd::string::StringExecFns;
use cosmwasm_std::StdError;
use crate::error::{
    generic_error, key_too_long, too_long, validation_view, ContractError, ContractErrorView,
};
use crate::msg::{attr, Attribute, MessageInfo, Response, ResponseView};
use crate::sessions::{load_game, name_fits, remove_game, save_game, saves_game};
use crate::state::{coins_view, CoinView, GameMove, GameState, GameStateView};
use crate::storage::{fits_key, reader, Pair, StoreMut};
use crate::wager::{clone_coins, wager_string, wager_text};

verus! {

/// Why a new game is refused before the storage is asked, if it is: the
/// caller named itself, the validator rejected the opponent, or a name is
/// too long for a key. The first that applies decides.
pub open spec fn start_rejection(
    sender: Seq<char>,
    opponent: Seq<char>,
    validated: Result<Seq<char>, StdError>,
) -> Option<ContractErrorView> {
    if sender == opponent {
        Some(ContractErrorView::HostAndOpponentCannotBeTheSame { val: opponent })
    } else {
        match validated {
            Err(e) => Some(ContractErrorView::Std(e)),
            Ok(address) => if !fits_key(sender) || !fits_key(address) {
                Some(ContractErrorView::Std(generic_error(too_long())))
            } else {
                None
            },
        }
    }
}

/// Why a new game is refused, if it is: for one of the reasons of
/// `start_rejection`, because the two players already have a game, or
/// because no funds are attached. The first that applies decides.
pub open spec fn start_refusal(
    sessions: Map<Pair, GameStateView>,
    sender: Seq<char>,
    opponent: Seq<char>,
    validated: Result<Seq<char>, StdError>,
    funds: Seq<CoinView>,
) -> Option<ContractErrorView> {
    match start_rejection(sender, opponent, validated) {
        Some(e) => Some(e),
        None => opening_refusal(sessions.dom().contains((sender, validated->Ok_0)), funds),
    }
}

/// Why a new game that passed `start_rejection` is refused, if it is:
/// the two players already have a game, or no funds are attached. The
/// first that applies decides.
pub open spec fn opening_refusal(existing: bool, funds: Seq<CoinView>) -> Option<ContractErrorView> {
    if existing {
        Some(ContractErrorView::ActiveGameAlreadyExists)
    } else if funds.len() == 0 {
        Some(ContractErrorView::MissingWagerAmount)
    } else {
        None
    }
}

/// The game that waits for its answer after `host` has started it.
pub open spec fn pending_game(
    host: Seq<char>,
    opponent: Seq<char>,
    funds: Seq<CoinView>,
    host_move: GameMove,
) -> GameStateView {
    GameStateView {
        host,
        opponent,
        host_wager: funds,
        opp_wager: None,
        host_move,
        opp_move: None,
        result: None,
    }
}

/// The stored games after `game` was started: it lies under both orders
/// of its two players.
pub open spec fn sessions_with(sessions: Map<Pair, GameStateView>, game: GameStateView) -> Map<Pair, GameStateView> {
    sessions.insert((game.host, game.opponent), game).insert((game.opponent, game.host), game)
}

/// The answer to a started game.
pub open spec fn start_response(host: Seq<char>, opponent: Seq<char>, funds: Seq<CoinView>) -> ResponseView {
    ResponseView {
        messages: Seq::empty(),
        attributes: seq![
            ("execute"@, "start_game"@),
            ("host"@, host),
            ("opponent"@, opponent),
            ("host_wager"@, wager_text(funds)),
        ],
    }
}

/// Applies the checks on a new game that need no storage, in their order,
/// and gives the opponent's canonical address.
pub fn check_start(info: &MessageInfo, opponent: &String, validated: Result<String, StdError>) -> (r: Result<String, ContractError>)
    ensures
        match start_rejection(info.sender@, opponent@, validation_view(validated)) {
            Some(e) => r matches Err(err) && err@ == e,
            None => r matches Ok(address) && Ok::<Seq<char>, StdError>(address@) == validation_view(validated),
        },
{
    if info.sender == *opponent {
        return Err(ContractError::HostAndOpponentCannotBeTheSame { val: opponent.clone() });
    }
    let address = match validated {
        Ok(address) => address,
        Err(e) => {
            return Err(ContractError::from(e));
        },
    };
    if !name_fits(info.sender.as_str()) || !name_fits(address.as_str()) {
        return Err(ContractError::from(key_too_long()));
    }
    Ok(address)
}

/// Makes the game that the sender starts against `address`, and the
/// answer to the sender, unless the game is refused. `existing` says
/// whether the storage already holds a game of the two.
pub fn open_game(info: &MessageInfo, address: &String, host_move: GameMove, existing: bool) -> (r: Result<
    (GameState, Response),
    ContractError,
>)
    ensures
        match opening_refusal(existing, coins_view(info.funds@)) {
            Some(refusal) => r matches Err(e) && e@ == refusal,
            None => {
                &&& r matches Ok(opened)
                &&& opened.0@ == pending_game(info.sender@, address@, coins_view(info.funds@), host_move)
                &&& opened.1@ == start_response(info.sender@, address@, coins_view(info.funds@))
            },
        },
{
    if existing {
        return Err(ContractError::ActiveGameAlreadyExists {  });
    }
    assert(info.funds@.len() == coins_view(info.funds@).len());
    if info.funds.len() == 0 {
        return Err(ContractError::MissingWagerAmount {  });
    }
    let game = GameState {
        host: info.sender.clone(),
        opponent: address.clone(),
        host_wager: clone_coins(&info.funds),
        opp_wager: None,
        host_move,
        opp_move: None,
        result: None,
    };
    let mut attributes: Vec<Attribute> = Vec::new();
    attributes.push(attr("execute", String::from_str("start_game")));
    attributes.push(attr("host", info.sender.clone()));
    attributes.push(attr("opponent", address.clone()));
    attributes.push(attr("host_wager", wager_string(&info.funds)));
    let response = Response { messages: Vec::new(), attributes };
    proof {
        assert(response@.attributes =~= start_response(info.sender@, address@, coins_view(info.funds@)).attributes);
        assert(response@.messages =~= Seq::empty());
    }
    Ok((game, response))
}

/// What starting a game does: `before` and `after` are the storage
/// around the call, `r` is what the call returned. A refused game changes
/// nothing and gives the refusal. An accepted game is stored under both
/// orders of the two players where the storage takes it; where it does
/// not, nothing changes and the storage's error is returned. The tallies
/// are never touched, and no host's games become unlistable.
pub open spec fn start_outcome(
    before: StoreMut,
    after: StoreMut,
    info: MessageInfo,
    opponent: String,
    validated: Result<String, StdError>,
    host_move: GameMove,
    r: Result<Response, ContractError>,
) -> bool {
    let refusal = start_refusal(
        before.sessions(),
        info.sender@,
        opponent@,
        validation_view(validated),
        coins_view(info.funds@),
    );
    &&& after.ledger() == before.ledger()
    &&& after.clutter().subset_of(before.clutter())
    &&& match refusal {
        Some(refused) => {
            &&& r matches Err(e)
            &&& e@ == refused
            &&& after.sessions() == before.sessions()
        },
        None => {
            let address = validated->Ok_0@;
            let game = pending_game(info.sender@, address, coins_view(info.funds@), host_move);
            if saves_game(game) {
                &&& r matches Ok(response)
                &&& response@ == start_response(info.sender@, address, coins_view(info.funds@))
                &&& after.sessions() == sessions_with(before.sessions(), game)
            } else {
                &&& r matches Err(e)
                &&& e@ is Std
                &&& after.sessions() == before.sessions()
            }
        },
    }
}

/// Starts a game of the sender against `opponent`, with the attached
/// funds as the wager. `validated` is what the chain's address validator
/// said of `opponent`. The game is stored under both orders of the two
/// players, or not at all.
pub fn try_start_game(
    store: &mut StoreMut,
    info: MessageInfo,
    opponent: String,
    validated: Result<String, StdError>,
    host_move: GameMove,
) -> (r: Result<Response, ContractError>)
    ensures
        start_outcome(*old(store), *final(store), info, opponent, validated, host_move, r),
{
    let address = match check_start(&info, &opponent, validated) {
        Ok(address) => address,
        Err(e) => {
            return Err(e);
        },
    };
    let existing = load_game(&reader(store), info.sender.as_str(), address.as_str());
    let (game, response) = match open_game(&info, &address, host_move, existing.is_some()) {
        Ok(opened) => opened,
        Err(e) => {
            return Err(e);
        },
    };
    match save_game(store, info.sender.as_str(), address.as_str(), &game) {
        Ok(()) => {},
        Err(e) => {
            return Err(ContractError::from(e));
        },
    }
    match save_game(store, address.as_str(), info.sender.as_str(), &game) {
        Ok(()) => {},
        Err(e) => {
            remove_game(store, info.sender.as_str(), address.as_str());
            assert(store.sessions() =~= old(store).sessions());
            return Err(ContractError::from(e));
        },
    }
    Ok(response)
}

} // verus!
