use vstd::prelude::*;
use crate::error::{ContractError, ContractErrorView};
use crate::msg::{bank_msgs_view, BankMsg, BankMsgView};
use crate::state::{coins_view, Coin, CoinView, GameResult};

verus! {

/// Whether every coin of `a`, added to the coin of `b` at the same place,
/// still fits in 128 bits.
pub open spec fn sums_fit(a: Seq<CoinView>, b: Seq<CoinView>) -> bool {
    forall|i: int| 0 <= i < a.len() ==> (#[trigger] a[i]).amount + b[i].amount <= u128::MAX
}

/// Two matching wagers added up, denomination by denomination.
pub open spec fn summed(a: Seq<CoinView>, b: Seq<CoinView>) -> Seq<CoinView> {
    Seq::new(a.len(), |i: int| CoinView { denom: a[i].denom, amount: a[i].amount + b[i].amount })
}

/// The payments that settle a game: after a tie each player gets the own
/// wager back, otherwise the winner gets both wagers in one payment.
pub open spec fn payouts(
    result: GameResult,
    host_wager: Seq<CoinView>,
    opp_wager: Seq<CoinView>,
    host: Seq<char>,
    opponent: Seq<char>,
) -> Seq<BankMsgView> {
    match result {
        GameResult::Tie => seq![
            BankMsgView { to_address: host, amount: host_wager },
            BankMsgView { to_address: opponent, amount: opp_wager },
        ],
        GameResult::HostWins => seq![
            BankMsgView { to_address: host, amount: summed(host_wager, opp_wager) },
        ],
        GameResult::OpponentWins => seq![
            BankMsgView { to_address: opponent, amount: summed(host_wager, opp_wager) },
        ],
    }
}

/// Whether settling a game with this result can be paid out: a tie always
/// can, a win only if the doubled wager fits.
pub open spec fn payable(result: GameResult, host_wager: Seq<CoinView>, opp_wager: Seq<CoinView>) -> bool {
    result == GameResult::Tie || sums_fit(host_wager, opp_wager)
}

/// Adds two matching wagers; `None` if an amount overflows.
pub fn add_wagers(a: &Vec<Coin>, b: &Vec<Coin>) -> (r: Option<Vec<Coin>>)
    requires
        a.len() == b.len(),
    ensures
        r is Some <==> sums_fit(coins_view(a@), coins_view(b@)),
        r matches Some(total) ==> coins_view(total@) == summed(coins_view(a@), coins_view(b@)),
{
    let ghost av = coins_view(a@);
    let ghost bv = coins_view(b@);
    let mut total: Vec<Coin> = Vec::new();
    let mut i: usize = 0;
    while i < a.len()
        invariant
            i <= a.len(),
            a.len() == b.len(),
            av == coins_view(a@),
            bv == coins_view(b@),
            total.len() == i,
            forall|j: int| 0 <= j < i ==> (#[trigger] av[j]).amount + bv[j].amount <= u128::MAX,
            forall|j: int| 0 <= j < i ==> (#[trigger] total[j])@ == summed(av, bv)[j],
        decreases a.len() - i,
    {
        match a[i].amount.checked_add(b[i].amount) {
            Some(sum) => {
                total.push(Coin { denom: a[i].denom.clone(), amount: sum });
            },
            None => {
                assert(av[i as int].amount + bv[i as int].amount > u128::MAX);
                return None;
            },
        }
        i += 1;
    }
    assert(coins_view(total@) =~= summed(av, bv));
    Some(total)
}

/// Computes the payments that settle a game between `host` and `opponent`.
/// The wagers must match. Nothing is paid here: the caller hands the
/// payments to the chain.
pub fn send_funds_to_winner(
    result: GameResult,
    opp_wager: Vec<Coin>,
    host_wager: Vec<Coin>,
    host: String,
    opponent: String,
) -> (r: Result<Vec<BankMsg>, ContractError>)
    requires
        coins_view(opp_wager@) == coins_view(host_wager@),
    ensures
        r is Ok <==> payable(result, coins_view(host_wager@), coins_view(opp_wager@)),
        r matches Ok(msgs) ==> bank_msgs_view(msgs@) == payouts(
            result,
            coins_view(host_wager@),
            coins_view(opp_wager@),
            host@,
            opponent@,
        ),
        r matches Err(e) ==> e@ == ContractErrorView::CounterOverflow,
{
    let mut bank_msgs: Vec<BankMsg> = Vec::new();
    assert(host_wager.len() == opp_wager.len()) by {
        assert(coins_view(host_wager@).len() == host_wager@.len());
        assert(coins_view(opp_wager@).len() == opp_wager@.len());
    }
    match result {
        GameResult::Tie => {
            bank_msgs.push(BankMsg { to_address: host, amount: host_wager });
            bank_msgs.push(BankMsg { to_address: opponent, amount: opp_wager });
        },
        GameResult::HostWins => {
            match add_wagers(&host_wager, &opp_wager) {
                Some(total) => {
                    bank_msgs.push(BankMsg { to_address: host, amount: total });
                },
                None => {
                    return Err(ContractError::CounterOverflow {  });
                },
            }
        },
        GameResult::OpponentWins => {
            match add_wagers(&host_wager, &opp_wager) {
                Some(total) => {
                    bank_msgs.push(BankMsg { to_address: opponent, amount: total });
                },
                None => {
                    return Err(ContractError::CounterOverflow {  });
                },
            }
        },
    }
    assert(bank_msgs_view(bank_msgs@) =~= payouts(
        result,
        coins_view(host_wager@),
        coins_view(opp_wager@),
        host@,
        opponent@,
    ));
    Ok(bank_msgs)
}

} // verus!
