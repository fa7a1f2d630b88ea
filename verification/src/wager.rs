use vstd::prelude::*;
use vstd::string::StringExecFns;
use crate::state::{coins_view, Coin, CoinView};

verus! {

/// A copy of a coin.
pub fn clone_coin(c: &Coin) -> (r: Coin)
    ensures
        r@ == c@,
{
    Coin { denom: c.denom.clone(), amount: c.amount }
}

/// A copy of a wager.
pub fn clone_coins(coins: &Vec<Coin>) -> (r: Vec<Coin>)
    ensures
        coins_view(r@) == coins_view(coins@),
{
    let mut out: Vec<Coin> = Vec::new();
    let mut i: usize = 0;
    while i < coins.len()
        invariant
            i <= coins.len(),
            out.len() == i,
            forall|j: int| 0 <= j < i ==> out[j]@ == coins[j]@,
        decreases coins.len() - i,
    {
        out.push(clone_coin(&coins[i]));
        i += 1;
    }
    assert(coins_view(out@) =~= coins_view(coins@));
    out
}

/// Whether two wagers are the same: the same denominations with the same
/// amounts in the same order.
pub fn coins_equal(a: &Vec<Coin>, b: &Vec<Coin>) -> (r: bool)
    ensures
        r == (coins_view(a@) == coins_view(b@)),
{
    if a.len() != b.len() {
        assert(coins_view(a@).len() != coins_view(b@).len());
        return false;
    }
    let mut i: usize = 0;
    while i < a.len()
        invariant
            i <= a.len(),
            a.len() == b.len(),
            forall|j: int| 0 <= j < i ==> a[j]@ == b[j]@,
        decreases a.len() - i,
    {
        if a[i].denom != b[i].denom || a[i].amount != b[i].amount {
            assert(coins_view(a@)[i as int] == a[i as int]@);
            assert(coins_view(b@)[i as int] == b[i as int]@);
            return false;
        }
        i += 1;
    }
    assert(coins_view(a@) =~= coins_view(b@));
    true
}

/// The character of one decimal digit.
pub open spec fn digit_char(d: nat) -> char {
    if d == 0 {
        '0'
    } else if d == 1 {
        '1'
    } else if d == 2 {
        '2'
    } else if d == 3 {
        '3'
    } else if d == 4 {
        '4'
    } else if d == 5 {
        '5'
    } else if d == 6 {
        '6'
    } else if d == 7 {
        '7'
    } else if d == 8 {
        '8'
    } else {
        '9'
    }
}

/// A number written in decimal, without a sign and without leading zeros.
pub open spec fn decimal(n: nat) -> Seq<char>
    decreases n,
{
    if n < 10 {
        seq![digit_char(n)]
    } else {
        decimal(n / 10) + seq![digit_char(n % 10)]
    }
}

fn digit_str(d: u128) -> (s: &'static str)
    requires
        d < 10,
    ensures
        s@ == seq![digit_char(d as nat)],
{
    proof {
        reveal_strlit("0");
        reveal_strlit("1");
        reveal_strlit("2");
        reveal_strlit("3");
        reveal_strlit("4");
        reveal_strlit("5");
        reveal_strlit("6");
        reveal_strlit("7");
        reveal_strlit("8");
        reveal_strlit("9");
    }
    let s = if d == 0 {
        "0"
    } else if d == 1 {
        "1"
    } else if d == 2 {
        "2"
    } else if d == 3 {
        "3"
    } else if d == 4 {
        "4"
    } else if d == 5 {
        "5"
    } else if d == 6 {
        "6"
    } else if d == 7 {
        "7"
    } else if d == 8 {
        "8"
    } else {
        "9"
    };
    assert(s@ =~= seq![digit_char(d as nat)]);
    s
}

/// Writes an amount in decimal.
pub fn decimal_string(n: u128) -> (s: String)
    ensures
        s@ == decimal(n as nat),
{
    let mut text = String::from_str(digit_str(n % 10));
    let mut rest: u128 = n / 10;
    while rest > 0
        invariant
            rest > 0 ==> decimal(n as nat) == decimal(rest as nat) + text@,
            rest == 0 ==> decimal(n as nat) == text@,
        decreases rest,
    {
        let ghost before = text@;
        let ghost r = rest;
        text = String::from_str(digit_str(rest % 10)).concat(text.as_str());
        rest = rest / 10;
        proof {
            assert(text@ == seq![digit_char((r % 10) as nat)] + before);
            if rest > 0 {
                assert(decimal(r as nat) == decimal(rest as nat) + seq![digit_char((r % 10) as nat)]);
                assert(decimal(n as nat) =~= decimal(rest as nat) + text@);
            } else {
                assert(decimal(r as nat) == seq![digit_char(r as nat)]);
                assert(decimal(n as nat) =~= text@);
            }
        }
    }
    text
}

/// A wager as the attributes show it: for each coin in turn its amount in
/// decimal, its denomination and one space.
pub open spec fn wager_text(coins: Seq<CoinView>) -> Seq<char>
    decreases coins.len(),
{
    if coins.len() == 0 {
        Seq::<char>::empty()
    } else {
        wager_text(coins.drop_last()) + decimal(coins.last().amount) + coins.last().denom + seq![' ']
    }
}

/// Renders a wager for an attribute.
pub fn wager_string(coins: &Vec<Coin>) -> (s: String)
    ensures
        s@ == wager_text(coins_view(coins@)),
{
    proof {
        reveal_strlit(" ");
    }
    let mut text = String::new();
    let mut i: usize = 0;
    while i < coins.len()
        invariant
            i <= coins.len(),
            text@ == wager_text(coins_view(coins@).take(i as int)),
            " "@ == seq![' '],
        decreases coins.len() - i,
    {
        let ghost all = coins_view(coins@);
        let amount = decimal_string(coins[i].amount);
        text.append(amount.as_str());
        text.append(coins[i].denom.as_str());
        text.append(" ");
        proof {
            assert(all.take(i + 1).drop_last() =~= all.take(i as int));
            assert(all.take(i + 1).last() == coins[i as int]@);
        }
        i += 1;
    }
    assert(coins_view(coins@).take(i as int) =~= coins_view(coins@));
    text
}

} // verus!
