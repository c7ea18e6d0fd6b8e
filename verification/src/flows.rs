//! The net change of one owner's balance over the transfer legs of a
//! transaction, in exact integer arithmetic on base units.

use vstd::prelude::*;
use crate::decimal::parse_amount;
use crate::model::{Leg, NativeTransfer, TokenTransfer, Transaction};

verus! {

/// Whether a leg moves the asset that is asked for. Without an asset every
/// leg counts.
pub open spec fn counts(leg: Leg, asset: Option<Seq<char>>) -> bool {
    asset is None || leg.asset == asset
}

/// What a leg credits to `owner`: its amount where `owner` receives.
pub open spec fn credit(leg: Leg, owner: Seq<char>) -> int {
    if leg.to == Some(owner) {
        leg.amount
    } else {
        0
    }
}

/// What a leg debits from `owner`: its amount where `owner` sends.
pub open spec fn debit(leg: Leg, owner: Seq<char>) -> int {
    if leg.from == Some(owner) {
        leg.amount
    } else {
        0
    }
}

/// What a leg changes in the balance of `owner`.
pub open spec fn leg_delta(leg: Leg, owner: Seq<char>, asset: Option<Seq<char>>) -> int {
    if counts(leg, asset) {
        credit(leg, owner) - debit(leg, owner)
    } else {
        0
    }
}

/// The net change of the balance of `owner` over the legs that move `asset`.
pub open spec fn net_delta(legs: Seq<Leg>, owner: Seq<char>, asset: Option<Seq<char>>) -> int
    decreases legs.len(),
{
    if legs.len() == 0 {
        0
    } else {
        net_delta(legs.drop_last(), owner, asset) + leg_delta(legs.last(), owner, asset)
    }
}

/// All that the legs that move `asset` credit to `owner`.
pub open spec fn total_credit(legs: Seq<Leg>, owner: Seq<char>, asset: Option<Seq<char>>) -> int
    decreases legs.len(),
{
    if legs.len() == 0 {
        0
    } else {
        total_credit(legs.drop_last(), owner, asset) + if counts(legs.last(), asset) {
            credit(legs.last(), owner)
        } else {
            0
        }
    }
}

/// All that the legs that move `asset` debit from `owner`.
pub open spec fn total_debit(legs: Seq<Leg>, owner: Seq<char>, asset: Option<Seq<char>>) -> int
    decreases legs.len(),
{
    if legs.len() == 0 {
        0
    } else {
        total_debit(legs.drop_last(), owner, asset) + if counts(legs.last(), asset) {
            debit(legs.last(), owner)
        } else {
            0
        }
    }
}

/// Every running total of the net change fits in an `i128`.
pub open spec fn totals_fit(legs: Seq<Leg>, owner: Seq<char>, asset: Option<Seq<char>>) -> bool {
    forall|k: int|
        0 <= k <= legs.len() ==> i128::MIN <= #[trigger] net_delta(legs.take(k), owner, asset)
            <= i128::MAX
}

/// An owner whom no leg names as sender or receiver has a net change of
/// zero, whatever the legs and the asset.
pub proof fn law_unnamed_owner_nets_zero(
    legs: Seq<Leg>,
    owner: Seq<char>,
    asset: Option<Seq<char>>,
)
    requires
        forall|i: int|
            0 <= i < legs.len() ==> (#[trigger] legs[i]).from != Some(owner) && legs[i].to != Some(
                owner,
            ),
    ensures
        net_delta(legs, owner, asset) == 0,
        totals_fit(legs, owner, asset),
    decreases legs.len(),
{
    if legs.len() > 0 {
        law_unnamed_owner_nets_zero(legs.drop_last(), owner, asset);
        assert(legs.last() == legs[legs.len() - 1]);
    }
    assert forall|k: int| 0 <= k <= legs.len() implies i128::MIN <= #[trigger] net_delta(
        legs.take(k),
        owner,
        asset,
    ) <= i128::MAX by {
        if k == legs.len() {
            assert(legs.take(k) =~= legs);
        } else {
            assert(legs.drop_last().take(k) =~= legs.take(k));
        }
    }
}

/// The net change of an owner is all that the legs credit to it less all
/// that they debit from it: the amount of a leg enters once as a credit
/// for its receiver and once as a debit for its sender.
pub proof fn law_net_is_credit_less_debit(
    legs: Seq<Leg>,
    owner: Seq<char>,
    asset: Option<Seq<char>>,
)
    ensures
        net_delta(legs, owner, asset) == total_credit(legs, owner, asset) - total_debit(
            legs,
            owner,
            asset,
        ),
    decreases legs.len(),
{
    if legs.len() > 0 {
        law_net_is_credit_less_debit(legs.drop_last(), owner, asset);
    }
}

/// Legs whose sender is their receiver change no balance: the amount is
/// debited and credited to the same owner.
pub proof fn law_self_transfers_net_zero(
    legs: Seq<Leg>,
    owner: Seq<char>,
    asset: Option<Seq<char>>,
)
    requires
        forall|i: int| 0 <= i < legs.len() ==> (#[trigger] legs[i]).from == legs[i].to,
    ensures
        net_delta(legs, owner, asset) == 0,
    decreases legs.len(),
{
    if legs.len() > 0 {
        law_self_transfers_net_zero(legs.drop_last(), owner, asset);
        assert(legs.last() == legs[legs.len() - 1]);
    }
}

/// Where every leg runs between the two owners `a` and `b`, what one of
/// them gains the other loses.
pub proof fn law_two_owners_balance(
    legs: Seq<Leg>,
    a: Seq<char>,
    b: Seq<char>,
    asset: Option<Seq<char>>,
)
    requires
        a != b,
        forall|i: int|
            0 <= i < legs.len() ==> ((#[trigger] legs[i]).from == Some(a) || legs[i].from == Some(
                b,
            )) && (legs[i].to == Some(a) || legs[i].to == Some(b)),
    ensures
        net_delta(legs, a, asset) + net_delta(legs, b, asset) == 0,
    decreases legs.len(),
{
    if legs.len() > 0 {
        law_two_owners_balance(legs.drop_last(), a, b, asset);
        assert(legs.last() == legs[legs.len() - 1]);
    }
}

/// Whether an optional account is `owner`.
fn is_account(account: &Option<String>, owner: &String) -> (same: bool)
    ensures
        same == (crate::model::text_of(*account) == Some(owner@)),
{
    match account {
        Some(a) => *a == *owner,
        None => false,
    }
}

/// Whether an optional mint is `mint`.
fn moves_asset(tag: &Option<String>, mint: &String) -> (same: bool)
    ensures
        same == (crate::model::text_of(*tag) == Some(mint@)),
{
    is_account(tag, mint)
}

/// The amount that an optional text encodes.
fn amount_of(text: &Option<String>) -> (amount: i128)
    ensures
        amount as int == crate::decimal::optional_amount(*text),
        amount >= 0,
{
    match text {
        Some(t) => parse_amount(t.as_str()),
        None => 0,
    }
}

/// What one transfer changes in the balance of `owner`, from its accounts
/// and its amount.
fn transfer_delta(
    from: &Option<String>,
    to: &Option<String>,
    amount: &Option<String>,
    owner: &String,
) -> (delta: i128)
    ensures
        delta as int == (if crate::model::text_of(*to) == Some(owner@) {
            crate::decimal::optional_amount(*amount)
        } else {
            0
        }) - (if crate::model::text_of(*from) == Some(owner@) {
            crate::decimal::optional_amount(*amount)
        } else {
            0
        }),
{
    let amount = amount_of(amount);
    let sends = is_account(from, owner);
    let receives = is_account(to, owner);
    if sends && !receives {
        -amount
    } else if receives && !sends {
        amount
    } else {
        0
    }
}

/// The net change over a list of native transfers, or nothing where a
/// running total leaves the range of `i128`.
fn sum_native(list: &Vec<NativeTransfer>, owner: &String) -> (net: Option<i128>)
    ensures
        net is Some <==> totals_fit(list@.map_values(|t: NativeTransfer| t@), owner@, None),
        net matches Some(n) ==> n as int == net_delta(
            list@.map_values(|t: NativeTransfer| t@),
            owner@,
            None,
        ),
{
    let ghost legs = list@.map_values(|t: NativeTransfer| t@);
    let mut net: i128 = 0;
    let mut i: usize = 0;
    while i < list.len()
        invariant
            i <= list.len(),
            legs == list@.map_values(|t: NativeTransfer| t@),
            net as int == net_delta(legs.take(i as int), owner@, None),
            forall|k: int|
                0 <= k <= i ==> i128::MIN <= #[trigger] net_delta(legs.take(k), owner@, None)
                    <= i128::MAX,
        decreases list.len() - i,
    {
        let t = &list[i];
        let delta = transfer_delta(&t.from_user_account, &t.to_user_account, &t.amount, owner);
        proof {
            assert(legs.take(i + 1).drop_last() =~= legs.take(i as int));
            assert(legs.take(i + 1).last() == t@);
        }
        match net.checked_add(delta) {
            Some(sum) => {
                net = sum;
            },
            None => {
                assert(net_delta(legs.take(i + 1), owner@, None) == net + delta);
                return None;
            },
        }
        i += 1;
    }
    assert(legs.take(list.len() as int) =~= legs);
    Some(net)
}

/// The net change over the token transfers that move `mint`, or nothing
/// where a running total leaves the range of `i128`.
fn sum_token(list: &Vec<TokenTransfer>, owner: &String, mint: &String) -> (net: Option<i128>)
    ensures
        net is Some <==> totals_fit(
            list@.map_values(|t: TokenTransfer| t@),
            owner@,
            Some(mint@),
        ),
        net matches Some(n) ==> n as int == net_delta(
            list@.map_values(|t: TokenTransfer| t@),
            owner@,
            Some(mint@),
        ),
{
    let ghost legs = list@.map_values(|t: TokenTransfer| t@);
    let mut net: i128 = 0;
    let mut i: usize = 0;
    while i < list.len()
        invariant
            i <= list.len(),
            legs == list@.map_values(|t: TokenTransfer| t@),
            net as int == net_delta(legs.take(i as int), owner@, Some(mint@)),
            forall|k: int|
                0 <= k <= i ==> i128::MIN <= #[trigger] net_delta(
                    legs.take(k),
                    owner@,
                    Some(mint@),
                ) <= i128::MAX,
        decreases list.len() - i,
    {
        let t = &list[i];
        proof {
            assert(legs.take(i + 1).drop_last() =~= legs.take(i as int));
            assert(legs.take(i + 1).last() == t@);
        }
        if moves_asset(&t.mint, mint) {
            let delta = transfer_delta(
                &t.from_user_account,
                &t.to_user_account,
                &t.token_amount,
                owner,
            );
            match net.checked_add(delta) {
                Some(sum) => {
                    net = sum;
                },
                None => {
                    assert(net_delta(legs.take(i + 1), owner@, Some(mint@)) == net + delta);
                    return None;
                },
            }
        }
        i += 1;
    }
    assert(legs.take(list.len() as int) =~= legs);
    Some(net)
}

/// The net change of the native balance of `owner` over a transaction, or
/// nothing where a running total leaves the range of `i128`.
pub fn checked_net_native(tx: &Transaction, owner: &str) -> (net: Option<i128>)
    ensures
        net is Some <==> totals_fit(tx@.native, owner@, None),
        net matches Some(n) ==> n as int == net_delta(tx@.native, owner@, None),
{
    let who = owner.to_owned();
    match &tx.native_transfers {
        Some(list) => sum_native(list, &who),
        None => {
            assert(tx@.native.take(0) =~= tx@.native);
            Some(0)
        },
    }
}

/// The net change of the balance of `owner` in the token `mint` over a
/// transaction, or nothing where a running total leaves the range of
/// `i128`.
pub fn checked_net_token(tx: &Transaction, owner: &str, mint: &str) -> (net: Option<i128>)
    ensures
        net is Some <==> totals_fit(tx@.token, owner@, Some(mint@)),
        net matches Some(n) ==> n as int == net_delta(tx@.token, owner@, Some(mint@)),
{
    let who = owner.to_owned();
    let asset = mint.to_owned();
    match &tx.token_transfers {
        Some(list) => sum_token(list, &who, &asset),
        None => {
            assert(tx@.token.take(0) =~= tx@.token);
            Some(0)
        },
    }
}

/// The net change of the native balance of `owner` over the native
/// transfers of a transaction: what `owner` receives less what it sends.
pub fn net_native(tx: &Transaction, owner: &str) -> (net: i128)
    requires
        totals_fit(tx@.native, owner@, None),
    ensures
        net as int == net_delta(tx@.native, owner@, None),
{
    match checked_net_native(tx, owner) {
        Some(net) => net,
        None => 0,
    }
}

/// The net change of the balance of `owner` in the token `mint` over the
/// token transfers of a transaction. Legs of other tokens do not count.
pub fn net_token(tx: &Transaction, owner: &str, mint: &str) -> (net: i128)
    requires
        totals_fit(tx@.token, owner@, Some(mint@)),
    ensures
        net as int == net_delta(tx@.token, owner@, Some(mint@)),
{
    match checked_net_token(tx, owner, mint) {
        Some(net) => net,
        None => 0,
    }
}

} // verus!
