//! The direction of a token flow and the price that two flows imply.

use vstd::prelude::*;
use crate::decimal::{magnitude, magnitude_of, pow10};

verus! {

/// The number of decimal places of the native asset.
pub const NATIVE_DECIMALS: u32 = 9;

/// The price of one token unit in native units, as an exact fraction of
/// the two flows it was read from: `native / 10^9` native units were paid
/// for `token / 10^token_decimals` token units. Both amounts are
/// magnitudes, in base units, and neither is zero.
#[derive(Debug, Clone, Copy, PartialEq, Eq, Structural)]
pub struct Price {
    /// The magnitude of the native flow, in base units.
    pub native: u128,
    /// The magnitude of the token flow, in base units.
    pub token: u128,
    /// The number of decimal places of the token.
    pub token_decimals: u32,
}

impl Price {
    /// The numerator of the price in native units per token unit.
    pub open spec fn numerator(self) -> nat {
        self.native as nat * pow10(self.token_decimals as nat)
    }

    /// The denominator of the price in native units per token unit.
    pub open spec fn denominator(self) -> nat {
        self.token as nat * pow10(NATIVE_DECIMALS as nat)
    }
}

/// The price that a native flow and a token flow imply: none where either
/// flow is zero, else the fraction of their magnitudes.
pub open spec fn implied_price(native_net: int, token_net: int, token_decimals: u32) -> Option<
    Price,
> {
    if native_net == 0 || token_net == 0 {
        None
    } else {
        Some(
            Price {
                native: magnitude(native_net) as u128,
                token: magnitude(token_net) as u128,
                token_decimals,
            },
        )
    }
}

/// The label of a net token flow: an inflow is a buy, an outflow a sell.
pub open spec fn direction_label(token_net: int) -> Seq<char> {
    if token_net > 0 {
        "BUY"@
    } else if token_net < 0 {
        "SELL"@
    } else {
        "NEUTRAL"@
    }
}

/// A flow on one side only implies no price, whatever the other side and
/// the decimals are.
pub proof fn law_one_sided_flow_has_no_price(net: int, token_decimals: u32)
    ensures
        implied_price(0, net, token_decimals) is None,
        implied_price(net, 0, token_decimals) is None,
{
}

/// Two flows that are both not zero imply a price, and it does not depend
/// on the direction of either flow.
pub proof fn law_price_ignores_direction(native_net: int, token_net: int, token_decimals: u32)
    requires
        native_net != 0,
        token_net != 0,
    ensures
        implied_price(native_net, token_net, token_decimals) is Some,
        implied_price(native_net, token_net, token_decimals) == implied_price(
            -native_net,
            token_net,
            token_decimals,
        ),
        implied_price(native_net, token_net, token_decimals) == implied_price(
            native_net,
            -token_net,
            token_decimals,
        ),
{
}

/// Derives the price that a native flow and a token flow imply. There is
/// none where either flow is zero. The sign of the flows is dropped.
pub fn price_from_flows(sol_lamports: i128, token_raw: i128, token_decimals: u32) -> (price:
    Option<Price>)
    ensures
        price == implied_price(sol_lamports as int, token_raw as int, token_decimals),
{
    if sol_lamports == 0 || token_raw == 0 {
        None
    } else {
        Some(
            Price {
                native: magnitude_of(sol_lamports),
                token: magnitude_of(token_raw),
                token_decimals,
            },
        )
    }
}

/// Names the direction of a net token flow.
pub fn dir_text(tk_net: i128) -> (label: &'static str)
    ensures
        label@ == direction_label(tk_net as int),
{
    if tk_net > 0 {
        "BUY"
    } else if tk_net < 0 {
        "SELL"
    } else {
        "NEUTRAL"
    }
}

} // verus!
