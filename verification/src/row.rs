//! One row of the trading history per transaction.

use vstd::prelude::*;
use vstd::string::*;
use crate::classify::{classification, classify_exec};
use crate::clock::{epoch_seconds, in_calendar, unix_to_iso, utc_text};
use crate::decimal::{fixed_decimal, fixed_text, plain_decimal, plain_text};
use crate::flows::{checked_net_native, checked_net_token, net_delta, totals_fit};
use crate::model::{Transaction, TransactionView};
use crate::price::{
    direction_label, dir_text, implied_price, price_from_flows, Price, NATIVE_DECIMALS,
};

verus! {

/// The number of decimal places of every with_token token. The declared
/// standard of a token does not change it.
pub const TOKEN_DECIMALS: u32 = 6;

/// The number of characters of a signature that a row shows.
pub const SIGNATURE_WIDTH: usize = 10;

/// One row of the trading history.
#[derive(Debug)]
pub struct Row {
    /// The time of the transaction, as date and time in UTC.
    pub time: String,
    /// The start of the signature, and an ellipsis.
    pub sig: String,
    /// The label of the execution kind.
    pub execution: String,
    /// The venue label.
    pub route: String,
    /// The direction of the token flow; empty where no token is with_token.
    pub direction: String,
    /// The net change of the native balance, in native units.
    pub sol_change: String,
    /// The net change of the token balance, in token units; empty where
    /// no token is with_token.
    pub token_change: String,
    /// The price that the two changes imply, if they imply one.
    pub price: Option<Price>,
}

/// The texts of a `Row`.
pub struct RowView {
    pub time: Seq<char>,
    pub sig: Seq<char>,
    pub execution: Seq<char>,
    pub route: Seq<char>,
    pub direction: Seq<char>,
    pub sol_change: Seq<char>,
    pub token_change: Seq<char>,
    pub price: Option<Price>,
}

impl View for Row {
    type V = RowView;

    open spec fn view(&self) -> RowView {
        RowView {
            time: self.time@,
            sig: self.sig@,
            execution: self.execution@,
            route: self.route@,
            direction: self.direction@,
            sol_change: self.sol_change@,
            token_change: self.token_change@,
            price: self.price,
        }
    }
}

/// Why no row can be made of a transaction.
#[derive(Debug, Clone, Copy, PartialEq, Eq, Structural)]
pub enum RowError {
    /// A running total of the native flows leaves the range of `i128`.
    NativeOverflow,
    /// A running total of the token flows leaves the range of `i128`.
    TokenOverflow,
    /// The calendar does not hold the timestamp.
    TimestampOutOfRange,
}

/// Whether a token is with_token: the empty mint stands for none.
pub open spec fn tracks_token(mint: Seq<char>) -> bool {
    mint.len() > 0
}

/// The first characters of a signature, up to `SIGNATURE_WIDTH`, and an
/// ellipsis.
pub open spec fn short_signature(signature: Seq<char>) -> Seq<char> {
    (if signature.len() <= SIGNATURE_WIDTH {
        signature
    } else {
        signature.take(SIGNATURE_WIDTH as int)
    }) + "\u{2026}"@
}

/// The net change of the with_token token; zero where none is with_token.
pub open spec fn token_change(tx: TransactionView, owner: Seq<char>, mint: Seq<char>) -> int {
    if tracks_token(mint) {
        net_delta(tx.token, owner, Some(mint))
    } else {
        0
    }
}

/// The row of a transaction for the wallet `owner` and the with_token token
/// `mint`.
pub open spec fn row_of(tx: TransactionView, owner: Seq<char>, mint: Seq<char>) -> RowView {
    let native = net_delta(tx.native, owner, None);
    let token = token_change(tx, owner, mint);
    RowView {
        time: utc_text(epoch_seconds(tx.timestamp)),
        sig: short_signature(tx.signature),
        execution: classification(tx).0.label_text(),
        route: classification(tx).1,
        direction: if tracks_token(mint) {
            direction_label(token)
        } else {
            Seq::empty()
        },
        sol_change: fixed_decimal(native, NATIVE_DECIMALS as nat),
        token_change: if tracks_token(mint) {
            plain_decimal(token, TOKEN_DECIMALS as nat)
        } else {
            Seq::empty()
        },
        price: if tracks_token(mint) {
            implied_price(native, token, TOKEN_DECIMALS)
        } else {
            None
        },
    }
}

/// Why no row can be made of a transaction, if none can.
pub open spec fn row_failure(tx: TransactionView, owner: Seq<char>, mint: Seq<char>) -> Option<
    RowError,
> {
    if !totals_fit(tx.native, owner, None) {
        Some(RowError::NativeOverflow)
    } else if tracks_token(mint) && !totals_fit(tx.token, owner, Some(mint)) {
        Some(RowError::TokenOverflow)
    } else if !in_calendar(epoch_seconds(tx.timestamp)) {
        Some(RowError::TimestampOutOfRange)
    } else {
        None
    }
}

/// The first characters of a signature, up to `SIGNATURE_WIDTH`, and an
/// ellipsis.
pub fn short_signature_of(signature: &str) -> (short: String)
    ensures
        short@ == short_signature(signature@),
{
    let head = if signature.unicode_len() <= SIGNATURE_WIDTH {
        signature
    } else {
        let cut = signature.substring_char(0, SIGNATURE_WIDTH);
        assert(cut@ =~= signature@.take(SIGNATURE_WIDTH as int));
        cut
    };
    let mut short = head.to_owned();
    short.append("\u{2026}");
    short
}

/// Writes a net change of the native balance in native units, with nine
/// fraction digits.
pub fn native_change_text(net: i128) -> (text: String)
    ensures
        text@ == fixed_decimal(net as int, NATIVE_DECIMALS as nat),
{
    fixed_text(net, NATIVE_DECIMALS)
}

/// Writes a net change of a token balance in token units, with the
/// fraction digits that it needs.
pub fn token_change_text(net: i128) -> (text: String)
    ensures
        text@ == plain_decimal(net as int, TOKEN_DECIMALS as nat),
{
    plain_text(net, TOKEN_DECIMALS)
}

/// Assembles the row of a transaction for the wallet `owner`. Where
/// `target_mint` is not empty, the row also tells the net change of that
/// token, its direction and the implied price.
pub fn build_row(tx: &Transaction, owner: &str, target_mint: &str) -> (row: Result<Row, RowError>)
    ensures
        match row {
            Ok(r) => row_failure(tx@, owner@, target_mint@) is None && r@ == row_of(
                tx@,
                owner@,
                target_mint@,
            ),
            Err(e) => row_failure(tx@, owner@, target_mint@) == Some(e),
        },
{
    let (kind, route) = classify_exec(tx);
    let sol_net = match checked_net_native(tx, owner) {
        Some(net) => net,
        None => {
            return Err(RowError::NativeOverflow);
        },
    };
    let with_token = !target_mint.is_empty();
    let tk_net: i128 = if with_token {
        match checked_net_token(tx, owner, target_mint) {
            Some(net) => net,
            None => {
                return Err(RowError::TokenOverflow);
            },
        }
    } else {
        0
    };
    let time = match unix_to_iso(tx.timestamp) {
        Some(text) => text,
        None => {
            return Err(RowError::TimestampOutOfRange);
        },
    };
    let price = if with_token {
        price_from_flows(sol_net, tk_net, TOKEN_DECIMALS)
    } else {
        None
    };
    let direction = if with_token {
        dir_text(tk_net).to_owned()
    } else {
        String::new()
    };
    let token_change = if with_token {
        token_change_text(tk_net)
    } else {
        String::new()
    };
    Ok(
        Row {
            time,
            sig: short_signature_of(tx.signature.as_str()),
            execution: kind.label().to_owned(),
            route,
            direction,
            sol_change: native_change_text(sol_net),
            token_change,
            price,
        },
    )
}

} // verus!
