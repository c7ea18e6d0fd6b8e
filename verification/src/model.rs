//! Transaction records as they are fetched, and what the analysis reads in
//! them. Every optional part of a record may be absent; the view of a
//! record holds an empty sequence in place of an absent list.

use vstd::prelude::*;
use crate::decimal::optional_amount;
use crate::text::texts;

verus! {

/// The characters of an optional string.
pub open spec fn text_of(text: Option<String>) -> Option<Seq<char>> {
    match text {
        Some(t) => Some(t@),
        None => None,
    }
}

/// One leg of an asset movement, as the accounting reads it.
pub struct Leg {
    /// The sending account.
    pub from: Option<Seq<char>>,
    /// The receiving account.
    pub to: Option<Seq<char>>,
    /// The amount moved, in base units; zero where none is readable.
    pub amount: int,
    /// The asset moved; absent for the native asset.
    pub asset: Option<Seq<char>>,
}

/// One leg of native-asset movement.
#[derive(Debug)]
pub struct NativeTransfer {
    pub from_user_account: Option<String>,
    pub to_user_account: Option<String>,
    /// Base units, as decimal text.
    pub amount: Option<String>,
}

impl View for NativeTransfer {
    type V = Leg;

    open spec fn view(&self) -> Leg {
        Leg {
            from: text_of(self.from_user_account),
            to: text_of(self.to_user_account),
            amount: optional_amount(self.amount),
            asset: None,
        }
    }
}

/// One leg of token movement.
#[derive(Debug)]
pub struct TokenTransfer {
    pub from_user_account: Option<String>,
    pub to_user_account: Option<String>,
    /// Base units, as decimal text.
    pub token_amount: Option<String>,
    /// The token moved.
    pub mint: Option<String>,
    /// The declared standard of the token. No rule reads it.
    pub token_standard: Option<String>,
}

impl View for TokenTransfer {
    type V = Leg;

    open spec fn view(&self) -> Leg {
        Leg {
            from: text_of(self.from_user_account),
            to: text_of(self.to_user_account),
            amount: optional_amount(self.token_amount),
            asset: text_of(self.mint),
        }
    }
}

/// Names under which a program may report its venue.
#[derive(Debug)]
pub struct ProgramInfo {
    pub source: Option<String>,
    pub name: Option<String>,
    pub market: Option<String>,
}

/// What the analysis reads in a `ProgramInfo`.
pub struct ProgramNames {
    pub source: Option<Seq<char>>,
    pub name: Option<Seq<char>>,
    pub market: Option<Seq<char>>,
}

impl View for ProgramInfo {
    type V = ProgramNames;

    open spec fn view(&self) -> ProgramNames {
        ProgramNames {
            source: text_of(self.source),
            name: text_of(self.name),
            market: text_of(self.market),
        }
    }
}

/// The names of an optional `ProgramInfo`.
pub open spec fn names_of(info: Option<ProgramInfo>) -> Option<ProgramNames> {
    match info {
        Some(p) => Some(p@),
        None => None,
    }
}

/// A swap reported for a transaction.
#[derive(Debug)]
pub struct SwapEvent {
    pub source: Option<String>,
    pub liquidity_source: Option<String>,
    pub program_info: Option<ProgramInfo>,
}

/// What the analysis reads in a `SwapEvent`.
pub struct SwapNames {
    pub source: Option<Seq<char>>,
    pub liquidity_source: Option<Seq<char>>,
    pub program_info: Option<ProgramNames>,
}

impl View for SwapEvent {
    type V = SwapNames;

    open spec fn view(&self) -> SwapNames {
        SwapNames {
            source: text_of(self.source),
            liquidity_source: text_of(self.liquidity_source),
            program_info: names_of(self.program_info),
        }
    }
}

/// An order-book event reported for a transaction.
#[derive(Debug)]
pub struct DexEvent {
    pub market: Option<String>,
    pub program_info: Option<ProgramInfo>,
}

/// What the analysis reads in a `DexEvent`.
pub struct DexNames {
    pub market: Option<Seq<char>>,
    pub program_info: Option<ProgramNames>,
}

impl View for DexEvent {
    type V = DexNames;

    open spec fn view(&self) -> DexNames {
        DexNames { market: text_of(self.market), program_info: names_of(self.program_info) }
    }
}

/// The events reported for a transaction.
#[derive(Debug)]
pub struct Events {
    pub swap: Option<Vec<SwapEvent>>,
    pub dex: Option<Vec<DexEvent>>,
}

/// One transaction of the wallet's history.
#[derive(Debug)]
pub struct Transaction {
    /// The unique identifier of the transaction.
    pub signature: String,
    /// Seconds since the Unix epoch.
    pub timestamp: u64,
    pub native_transfers: Option<Vec<NativeTransfer>>,
    pub token_transfers: Option<Vec<TokenTransfer>>,
    pub events: Option<Events>,
    pub logs: Option<Vec<String>>,
    /// The error that the chain reported, as text. Its presence alone is
    /// read: the transaction failed.
    pub transaction_error: Option<String>,
}

/// What the analysis reads in a `Transaction`.
pub struct TransactionView {
    pub signature: Seq<char>,
    pub timestamp: u64,
    pub native: Seq<Leg>,
    pub token: Seq<Leg>,
    pub swaps: Seq<SwapNames>,
    pub dexes: Seq<DexNames>,
    pub logs: Seq<Seq<char>>,
    pub failed: bool,
}

/// The legs of an optional list of native transfers.
pub open spec fn native_legs(list: Option<Vec<NativeTransfer>>) -> Seq<Leg> {
    match list {
        Some(v) => v@.map_values(|t: NativeTransfer| t@),
        None => Seq::empty(),
    }
}

/// The legs of an optional list of token transfers.
pub open spec fn token_legs(list: Option<Vec<TokenTransfer>>) -> Seq<Leg> {
    match list {
        Some(v) => v@.map_values(|t: TokenTransfer| t@),
        None => Seq::empty(),
    }
}

/// The swap events of optional events.
pub open spec fn swap_names(events: Option<Events>) -> Seq<SwapNames> {
    match events {
        Some(Events { swap: Some(v), .. }) => v@.map_values(|e: SwapEvent| e@),
        _ => Seq::empty(),
    }
}

/// The order-book events of optional events.
pub open spec fn dex_names(events: Option<Events>) -> Seq<DexNames> {
    match events {
        Some(Events { dex: Some(v), .. }) => v@.map_values(|e: DexEvent| e@),
        _ => Seq::empty(),
    }
}

/// The lines of an optional log.
pub open spec fn log_lines(logs: Option<Vec<String>>) -> Seq<Seq<char>> {
    match logs {
        Some(v) => texts(v@),
        None => Seq::empty(),
    }
}

impl View for Transaction {
    type V = TransactionView;

    open spec fn view(&self) -> TransactionView {
        TransactionView {
            signature: self.signature@,
            timestamp: self.timestamp,
            native: native_legs(self.native_transfers),
            token: token_legs(self.token_transfers),
            swaps: swap_names(self.events),
            dexes: dex_names(self.events),
            logs: log_lines(self.logs),
            failed: self.transaction_error is Some,
        }
    }
}

} // verus!
