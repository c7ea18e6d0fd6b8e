//! How a transaction was executed, and at which venue. Three rules are
//! tried in turn, and the first that applies decides: reported swaps,
//! reported order-book events, and at last the log lines.

use vstd::prelude::*;
use vstd::string::*;
use crate::model::{
    text_of, DexEvent, DexNames, SwapEvent, SwapNames, Transaction, TransactionView,
};
use crate::text::{
    chars_of, contains_chars, contains_text, join, joined, lowercase, texts, to_lower,
};

verus! {

/// The way a transaction was executed.
#[derive(Debug, Clone, Copy, PartialEq, Eq, Structural)]
pub enum ExecKind {
    /// A swap through a router or an automated market maker.
    Swap,
    /// An order placed on an order book.
    Limit,
    /// Anything else.
    Other,
}

/// The first of three optional names that is present.
pub open spec fn first_present(
    a: Option<Seq<char>>,
    b: Option<Seq<char>>,
    c: Option<Seq<char>>,
) -> Option<Seq<char>> {
    if a is Some {
        a
    } else if b is Some {
        b
    } else {
        c
    }
}

/// The venue that a swap names: its source, else its liquidity source,
/// else the source of its program.
pub open spec fn swap_label(event: SwapNames) -> Option<Seq<char>> {
    first_present(
        event.source,
        event.liquidity_source,
        match event.program_info {
            Some(p) => p.source,
            None => None,
        },
    )
}

/// The venue that an order-book event names: its market, else the name of
/// its program, else the market of its program.
pub open spec fn dex_label(event: DexNames) -> Option<Seq<char>> {
    first_present(
        event.market,
        match event.program_info {
            Some(p) => p.name,
            None => None,
        },
        match event.program_info {
            Some(p) => p.market,
            None => None,
        },
    )
}

/// The names that are present, in order.
pub open spec fn present(names: Seq<Option<Seq<char>>>) -> Seq<Seq<char>>
    decreases names.len(),
{
    if names.len() == 0 {
        Seq::empty()
    } else {
        let front = present(names.drop_last());
        match names.last() {
            Some(name) => front.push(name),
            None => front,
        }
    }
}

/// The venues that the swaps name, in order.
pub open spec fn swap_labels(events: Seq<SwapNames>) -> Seq<Seq<char>> {
    present(events.map_values(|e: SwapNames| swap_label(e)))
}

/// The venues that the order-book events name, in order.
pub open spec fn dex_labels(events: Seq<DexNames>) -> Seq<Seq<char>> {
    present(events.map_values(|e: DexNames| dex_label(e)))
}

/// The route of swaps: the venues they name, joined by commas, or
/// `router/amm` where they name none.
pub open spec fn swap_route(events: Seq<SwapNames>) -> Seq<char> {
    let line = joined(swap_labels(events), ","@);
    if line.len() == 0 {
        "router/amm"@
    } else {
        line
    }
}

/// The lowercase form of a text; the empty text is its own.
pub open spec fn folded(text: Seq<char>) -> Seq<char> {
    if text.len() == 0 {
        text
    } else {
        lowercase(text)
    }
}

/// The venue of an order, from the lowercase venue names: the two known
/// order books by their proper names, `DEX` where nothing is named, and
/// else the names as they are.
pub open spec fn limit_venue(name: Seq<char>) -> Seq<char> {
    if contains_text(name, "phoenix"@) {
        "Phoenix"@
    } else if contains_text(name, "openbook"@) {
        "OpenBook"@
    } else if name.len() == 0 {
        "DEX"@
    } else {
        name
    }
}

/// Whether a lowercase log text holds one of the words that order-book
/// programs write.
pub open spec fn mentions_order(log: Seq<char>) -> bool {
    ||| contains_text(log, "placeorder"@)
    ||| contains_text(log, "postonly"@)
    ||| contains_text(log, "ioc"@)
    ||| contains_text(log, "fok"@)
}

/// What a lowercase log text says of the execution: an order, at a venue
/// that is only guessed, or nothing.
pub open spec fn log_verdict(log: Seq<char>) -> (ExecKind, Seq<char>) {
    if mentions_order(log) {
        (ExecKind::Limit, "orderbook(?)"@)
    } else {
        (ExecKind::Other, Seq::empty())
    }
}

/// The log lines that count: none of a failed transaction.
pub open spec fn visible_logs(tx: TransactionView) -> Seq<Seq<char>> {
    if tx.failed {
        Seq::empty()
    } else {
        tx.logs
    }
}

/// The execution kind and the venue label of a transaction.
pub open spec fn classification(tx: TransactionView) -> (ExecKind, Seq<char>) {
    if tx.swaps.len() > 0 {
        (ExecKind::Swap, swap_route(tx.swaps))
    } else if tx.dexes.len() > 0 {
        (ExecKind::Limit, limit_venue(folded(joined(dex_labels(tx.dexes), ","@))))
    } else {
        log_verdict(folded(joined(visible_logs(tx), " "@)))
    }
}

impl ExecKind {
    /// The label of the kind in a table.
    pub open spec fn label_text(self) -> Seq<char> {
        match self {
            ExecKind::Swap => "SWAP"@,
            ExecKind::Limit => "LIMIT"@,
            ExecKind::Other => "OTHER"@,
        }
    }

    /// The label of the kind in a table.
    pub fn label(self) -> (label: &'static str)
        ensures
            label@ == self.label_text(),
    {
        match self {
            ExecKind::Swap => "SWAP",
            ExecKind::Limit => "LIMIT",
            ExecKind::Other => "OTHER",
        }
    }
}

/// A transaction that reports a swap is a swap, whatever else it reports:
/// order-book events and log lines are not consulted.
pub proof fn law_swaps_decide_first(tx: TransactionView)
    requires
        tx.swaps.len() > 0,
    ensures
        classification(tx).0 == ExecKind::Swap,
        classification(tx).1 == swap_route(tx.swaps),
{
}

/// A transaction that reports no swap and an order-book event is an order,
/// and where the lowercase form of the venue names holds `phoenix`, its
/// venue is `Phoenix` and not the names that were found.
pub proof fn law_phoenix_by_its_name(tx: TransactionView)
    requires
        tx.swaps.len() == 0,
        tx.dexes.len() > 0,
        contains_text(folded(joined(dex_labels(tx.dexes), ","@)), "phoenix"@),
    ensures
        classification(tx) == (ExecKind::Limit, "Phoenix"@),
{
}

/// A transaction without swaps, order-book events and log lines is of the
/// kind `Other`, with an empty venue label.
pub proof fn law_bare_record_is_other(tx: TransactionView)
    requires
        tx.swaps.len() == 0,
        tx.dexes.len() == 0,
        tx.logs.len() == 0,
    ensures
        classification(tx) == (ExecKind::Other, Seq::<char>::empty()),
{
    lemma_empty_log_is_silent();
    assert(visible_logs(tx) =~= Seq::<Seq<char>>::empty());
}

/// The log lines of a failed transaction are not read: without swaps and
/// order-book events it is of the kind `Other`, whatever it logged.
pub proof fn law_failure_hides_logs(tx: TransactionView)
    requires
        tx.swaps.len() == 0,
        tx.dexes.len() == 0,
        tx.failed,
    ensures
        classification(tx) == (ExecKind::Other, Seq::<char>::empty()),
{
    lemma_empty_log_is_silent();
}

/// The empty log text mentions no order.
proof fn lemma_empty_log_is_silent()
    ensures
        !mentions_order(Seq::<char>::empty()),
        joined(Seq::<Seq<char>>::empty(), " "@) == Seq::<char>::empty(),
        folded(Seq::<char>::empty()) == Seq::<char>::empty(),
{
    reveal_strlit("placeorder");
    reveal_strlit("postonly");
    reveal_strlit("ioc");
    reveal_strlit("fok");
}

/// A copy of the first of three optional names that is present.
fn first_name(a: &Option<String>, b: &Option<String>, c: &Option<String>) -> (name: Option<
    String,
>)
    ensures
        text_of(name) == first_present(text_of(*a), text_of(*b), text_of(*c)),
{
    match a {
        Some(t) => Some(t.clone()),
        None => match b {
            Some(t) => Some(t.clone()),
            None => match c {
                Some(t) => Some(t.clone()),
                None => None,
            },
        },
    }
}

/// The venue that a swap names, if it names one.
pub fn swap_label_of(event: &SwapEvent) -> (name: Option<String>)
    ensures
        text_of(name) == swap_label(event@),
{
    match &event.program_info {
        Some(p) => first_name(&event.source, &event.liquidity_source, &p.source),
        None => first_name(&event.source, &event.liquidity_source, &None),
    }
}

/// The venue that an order-book event names, if it names one.
pub fn dex_label_of(event: &DexEvent) -> (name: Option<String>)
    ensures
        text_of(name) == dex_label(event@),
{
    match &event.program_info {
        Some(p) => first_name(&event.market, &p.name, &p.market),
        None => first_name(&event.market, &None, &None),
    }
}

/// The route of swaps: the venues they name, joined by commas, or
/// `router/amm` where they name none.
pub fn swap_route_of(events: &Vec<SwapEvent>) -> (route: String)
    ensures
        route@ == swap_route(events@.map_values(|e: SwapEvent| e@)),
{
    let ghost names = events@.map_values(|e: SwapEvent| e@).map_values(
        |e: SwapNames| swap_label(e),
    );
    let mut labels: Vec<String> = Vec::new();
    let mut i: usize = 0;
    assert(texts(labels@) =~= present(names.take(0)));
    while i < events.len()
        invariant
            i <= events.len(),
            names == events@.map_values(|e: SwapEvent| e@).map_values(
                |e: SwapNames| swap_label(e),
            ),
            texts(labels@) == present(names.take(i as int)),
        decreases events.len() - i,
    {
        let ghost before = labels@;
        let name = swap_label_of(&events[i]);
        proof {
            assert(names.take(i + 1).drop_last() =~= names.take(i as int));
            assert(names.take(i + 1).last() == text_of(name));
        }
        match name {
            Some(text) => {
                labels.push(text);
                assert(texts(labels@) =~= texts(before).push(text@));
            },
            None => {},
        }
        i += 1;
    }
    assert(names.take(events.len() as int) =~= names);
    let line = join(&labels, ",");
    if line.as_str().is_empty() {
        "router/amm".to_owned()
    } else {
        line
    }
}

/// The venue names of order-book events, joined by commas.
fn dex_names_of(events: &Vec<DexEvent>) -> (line: String)
    ensures
        line@ == joined(dex_labels(events@.map_values(|e: DexEvent| e@)), ","@),
{
    let ghost names = events@.map_values(|e: DexEvent| e@).map_values(
        |e: DexNames| dex_label(e),
    );
    let mut labels: Vec<String> = Vec::new();
    let mut i: usize = 0;
    assert(texts(labels@) =~= present(names.take(0)));
    while i < events.len()
        invariant
            i <= events.len(),
            names == events@.map_values(|e: DexEvent| e@).map_values(|e: DexNames| dex_label(e)),
            texts(labels@) == present(names.take(i as int)),
        decreases events.len() - i,
    {
        let ghost before = labels@;
        let name = dex_label_of(&events[i]);
        proof {
            assert(names.take(i + 1).drop_last() =~= names.take(i as int));
            assert(names.take(i + 1).last() == text_of(name));
        }
        match name {
            Some(text) => {
                labels.push(text);
                assert(texts(labels@) =~= texts(before).push(text@));
            },
            None => {},
        }
        i += 1;
    }
    assert(names.take(events.len() as int) =~= names);
    join(&labels, ",")
}

/// The lowercase form of a text.
pub fn fold_case(text: &str) -> (lower: String)
    ensures
        lower@ == folded(text@),
{
    let lower = to_lower(text);
    assert(lower@ =~= folded(text@));
    lower
}

/// The venue of an order, from the lowercase venue names of its events.
pub fn limit_venue_of(name: &str) -> (venue: String)
    ensures
        venue@ == limit_venue(name@),
{
    let text = chars_of(name);
    if contains_chars(&text, &chars_of("phoenix")) {
        "Phoenix".to_owned()
    } else if contains_chars(&text, &chars_of("openbook")) {
        "OpenBook".to_owned()
    } else if name.is_empty() {
        "DEX".to_owned()
    } else {
        name.to_owned()
    }
}

/// What a lowercase log text says of the execution.
pub fn classify_log_text(log: &str) -> (verdict: (ExecKind, String))
    ensures
        (verdict.0, verdict.1@) == log_verdict(log@),
{
    let text = chars_of(log);
    if contains_chars(&text, &chars_of("placeorder")) || contains_chars(
        &text,
        &chars_of("postonly"),
    ) || contains_chars(&text, &chars_of("ioc")) || contains_chars(&text, &chars_of("fok")) {
        (ExecKind::Limit, "orderbook(?)".to_owned())
    } else {
        (ExecKind::Other, String::new())
    }
}

/// The log lines of a transaction, joined by spaces; empty for a failed
/// transaction.
fn visible_log_text(tx: &Transaction) -> (line: String)
    ensures
        line@ == joined(visible_logs(tx@), " "@),
{
    if tx.transaction_error.is_some() {
        String::new()
    } else {
        match &tx.logs {
            Some(lines) => join(lines, " "),
            None => String::new(),
        }
    }
}

/// Classifies how a transaction was executed and names its venue. Swaps
/// decide before order-book events, and these before the log lines; empty
/// lists count as absent. Every record is classified.
pub fn classify_exec(tx: &Transaction) -> (verdict: (ExecKind, String))
    ensures
        (verdict.0, verdict.1@) == classification(tx@),
{
    if let Some(events) = &tx.events {
        if let Some(swaps) = &events.swap {
            if swaps.len() > 0 {
                return (ExecKind::Swap, swap_route_of(swaps));
            }
        }
        if let Some(dexes) = &events.dex {
            if dexes.len() > 0 {
                let names = dex_names_of(dexes);
                let lower = fold_case(names.as_str());
                return (ExecKind::Limit, limit_venue_of(lower.as_str()));
            }
        }
    }
    let line = visible_log_text(tx);
    let lower = fold_case(line.as_str());
    classify_log_text(lower.as_str())
}

} // verus!
