//! The walk through a wallet's history, page by page. The history decides
//! what to ask for next and takes in each page that comes back; fetching
//! the page is the caller's part. Pages follow each other: the request for
//! a page names the last signature of the page before it.

use vstd::prelude::*;
use vstd::string::*;
use crate::decimal::{decimal_text, natural_text};
use crate::model::{text_of, Transaction, TransactionView};
use crate::row::{build_row, row_failure, row_of, Row, RowError, RowView};

verus! {

/// The largest number of transactions that one request asks for.
pub const PAGE_SIZE: usize = 100;

/// The number of rows that are shown, however many were made.
pub const DISPLAY_ROWS: usize = 50;

/// The number of transactions that are read where no limit is given.
pub const DEFAULT_LIMIT: usize = 400;

/// A request for one page of transactions.
#[derive(Debug)]
pub struct PageRequest {
    /// The signature after which the page starts; absent for the first
    /// page.
    pub before: Option<String>,
    /// The number of transactions asked for.
    pub take: usize,
}

/// The rows made so far of a wallet's history, and where the walk stands.
#[derive(Debug)]
pub struct History {
    owner: String,
    target_mint: String,
    limit: usize,
    rows: Vec<Row>,
    cursor: Option<String>,
    exhausted: bool,
}

/// The state of a `History`.
pub struct HistoryView {
    /// The wallet.
    pub owner: Seq<char>,
    /// The tracked token; empty for none.
    pub target_mint: Seq<char>,
    /// The number of transactions after which the walk ends.
    pub limit: usize,
    /// The rows made so far, one per transaction, newest first.
    pub rows: Seq<RowView>,
    /// The signature of the last transaction taken in.
    pub cursor: Option<Seq<char>>,
    /// Whether the source has answered with an empty page.
    pub exhausted: bool,
}

/// The views of transactions.
pub open spec fn views(page: Seq<Transaction>) -> Seq<TransactionView> {
    page.map_values(|tx: Transaction| tx@)
}

/// The views of rows.
pub open spec fn row_views(rows: Seq<Row>) -> Seq<RowView> {
    rows.map_values(|row: Row| row@)
}

/// The rows of a page, one per transaction, in order.
pub open spec fn page_rows(page: Seq<TransactionView>, owner: Seq<char>, mint: Seq<char>) -> Seq<
    RowView,
> {
    page.map_values(|tx: TransactionView| row_of(tx, owner, mint))
}

/// Why the rows of a page cannot be made, if they cannot: the failure of
/// the first transaction of which no row can be made.
pub open spec fn page_failure(
    page: Seq<TransactionView>,
    owner: Seq<char>,
    mint: Seq<char>,
) -> Option<RowError>
    decreases page.len(),
{
    if page.len() == 0 {
        None
    } else {
        match page_failure(page.drop_last(), owner, mint) {
            Some(e) => Some(e),
            None => row_failure(page.last(), owner, mint),
        }
    }
}

/// Whether the walk goes on: the source is not exhausted and fewer
/// transactions than the limit were taken in.
pub open spec fn wants_more(h: HistoryView) -> bool {
    !h.exhausted && h.rows.len() < h.limit
}

/// The number of transactions that the next request asks for: what is
/// left to the limit, and at most `PAGE_SIZE`.
pub open spec fn next_take(h: HistoryView) -> int {
    if h.limit - h.rows.len() < PAGE_SIZE {
        h.limit - h.rows.len()
    } else {
        PAGE_SIZE as int
    }
}

/// The state after a page was taken in. An empty page ends the walk. Any
/// other page adds its rows and moves the cursor to its last signature.
pub open spec fn after_page(h: HistoryView, page: Seq<TransactionView>) -> HistoryView {
    if page.len() == 0 {
        HistoryView { exhausted: true, ..h }
    } else {
        HistoryView {
            rows: h.rows + page_rows(page, h.owner, h.target_mint),
            cursor: Some(page.last().signature),
            ..h
        }
    }
}

/// The address that the pages of a wallet's history are fetched from.
pub open spec fn endpoint_text(owner: Seq<char>) -> Seq<char> {
    "https://api.helius.xyz/v0/addresses/"@ + owner + "/transactions"@
}

/// The texts of pairs of strings.
pub open spec fn pair_texts(pairs: Seq<(String, String)>) -> Seq<(Seq<char>, Seq<char>)> {
    pairs.map_values(|p: (String, String)| (p.0@, p.1@))
}

/// The query of a request: the key, the number of transactions, and the
/// signature to start after, if there is one.
pub open spec fn query_of(key: Seq<char>, before: Option<Seq<char>>, take: usize) -> Seq<
    (Seq<char>, Seq<char>),
> {
    let fixed = seq![("api-key"@, key), ("limit"@, decimal_text(take as nat))];
    match before {
        Some(signature) => fixed.push(("before"@, signature)),
        None => fixed,
    }
}

/// After an empty page no further page is asked for.
pub proof fn law_empty_page_ends_walk(h: HistoryView)
    ensures
        !wants_more(after_page(h, Seq::empty())),
{
}

/// While the source answers with no more transactions than it was asked
/// for, no more than the limit are taken in.
pub proof fn law_limit_is_kept(h: HistoryView, page: Seq<TransactionView>)
    requires
        wants_more(h),
        page.len() <= next_take(h),
    ensures
        1 <= next_take(h) <= PAGE_SIZE,
        after_page(h, page).rows.len() == h.rows.len() + page.len(),
        after_page(h, page).rows.len() <= h.limit,
{
}

/// A failure within a part of a page is the failure of the page.
proof fn lemma_failure_stays(
    page: Seq<TransactionView>,
    owner: Seq<char>,
    mint: Seq<char>,
    k: int,
)
    requires
        0 <= k <= page.len(),
        page_failure(page.take(k), owner, mint) is Some,
    ensures
        page_failure(page, owner, mint) == page_failure(page.take(k), owner, mint),
    decreases page.len(),
{
    if k == page.len() {
        assert(page.take(k) =~= page);
    } else {
        assert(page.drop_last().take(k) =~= page.take(k));
        lemma_failure_stays(page.drop_last(), owner, mint, k);
    }
}

/// The rows of a page, or the failure of the first transaction of which
/// no row can be made.
pub fn rows_of_page(page: &Vec<Transaction>, owner: &str, target_mint: &str) -> (rows: Result<
    Vec<Row>,
    RowError,
>)
    ensures
        match rows {
            Ok(made) => page_failure(views(page@), owner@, target_mint@) is None && row_views(
                made@,
            ) == page_rows(views(page@), owner@, target_mint@),
            Err(e) => page_failure(views(page@), owner@, target_mint@) == Some(e),
        },
{
    let ghost all = views(page@);
    let mut made: Vec<Row> = Vec::new();
    let mut i: usize = 0;
    assert(row_views(made@) =~= page_rows(all.take(0), owner@, target_mint@));
    while i < page.len()
        invariant
            i <= page.len(),
            all == views(page@),
            page_failure(all.take(i as int), owner@, target_mint@) is None,
            row_views(made@) == page_rows(all.take(i as int), owner@, target_mint@),
        decreases page.len() - i,
    {
        proof {
            assert(all.take(i + 1).drop_last() =~= all.take(i as int));
            assert(all.take(i + 1).last() == page[i as int]@);
        }
        match build_row(&page[i], owner, target_mint) {
            Ok(row) => {
                let ghost before = made@;
                made.push(row);
                assert(row_views(made@) =~= page_rows(all.take(i + 1), owner@, target_mint@)) by {
                    assert(row_views(made@) =~= row_views(before).push(row@));
                    assert(page_rows(all.take(i + 1), owner@, target_mint@) =~= page_rows(
                        all.take(i as int),
                        owner@,
                        target_mint@,
                    ).push(row_of(page[i as int]@, owner@, target_mint@)));
                }
            },
            Err(e) => {
                proof {
                    lemma_failure_stays(all, owner@, target_mint@, i + 1);
                }
                return Err(e);
            },
        }
        i += 1;
    }
    assert(all.take(page.len() as int) =~= all);
    Ok(made)
}

/// The address that the pages of a wallet's history are fetched from.
pub fn endpoint(owner: &str) -> (address: String)
    ensures
        address@ == endpoint_text(owner@),
{
    let mut address = "https://api.helius.xyz/v0/addresses/".to_owned();
    address.append(owner);
    address.append("/transactions");
    address
}

impl PageRequest {
    /// The query of the request, for the source's key `key`.
    pub fn query(&self, key: &str) -> (pairs: Vec<(String, String)>)
        ensures
            pair_texts(pairs@) == query_of(key@, text_of(self.before), self.take),
    {
        let mut pairs: Vec<(String, String)> = Vec::new();
        pairs.push(("api-key".to_owned(), key.to_owned()));
        pairs.push(("limit".to_owned(), natural_text(self.take as u128)));
        match &self.before {
            Some(signature) => {
                pairs.push(("before".to_owned(), signature.clone()));
            },
            None => {},
        }
        assert(pair_texts(pairs@) =~= query_of(key@, text_of(self.before), self.take));
        pairs
    }
}

impl View for History {
    type V = HistoryView;

    closed spec fn view(&self) -> HistoryView {
        HistoryView {
            owner: self.owner@,
            target_mint: self.target_mint@,
            limit: self.limit,
            rows: row_views(self.rows@),
            cursor: text_of(self.cursor),
            exhausted: self.exhausted,
        }
    }
}

impl History {
    /// An empty history of the wallet `owner`, to be filled with up to
    /// `limit` transactions. An empty `target_mint` tracks no token.
    pub fn new(owner: &str, target_mint: &str, limit: usize) -> (history: History)
        ensures
            history@ == (HistoryView {
                owner: owner@,
                target_mint: target_mint@,
                limit,
                rows: Seq::empty(),
                cursor: None,
                exhausted: false,
            }),
    {
        let history = History {
            owner: owner.to_owned(),
            target_mint: target_mint.to_owned(),
            limit,
            rows: Vec::new(),
            cursor: None,
            exhausted: false,
        };
        assert(row_views(history.rows@) =~= Seq::<RowView>::empty());
        history
    }

    /// The next page to fetch, or nothing where the walk has ended: the
    /// limit is reached or the source is exhausted.
    pub fn next_request(&self) -> (request: Option<PageRequest>)
        ensures
            request is Some <==> wants_more(self@),
            request matches Some(r) ==> r.take == next_take(self@) && 1 <= r.take <= PAGE_SIZE
                && text_of(r.before) == self@.cursor,
    {
        if self.exhausted || self.rows.len() >= self.limit {
            return None;
        }
        let left: usize = self.limit - self.rows.len();
        let take: usize = if left < PAGE_SIZE {
            left
        } else {
            PAGE_SIZE
        };
        let before = match &self.cursor {
            Some(signature) => Some(signature.clone()),
            None => None,
        };
        Some(PageRequest { before, take })
    }

    /// Takes in the page that the source answered with. An empty page ends
    /// the walk. Of any other page one row per transaction is added, and
    /// the next page starts after its last signature. Where no row can be
    /// made of a transaction, nothing changes.
    pub fn absorb(&mut self, page: &Vec<Transaction>) -> (taken: Result<(), RowError>)
        ensures
            match taken {
                Ok(_) => page_failure(views(page@), old(self)@.owner, old(self)@.target_mint)
                    is None && final(self)@ == after_page(old(self)@, views(page@)),
                Err(e) => page_failure(views(page@), old(self)@.owner, old(self)@.target_mint)
                    == Some(e) && final(self)@ == old(self)@,
            },
    {
        if page.len() == 0 {
            self.exhausted = true;
            return Ok(());
        }
        match rows_of_page(page, self.owner.as_str(), self.target_mint.as_str()) {
            Ok(made) => {
                let mut made = made;
                let ghost before = self.rows@;
                let ghost added = made@;
                self.rows.append(&mut made);
                self.cursor = Some(page[page.len() - 1].signature.clone());
                assert(row_views(before + added) =~= row_views(before) + row_views(added));
                assert(views(page@).last() == page[page.len() - 1]@);
                Ok(())
            },
            Err(e) => Err(e),
        }
    }

    /// The number of transactions taken in so far.
    pub fn processed(&self) -> (count: usize)
        ensures
            count == self@.rows.len(),
    {
        self.rows.len()
    }

    /// The rows made so far.
    pub fn rows(&self) -> (rows: &Vec<Row>)
        ensures
            row_views(rows@) == self@.rows,
    {
        &self.rows
    }

    /// The rows to show: the first `DISPLAY_ROWS` of those made.
    pub fn into_display_rows(self) -> (shown: Vec<Row>)
        ensures
            row_views(shown@) == if self@.rows.len() <= DISPLAY_ROWS {
                self@.rows
            } else {
                self@.rows.take(DISPLAY_ROWS as int)
            },
    {
        let mut shown = self.rows;
        let ghost all = shown@;
        shown.truncate(DISPLAY_ROWS);
        assert(row_views(shown@) =~= if all.len() <= DISPLAY_ROWS {
            row_views(all)
        } else {
            row_views(all).take(DISPLAY_ROWS as int)
        });
        shown
    }
}

} // verus!
