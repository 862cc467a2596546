//! The market data client: what is asked of the market-data service for a
//! mint, and what its reply is worth.

use crate::money::UsdAmount;
use vstd::prelude::*;
use vstd::string::*;

verus! {

/// Price, market capitalisation and 24-hour volume of one token, in dollars.
#[derive(Clone, Copy, Debug, PartialEq, Eq, Structural)]
pub struct MarketSnapshot {
    pub price_usd: UsdAmount,
    pub market_cap_usd: UsdAmount,
    pub volume_24h_usd: UsdAmount,
}

/// The dollar entries of the three maps of a reply's `market_data`. An entry
/// is `None` where the map holds no amount under the `usd` key.
#[derive(Clone, Copy, Debug, PartialEq, Eq)]
pub struct MarketQuote {
    pub current_price_usd: Option<UsdAmount>,
    pub market_cap_usd: Option<UsdAmount>,
    pub total_volume_usd: Option<UsdAmount>,
}

/// What came back for one request to the market-data service.
#[derive(Clone, Copy, Debug, PartialEq, Eq)]
pub enum LookupReply {
    /// No response arrived: the connection failed or timed out.
    Unreachable,
    /// A response arrived. `body` is `None` where its body is not of the
    /// expected shape.
    Answered { status: u16, body: Option<MarketQuote> },
}

/// Why a lookup gave no snapshot.
#[derive(Clone, Copy, Debug, PartialEq, Eq)]
pub enum LookupError {
    /// No response arrived.
    Transport,
    /// The response carried this status, which is not a success.
    Status(u16),
    /// The response was a success, but its body is not of the expected shape.
    Schema,
    /// The body is of the expected shape, but one of its three maps holds no
    /// amount under the `usd` key.
    MissingCurrency,
}

/// The statuses that count as success: 200 to 299.
pub open spec fn is_success(status: u16) -> bool {
    200 <= status <= 299
}

/// The snapshot in which every amount is zero.
pub open spec fn zero_snapshot() -> MarketSnapshot {
    MarketSnapshot {
        price_usd: UsdAmount { hundredths: 0 },
        market_cap_usd: UsdAmount { hundredths: 0 },
        volume_24h_usd: UsdAmount { hundredths: 0 },
    }
}

/// The snapshot that a quote gives: its three amounts where all three
/// entries are present, none where any is absent.
pub open spec fn snapshot_of_quote(quote: MarketQuote) -> Option<MarketSnapshot> {
    match (quote.current_price_usd, quote.market_cap_usd, quote.total_volume_usd) {
        (Some(price_usd), Some(market_cap_usd), Some(volume_24h_usd)) => Some(
            MarketSnapshot { price_usd, market_cap_usd, volume_24h_usd },
        ),
        _ => None,
    }
}

/// The outcome of a lookup, given what came back: it succeeds only for a
/// response with a success status and a body of the expected shape whose
/// three entries are all present.
pub open spec fn lookup_outcome(reply: LookupReply) -> Result<MarketSnapshot, LookupError> {
    match reply {
        LookupReply::Unreachable => Err(LookupError::Transport),
        LookupReply::Answered { status, body } => if !is_success(status) {
            Err(LookupError::Status(status))
        } else {
            match body {
                None => Err(LookupError::Schema),
                Some(quote) => match snapshot_of_quote(quote) {
                    Some(snapshot) => Ok(snapshot),
                    None => Err(LookupError::MissingCurrency),
                },
            }
        },
    }
}

/// The snapshot that enters a record: that of the lookup, all zero where the
/// lookup failed.
pub open spec fn snapshot_or_zero(outcome: Result<MarketSnapshot, LookupError>) -> MarketSnapshot {
    match outcome {
        Ok(snapshot) => snapshot,
        Err(_) => zero_snapshot(),
    }
}

/// The address to ask for a mint: the base, `/coins/`, and the mint as it is.
pub open spec fn request_url_text(base_url: Seq<char>, mint_id: Seq<char>) -> Seq<char> {
    base_url + "/coins/"@ + mint_id
}

/// A response with a status that is no success is worth an all-zero
/// snapshot, whatever its body holds.
pub proof fn lemma_failed_status_gives_zero(status: u16, body: Option<MarketQuote>)
    requires
        !is_success(status),
    ensures
        lookup_outcome(LookupReply::Answered { status, body }) == Err::<
            MarketSnapshot,
            LookupError,
        >(LookupError::Status(status)),
        snapshot_or_zero(lookup_outcome(LookupReply::Answered { status, body }))
            == zero_snapshot(),
{
}

/// A response whose body lacks the `usd` amount in any of its three maps is
/// a failed lookup, worth an all-zero snapshot whatever the other maps hold.
pub proof fn lemma_missing_currency_gives_zero(status: u16, quote: MarketQuote)
    requires
        is_success(status),
        quote.current_price_usd is None || quote.market_cap_usd is None
            || quote.total_volume_usd is None,
    ensures
        lookup_outcome(LookupReply::Answered { status, body: Some(quote) }) == Err::<
            MarketSnapshot,
            LookupError,
        >(LookupError::MissingCurrency),
        snapshot_or_zero(lookup_outcome(LookupReply::Answered { status, body: Some(quote) }))
            == zero_snapshot(),
{
}

/// A response with a success status and all three amounts is worth exactly
/// those amounts.
pub proof fn lemma_full_quote_gives_its_amounts(
    status: u16,
    price_usd: UsdAmount,
    market_cap_usd: UsdAmount,
    volume_24h_usd: UsdAmount,
)
    requires
        is_success(status),
    ensures
        snapshot_or_zero(
            lookup_outcome(
                LookupReply::Answered {
                    status,
                    body: Some(
                        MarketQuote {
                            current_price_usd: Some(price_usd),
                            market_cap_usd: Some(market_cap_usd),
                            total_volume_usd: Some(volume_24h_usd),
                        },
                    ),
                },
            ),
        ) == (MarketSnapshot { price_usd, market_cap_usd, volume_24h_usd }),
{
}

/// Whenever a lookup fails, for whatever reason, the snapshot that enters the
/// record is all zero.
pub proof fn lemma_failed_lookup_gives_zero(reply: LookupReply)
    requires
        lookup_outcome(reply) is Err,
    ensures
        snapshot_or_zero(lookup_outcome(reply)) == zero_snapshot(),
{
}

impl MarketSnapshot {
    /// The snapshot in which every amount is zero.
    pub fn zero() -> (snapshot: MarketSnapshot)
        ensures
            snapshot == zero_snapshot(),
    {
        MarketSnapshot {
            price_usd: UsdAmount::zero(),
            market_cap_usd: UsdAmount::zero(),
            volume_24h_usd: UsdAmount::zero(),
        }
    }

    /// The snapshot of a lookup, all zero where the lookup failed.
    pub fn or_zero(outcome: Result<MarketSnapshot, LookupError>) -> (snapshot: MarketSnapshot)
        ensures
            snapshot == snapshot_or_zero(outcome),
    {
        match outcome {
            Ok(snapshot) => snapshot,
            Err(_) => MarketSnapshot::zero(),
        }
    }
}

impl MarketQuote {
    /// The snapshot of this quote: its three amounts, or none where any of
    /// the three entries is absent.
    pub fn snapshot(&self) -> (snapshot: Option<MarketSnapshot>)
        ensures
            snapshot == snapshot_of_quote(*self),
    {
        match (self.current_price_usd, self.market_cap_usd, self.total_volume_usd) {
            (Some(price_usd), Some(market_cap_usd), Some(volume_24h_usd)) => Some(
                MarketSnapshot { price_usd, market_cap_usd, volume_24h_usd },
            ),
            _ => None,
        }
    }
}

/// Tells whether a response status is a success.
pub fn status_is_success(status: u16) -> (ok: bool)
    ensures
        ok == is_success(status),
{
    200 <= status && status <= 299
}

/// The address to request for `mint_id` at the service rooted at `base_url`.
/// The mint is put in as it is, unescaped.
pub fn request_url(base_url: &str, mint_id: &str) -> (url: String)
    ensures
        url@ == request_url_text(base_url@, mint_id@),
{
    let mut url: String = String::from_str(base_url);
    url.append("/coins/");
    url.append(mint_id);
    url
}

/// Judges what came back for one request: the snapshot, or why there is none.
pub fn lookup(reply: &LookupReply) -> (outcome: Result<MarketSnapshot, LookupError>)
    ensures
        outcome == lookup_outcome(*reply),
{
    match reply {
        LookupReply::Unreachable => Err(LookupError::Transport),
        LookupReply::Answered { status, body } => {
            if !status_is_success(*status) {
                Err(LookupError::Status(*status))
            } else {
                match body {
                    None => Err(LookupError::Schema),
                    Some(quote) => match quote.snapshot() {
                        Some(snapshot) => Ok(snapshot),
                        None => Err(LookupError::MissingCurrency),
                    },
                }
            }
        },
    }
}

} // verus!
