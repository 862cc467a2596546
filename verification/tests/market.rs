use solana_token_viewer::market::{
    lookup, request_url, status_is_success, LookupError, LookupReply, MarketQuote, MarketSnapshot,
};
use solana_token_viewer::money::UsdAmount;

fn usd(hundredths: u64) -> UsdAmount {
    UsdAmount::from_hundredths(hundredths)
}

fn full_quote() -> MarketQuote {
    MarketQuote {
        current_price_usd: Some(usd(250)),
        market_cap_usd: Some(usd(100000)),
        total_volume_usd: Some(usd(30000)),
    }
}

#[test]
fn request_url_appends_the_mint_to_the_coins_path() {
    assert_eq!(
        request_url("https://api.coingecko.com/api/v3", "M1"),
        "https://api.coingecko.com/api/v3/coins/M1"
    );
    assert_eq!(request_url("", ""), "/coins/");
}

#[test]
fn request_url_does_not_escape_the_mint() {
    assert_eq!(request_url("http://h", "a b/c?d"), "http://h/coins/a b/c?d");
}

#[test]
fn success_statuses_are_200_to_299() {
    assert!(status_is_success(200));
    assert!(status_is_success(204));
    assert!(status_is_success(299));
    assert!(!status_is_success(199));
    assert!(!status_is_success(300));
    assert!(!status_is_success(404));
    assert!(!status_is_success(500));
    assert!(!status_is_success(0));
}

#[test]
fn lookup_of_a_full_quote_gives_its_amounts() {
    let reply = LookupReply::Answered { status: 200, body: Some(full_quote()) };
    assert_eq!(
        lookup(&reply),
        Ok(MarketSnapshot {
            price_usd: usd(250),
            market_cap_usd: usd(100000),
            volume_24h_usd: usd(30000),
        })
    );
}

#[test]
fn lookup_fails_where_a_map_lacks_the_usd_entry() {
    let lacking = [
        MarketQuote { current_price_usd: None, ..full_quote() },
        MarketQuote { market_cap_usd: None, ..full_quote() },
        MarketQuote { total_volume_usd: None, ..full_quote() },
        MarketQuote { current_price_usd: None, market_cap_usd: None, ..full_quote() },
        MarketQuote { current_price_usd: None, market_cap_usd: None, total_volume_usd: None },
    ];
    for quote in lacking {
        assert_eq!(quote.snapshot(), None);
        let reply = LookupReply::Answered { status: 200, body: Some(quote) };
        assert_eq!(lookup(&reply), Err(LookupError::MissingCurrency));
        assert_eq!(MarketSnapshot::or_zero(lookup(&reply)), MarketSnapshot::zero());
    }
}

#[test]
fn lookup_keeps_nothing_of_a_reply_that_lacks_one_entry() {
    let quote = MarketQuote {
        current_price_usd: None,
        market_cap_usd: Some(usd(100000)),
        total_volume_usd: Some(usd(30000)),
    };
    let reply = LookupReply::Answered { status: 200, body: Some(quote) };
    let snapshot = MarketSnapshot::or_zero(lookup(&reply));
    assert_eq!(snapshot.price_usd.hundredths, 0);
    assert_eq!(snapshot.market_cap_usd.hundredths, 0);
    assert_eq!(snapshot.volume_24h_usd.hundredths, 0);
}

#[test]
fn quote_with_three_entries_has_a_snapshot() {
    assert_eq!(
        full_quote().snapshot(),
        Some(MarketSnapshot {
            price_usd: usd(250),
            market_cap_usd: usd(100000),
            volume_24h_usd: usd(30000),
        })
    );
}

#[test]
fn status_is_judged_before_the_entries() {
    let quote = MarketQuote { current_price_usd: None, ..full_quote() };
    let reply = LookupReply::Answered { status: 500, body: Some(quote) };
    assert_eq!(lookup(&reply), Err(LookupError::Status(500)));
}

#[test]
fn lookup_fails_without_a_response() {
    assert_eq!(lookup(&LookupReply::Unreachable), Err(LookupError::Transport));
}

#[test]
fn lookup_fails_on_a_status_that_is_no_success() {
    for status in [404u16, 500, 429, 301, 199, 300] {
        let reply = LookupReply::Answered { status, body: Some(full_quote()) };
        assert_eq!(lookup(&reply), Err(LookupError::Status(status)));
        let reply = LookupReply::Answered { status, body: None };
        assert_eq!(lookup(&reply), Err(LookupError::Status(status)));
    }
}

#[test]
fn lookup_fails_on_a_body_of_another_shape() {
    let reply = LookupReply::Answered { status: 200, body: None };
    assert_eq!(lookup(&reply), Err(LookupError::Schema));
}

#[test]
fn failed_lookup_is_worth_an_all_zero_snapshot() {
    let failures = [
        LookupReply::Unreachable,
        LookupReply::Answered { status: 500, body: Some(full_quote()) },
        LookupReply::Answered { status: 404, body: None },
        LookupReply::Answered { status: 200, body: None },
        LookupReply::Answered {
            status: 200,
            body: Some(MarketQuote { total_volume_usd: None, ..full_quote() }),
        },
    ];
    for reply in failures {
        let snapshot = MarketSnapshot::or_zero(lookup(&reply));
        assert_eq!(snapshot.price_usd.hundredths, 0);
        assert_eq!(snapshot.market_cap_usd.hundredths, 0);
        assert_eq!(snapshot.volume_24h_usd.hundredths, 0);
        assert_eq!(snapshot, MarketSnapshot::zero());
    }
}

#[test]
fn successful_lookup_is_worth_its_snapshot() {
    let reply = LookupReply::Answered { status: 200, body: Some(full_quote()) };
    assert_eq!(Some(MarketSnapshot::or_zero(lookup(&reply))), full_quote().snapshot());
}
