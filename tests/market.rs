use arb_core::amount::Id256;
use arb_core::market::{parse_market, MarketRecord};
use arb_core::window::UtcInstant;

fn listing() -> MarketRecord {
    MarketRecord {
        active: Some(true),
        enable_order_book: Some(true),
        accepting_orders: Some(true),
        outcomes: Some(vec!["Up".to_string(), "Down".to_string()]),
        clob_token_ids: Some(vec![Id256 { hi: 1, lo: 2 }, Id256 { hi: 3, lo: 4 }]),
        condition_id: Some(Id256 { hi: 9, lo: 9 }),
        slug: Some("bitcoin-up-or-down-january-16-3am-et".to_string()),
        end_date: Some(UtcInstant { secs: 1_705_395_600, nanos: 0 }),
        question: Some("Bitcoin Up or Down?".to_string()),
    }
}

#[test]
fn open_up_down_market_is_parsed() {
    let m = parse_market(listing()).expect("traded market");
    assert_eq!(m.market_id, Id256 { hi: 9, lo: 9 });
    assert_eq!(m.yes_token_id, Id256 { hi: 1, lo: 2 });
    assert_eq!(m.no_token_id, Id256 { hi: 3, lo: 4 });
    assert_eq!(m.crypto_symbol, "bitcoin");
    assert_eq!(m.slug, "bitcoin-up-or-down-january-16-3am-et");
    assert_eq!(m.title, "Bitcoin Up or Down?");
    assert_eq!(m.end_date, UtcInstant { secs: 1_705_395_600, nanos: 0 });
}

#[test]
fn outcomes_in_either_order_are_accepted() {
    let mut r = listing();
    r.outcomes = Some(vec!["Down".to_string(), "Up".to_string()]);
    r.question = None;
    let m = parse_market(r).expect("traded market");
    assert_eq!(m.title, "");
}

#[test]
fn slug_without_dash_is_its_own_symbol() {
    let mut r = listing();
    r.slug = Some("solana".to_string());
    assert_eq!(parse_market(r).expect("traded market").crypto_symbol, "solana");
}

#[test]
fn closed_or_odd_markets_are_skipped() {
    let mut r = listing();
    r.active = Some(false);
    assert!(parse_market(r).is_none());
    let mut r = listing();
    r.accepting_orders = None;
    assert!(parse_market(r).is_none());
    let mut r = listing();
    r.outcomes = Some(vec!["Yes".to_string(), "No".to_string()]);
    assert!(parse_market(r).is_none());
    let mut r = listing();
    r.outcomes = Some(vec!["Up".to_string(), "Up".to_string()]);
    assert!(parse_market(r).is_none());
    let mut r = listing();
    r.clob_token_ids = Some(vec![Id256 { hi: 1, lo: 2 }]);
    assert!(parse_market(r).is_none());
    let mut r = listing();
    r.condition_id = None;
    assert!(parse_market(r).is_none());
    let mut r = listing();
    r.end_date = None;
    assert!(parse_market(r).is_none());
}
