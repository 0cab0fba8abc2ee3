//! Markets as listed by the market directory, and which of them are traded:
//! open, order-book enabled, with exactly the two outcomes "Up" and "Down".
use vstd::prelude::*;
use crate::amount::Id256;
use crate::window::UtcInstant;

verus! {

/// A market of one window, with the tokens of its two outcomes.
#[derive(Clone, Debug)]
pub struct MarketInfo {
    pub market_id: Id256,
    pub slug: String,
    pub yes_token_id: Id256,
    pub no_token_id: Id256,
    pub title: String,
    pub end_date: UtcInstant,
    pub crypto_symbol: String,
}

/// The fields of a directory listing that decide whether a market is traded.
#[derive(Clone, Debug)]
pub struct MarketRecord {
    pub active: Option<bool>,
    pub enable_order_book: Option<bool>,
    pub accepting_orders: Option<bool>,
    pub outcomes: Option<Vec<String>>,
    pub clob_token_ids: Option<Vec<Id256>>,
    pub condition_id: Option<Id256>,
    pub slug: Option<String>,
    pub end_date: Option<UtcInstant>,
    pub question: Option<String>,
}

/// The characters of `s` before its first `-` (all of `s` if it has none).
pub open spec fn symbol_of(s: Seq<char>) -> Seq<char>
    decreases s.len(),
{
    if s.len() == 0 || s[0] == '-' {
        Seq::empty()
    } else {
        seq![s[0]] + symbol_of(s.drop_first())
    }
}

/// Relies on `str::split`: its first piece is what precedes the first separator.
#[verifier::external_body]
fn slug_symbol(slug: &str) -> (r: String)
    ensures
        r@ == symbol_of(slug@),
{
    slug.split('-').next().unwrap_or("").to_string()
}

pub open spec fn names_outcome(outcomes: Seq<String>, name: Seq<char>) -> bool {
    exists|i: int| 0 <= i < outcomes.len() && (#[trigger] outcomes[i])@ == name
}

/// Whether a listed market is traded: active, order book enabled, accepting
/// orders, outcomes exactly "Up" and "Down", two outcome tokens, and
/// condition, slug and end date present.
pub open spec fn traded(r: MarketRecord) -> bool {
    &&& r.active == Some(true)
    &&& r.enable_order_book == Some(true)
    &&& r.accepting_orders == Some(true)
    &&& r.outcomes matches Some(o) && o@.len() == 2 && names_outcome(o@, "Up"@) && names_outcome(o@, "Down"@)
    &&& r.clob_token_ids matches Some(t) && t@.len() == 2
    &&& r.condition_id is Some
    &&& r.slug is Some
    &&& r.end_date is Some
}

fn has_outcome(outcomes: &Vec<String>, name: &String) -> (r: bool)
    ensures
        r == names_outcome(outcomes@, name@),
{
    let mut i: usize = 0;
    while i < outcomes.len()
        invariant
            i <= outcomes@.len(),
            forall|j: int| 0 <= j < i ==> (#[trigger] outcomes@[j])@ != name@,
        decreases outcomes.len() - i,
    {
        if outcomes[i] == *name {
            return true;
        }
        i = i + 1;
    }
    false
}

/// The traded market a listing describes: the first token is the "Up"
/// outcome's, the second the "Down" one's; the symbol is the slug up to its
/// first `-`; a missing question gives an empty title.
pub fn parse_market(record: MarketRecord) -> (r: Option<MarketInfo>)
    ensures
        r is Some <==> traded(record),
        r matches Some(m) ==> {
            &&& m.market_id == record.condition_id.unwrap()
            &&& m.yes_token_id == record.clob_token_ids.unwrap()@[0]
            &&& m.no_token_id == record.clob_token_ids.unwrap()@[1]
            &&& m.slug@ == record.slug.unwrap()@
            &&& m.crypto_symbol@ == symbol_of(record.slug.unwrap()@)
            &&& m.end_date == record.end_date.unwrap()
            &&& m.title@ == (match record.question {
                Some(q) => q@,
                None => Seq::<char>::empty(),
            })
        },
{
    if !(record.active == Some(true) && record.enable_order_book == Some(true) && record.accepting_orders == Some(
        true,
    )) {
        return None;
    }
    let outcomes = match &record.outcomes {
        Some(o) => o,
        None => return None,
    };
    let up = String::from_str("Up");
    let down = String::from_str("Down");
    proof {
        reveal_strlit("Up");
        reveal_strlit("Down");
    }
    if outcomes.len() != 2 || !has_outcome(outcomes, &up) || !has_outcome(outcomes, &down) {
        return None;
    }
    let token_ids = match &record.clob_token_ids {
        Some(t) => t,
        None => return None,
    };
    if token_ids.len() != 2 {
        return None;
    }
    let market_id = match record.condition_id {
        Some(c) => c,
        None => return None,
    };
    let slug = match &record.slug {
        Some(s) => s,
        None => return None,
    };
    let end_date = match record.end_date {
        Some(d) => d,
        None => return None,
    };
    let crypto_symbol = slug_symbol(slug.as_str());
    let title = match &record.question {
        Some(q) => q.clone(),
        None => String::new(),
    };
    Some(
        MarketInfo {
            market_id,
            slug: slug.clone(),
            yes_token_id: token_ids[0],
            no_token_id: token_ids[1],
            title,
            end_date,
            crypto_symbol,
        },
    )
}

} // verus!
