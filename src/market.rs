//! The market-data provider adapter.
use vstd::prelude::*;
use crate::item::{CryptoNewsItem, ItemView, Request, RequestView, Step, StepView, opt_view, views};
use crate::json::{Json, deref, element, member, text};

verus! {

/// The market-data provider's info endpoint.
pub open spec fn info_url() -> Seq<char> {
    "https://pro-api.coinmarketcap.com/v1/cryptocurrency/info"@
}

/// What the market-data adapter does first: with no key it answers at once
/// with no items; with one it asks the info endpoint about `symbol`, as given,
/// with the key in a header.
pub open spec fn market_step(key: Option<Seq<char>>, symbol: Seq<char>) -> StepView {
    match key {
        None => StepView::Done(Seq::empty()),
        Some(k) => StepView::Send(
            RequestView {
                url: info_url(),
                query: seq![("symbol"@, symbol)],
                headers: seq![("X-CMC_PRO_API_KEY"@, k)],
            },
        ),
    }
}

/// The first website listed for `symbol` in the provider's answer, where the
/// answer holds an object for that exact symbol under `data`.
pub open spec fn website_of(body: Option<Json>, symbol: Seq<char>) -> Option<Seq<char>> {
    let entry = member(member(body, "data"@), symbol);
    match entry {
        Some(Json::Object(_)) => text(element(member(member(entry, "urls"@), "website"@), 0)),
        _ => None,
    }
}

/// The overview item of `symbol`, linking to `website`, stamped `stamp`.
pub open spec fn overview(symbol: Seq<char>, website: Seq<char>, stamp: Seq<char>) -> ItemView {
    ItemView {
        headline: symbol + " Overview"@,
        article_url: website,
        origin: "CoinMarketCap"@,
        published_at: stamp,
    }
}

/// The items made of the provider's answer, `None` where the request or the
/// parse failed: one overview where a website is listed, else none.
pub open spec fn market_items_of(body: Option<Json>, symbol: Seq<char>, stamp: Seq<char>) -> Seq<ItemView> {
    match website_of(body, symbol) {
        Some(website) => seq![overview(symbol, website, stamp)],
        None => Seq::empty(),
    }
}

/// Relies on chrono's `Utc::now`, read as RFC 3339 text by
/// `DateTime::to_rfc3339`: the current time, which nothing here constrains.
#[verifier::external_body]
fn now_rfc3339() -> (r: String) {
    chrono::Utc::now().to_rfc3339()
}

/// The first step of the market-data adapter for `symbol`, given the provider
/// key if one is configured.
pub fn market_step_for(api_key: Option<&str>, symbol: &str) -> (r: Step)
    ensures
        r@ == market_step(opt_view(api_key), symbol@),
{
    match api_key {
        None => {
            let items: Vec<CryptoNewsItem> = Vec::new();
            assert(views(items@) =~= Seq::empty());
            Step::Done(items)
        },
        Some(key) => {
            let query = vec![(String::from_str("symbol"), String::from_str(symbol))];
            let headers = vec![(String::from_str("X-CMC_PRO_API_KEY"), String::from_str(key))];
            let url = String::from_str("https://pro-api.coinmarketcap.com/v1/cryptocurrency/info");
            let r = Step::Send(Request { url, query, headers });
            assert(r@->Send_0.query =~= seq![("symbol"@, symbol@)]);
            assert(r@->Send_0.headers =~= seq![("X-CMC_PRO_API_KEY"@, key@)]);
            r
        },
    }
}

/// The first website listed for `symbol` in the provider's answer.
pub fn market_website(body: Option<&Json>, symbol: &str) -> (r: Option<String>)
    ensures
        match r {
            Some(w) => website_of(deref(body), symbol@) == Some(w@),
            None => website_of(deref(body), symbol@) is None,
        },
{
    let data = match body {
        Some(b) => b.member("data"),
        None => None,
    };
    let entry = match data {
        Some(d) => d.member(symbol),
        None => None,
    };
    match entry {
        Some(e) => match e {
            Json::Object(_) => {
                let urls = e.member("urls");
                let websites = match urls {
                    Some(u) => u.member("website"),
                    None => None,
                };
                let first = match websites {
                    Some(w) => w.element(0),
                    None => None,
                };
                match first {
                    Some(Json::Str(url)) => Some(url.clone()),
                    _ => None,
                }
            },
            _ => None,
        },
        None => None,
    }
}

/// The overview item of `symbol`, linking to `website`, stamped `stamp`.
pub fn overview_item(symbol: &str, website: String, stamp: String) -> (r: CryptoNewsItem)
    ensures
        r@ == overview(symbol@, website@, stamp@),
{
    let mut headline = String::from_str(symbol);
    headline.append(" Overview");
    CryptoNewsItem {
        headline,
        article_url: website,
        origin: String::from_str("CoinMarketCap"),
        published_at: stamp,
    }
}

/// The items made of the provider's answer about `symbol`, stamped `stamp`;
/// `None` stands for a request or a parse that failed.
pub fn market_items(body: Option<&Json>, symbol: &str, stamp: &str) -> (r: Vec<CryptoNewsItem>)
    ensures
        views(r@) == market_items_of(deref(body), symbol@, stamp@),
{
    let mut items: Vec<CryptoNewsItem> = Vec::new();
    match market_website(body, symbol) {
        Some(website) => {
            items.push(overview_item(symbol, website, String::from_str(stamp)));
        },
        None => {},
    }
    assert(views(items@) =~= market_items_of(deref(body), symbol@, stamp@));
    items
}

/// The items made of the provider's answer about `symbol`, an overview being
/// stamped with the current time.
pub fn market_items_now(body: Option<&Json>, symbol: &str) -> (r: Vec<CryptoNewsItem>)
    ensures
        exists|stamp: Seq<char>| views(r@) == market_items_of(deref(body), symbol@, stamp),
{
    let mut items: Vec<CryptoNewsItem> = Vec::new();
    match market_website(body, symbol) {
        Some(website) => {
            let stamp = now_rfc3339();
            items.push(overview_item(symbol, website, stamp));
            assert(views(items@) =~= market_items_of(deref(body), symbol@, items@[0].published_at@));
        },
        None => {
            assert(views(items@) =~= market_items_of(deref(body), symbol@, ""@));
        },
    }
    items
}

} // verus!

verus! {

/// An answer that holds nothing for the queried symbol under `data` gives no
/// items.
pub proof fn lemma_absent_symbol_is_empty(body: Option<Json>, symbol: Seq<char>, stamp: Seq<char>)
    requires
        member(member(body, "data"@), symbol) is None,
    ensures
        market_items_of(body, symbol, stamp) == Seq::<ItemView>::empty(),
{
}

/// An answer that lists a website for the queried symbol gives exactly one
/// item: the symbol's overview, linking to the first website listed.
pub proof fn lemma_listed_website_gives_overview(body: Option<Json>, symbol: Seq<char>, stamp: Seq<char>)
    requires
        member(member(body, "data"@), symbol) matches Some(Json::Object(_)),
        text(element(member(member(member(member(body, "data"@), symbol), "urls"@), "website"@), 0)) is Some,
    ensures
        ({
            let website = text(element(member(member(member(member(body, "data"@), symbol), "urls"@), "website"@), 0))->0;
            &&& market_items_of(body, symbol, stamp).len() == 1
            &&& market_items_of(body, symbol, stamp)[0].headline == symbol + " Overview"@
            &&& market_items_of(body, symbol, stamp)[0].article_url == website
        }),
{
}

} // verus!
