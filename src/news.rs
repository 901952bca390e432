//! The news provider adapter.
use vstd::prelude::*;
use crate::item::{CryptoNewsItem, ItemView, Request, Step, StepView, opt_view, outcome, views};
use crate::json::{Json, deref, elements, member, text_or, text_or_default};
use crate::symbol::{map_symbol_to_name, normalized};
use crate::text::{lower_of, to_lower};

verus! {

/// The most items taken from one answer of the news provider.
pub const MAX_NEWS_ITEMS: usize = 11;

/// The term sent to the news provider for a query: its normalized name in
/// lower case.
pub open spec fn search_term(query: Seq<char>) -> Seq<char> {
    lower_of(normalized(query))
}

/// The URL of a news search for `term`, authenticated by `key`, in English.
pub open spec fn news_url(key: Seq<char>, term: Seq<char>) -> Seq<char> {
    "https://newsdata.io/api/1/news?apikey="@ + key + "&q="@ + term + "&language=en"@
}

/// What the news adapter does first: with no key it answers at once with no
/// items; with one it sends a search for the query's term.
pub open spec fn news_step(key: Option<Seq<char>>, query: Seq<char>) -> StepView {
    match key {
        None => StepView::Done(Seq::empty()),
        Some(k) => StepView::Send(
            crate::item::RequestView {
                url: news_url(k, search_term(query)),
                query: Seq::empty(),
                headers: Seq::empty(),
            },
        ),
    }
}

/// The item made of one result of the news provider: its title, link, source
/// and publication date, each empty where it is missing, the source
/// `NewsData` instead.
pub open spec fn news_entry(entry: Json) -> ItemView {
    ItemView {
        headline: text_or(member(Some(entry), "title"@), ""@),
        article_url: text_or(member(Some(entry), "link"@), ""@),
        origin: text_or(member(Some(entry), "source_id"@), "NewsData"@),
        published_at: text_or(member(Some(entry), "pubDate"@), ""@),
    }
}

/// The items made of the news provider's answer, `None` where the request or
/// the parse failed: the first results, at most `MAX_NEWS_ITEMS`, in order.
pub open spec fn news_items_of(body: Option<Json>) -> Seq<ItemView> {
    match elements(member(body, "results"@)) {
        Some(results) => {
            let n: int = if results.len() < MAX_NEWS_ITEMS { results.len() as int } else { MAX_NEWS_ITEMS as int };
            results.subrange(0, n).map_values(|e: Json| news_entry(e))
        },
        None => Seq::empty(),
    }
}

/// The term to search the news provider for: the query's asset name in lower
/// case.
pub fn news_search_term(query: &str) -> (r: String)
    ensures
        r@ == search_term(query@),
{
    to_lower(map_symbol_to_name(query))
}

/// The first step of the news adapter for `query`, given the provider key if
/// one is configured.
pub fn news_step_for(api_key: Option<&str>, query: &str) -> (r: Step)
    ensures
        r@ == news_step(opt_view(api_key), query@),
{
    match api_key {
        None => {
            let items: Vec<CryptoNewsItem> = Vec::new();
            assert(views(items@) =~= Seq::empty());
            Step::Done(items)
        },
        Some(key) => {
            let term = news_search_term(query);
            let mut url = String::from_str("https://newsdata.io/api/1/news?apikey=");
            url.append(key);
            url.append("&q=");
            url.append(term.as_str());
            url.append("&language=en");
            let r = Step::Send(Request { url, query: Vec::new(), headers: Vec::new() });
            assert(r@->Send_0.query == Seq::<(Seq<char>, Seq<char>)>::empty());
            assert(r@->Send_0.headers == Seq::<(Seq<char>, Seq<char>)>::empty());
            r
        },
    }
}

/// The item made of one result of the news provider.
pub fn news_item(entry: &Json) -> (r: CryptoNewsItem)
    ensures
        r@ == news_entry(*entry),
{
    CryptoNewsItem {
        headline: text_or_default(entry.member("title"), ""),
        article_url: text_or_default(entry.member("link"), ""),
        origin: text_or_default(entry.member("source_id"), "NewsData"),
        published_at: text_or_default(entry.member("pubDate"), ""),
    }
}

/// The items made of the news provider's answer; `None` stands for a request
/// or a parse that failed.
pub fn news_items(body: Option<&Json>) -> (r: Vec<CryptoNewsItem>)
    ensures
        views(r@) == news_items_of(deref(body)),
{
    let mut items: Vec<CryptoNewsItem> = Vec::new();
    let results = match body {
        Some(b) => match b.member("results") {
            Some(res) => res.as_array(),
            None => None,
        },
        None => None,
    };
    match results {
        Some(results) => {
            let n: usize = if results.len() < MAX_NEWS_ITEMS { results.len() } else { MAX_NEWS_ITEMS };
            let mut i: usize = 0;
            while i < n
                invariant
                    n <= results@.len(),
                    i <= n,
                    items@.len() == i,
                    forall|j: int| 0 <= j < i ==> #[trigger] items@[j]@ == news_entry(results@[j]),
                decreases n - i,
            {
                let item = news_item(&results[i]);
                items.push(item);
                i = i + 1;
            }
            assert(views(items@) =~= results@.subrange(0, n as int).map_values(|e: Json| news_entry(e)));
            items
        },
        None => {
            assert(views(items@) =~= Seq::<ItemView>::empty());
            items
        },
    }
}

} // verus!

verus! {

/// With no provider key configured, the news adapter ends with no items,
/// whatever the query.
pub proof fn lemma_news_without_key_is_empty(query: Seq<char>, answered: Seq<ItemView>)
    ensures
        outcome(news_step(None, query), answered) == Seq::<ItemView>::empty(),
{
}

/// The news items of an answer are at most `MAX_NEWS_ITEMS` of its results,
/// the first ones, in the provider's order.
pub proof fn lemma_news_items_capped_in_order(body: Option<Json>)
    ensures
        news_items_of(body).len() <= MAX_NEWS_ITEMS,
        elements(member(body, "results"@)) matches Some(results) ==> {
            &&& news_items_of(body).len() == if results.len() < MAX_NEWS_ITEMS { results.len() } else { MAX_NEWS_ITEMS as nat }
            &&& forall|i: int| 0 <= i < news_items_of(body).len() ==> #[trigger] news_items_of(body)[i] == news_entry(results[i])
        },
{
}

} // verus!
