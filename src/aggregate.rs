//! The aggregator: one list out of the two adapters' lists.
use vstd::prelude::*;
use crate::item::{CryptoNewsItem, ItemView, outcome, views};
use crate::market::market_step;
use crate::news::news_step;

verus! {

/// The merged list: the news items, then the market-data items, each in its
/// own order.
pub fn merge_results(news: Vec<CryptoNewsItem>, market: Vec<CryptoNewsItem>) -> (r: Vec<CryptoNewsItem>)
    ensures
        r@ == news@ + market@,
        views(r@) == views(news@) + views(market@),
{
    let mut merged = news;
    let mut rest = market;
    merged.append(&mut rest);
    assert(views(merged@) =~= views(news@) + views(market@));
    merged
}

/// With neither provider key configured, the aggregated list is empty,
/// whatever the query and whatever the providers would have answered.
pub proof fn lemma_no_keys_no_items(query: Seq<char>, news_answer: Seq<ItemView>, market_answer: Seq<ItemView>)
    ensures
        outcome(news_step(None, query), news_answer) + outcome(market_step(None, query), market_answer)
            == Seq::<ItemView>::empty(),
{
    assert(outcome(news_step(None, query), news_answer) + outcome(market_step(None, query), market_answer)
        =~= Seq::<ItemView>::empty());
}

} // verus!
