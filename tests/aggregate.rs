use crypto_news::{
    market_items, market_step_for, merge_results, news_items, news_step_for, CryptoNewsItem, Json, Step,
};

fn item(headline: &str) -> CryptoNewsItem {
    CryptoNewsItem {
        headline: headline.to_string(),
        article_url: format!("https://example.com/{}", headline),
        origin: "test".to_string(),
        published_at: String::new(),
    }
}

fn s(t: &str) -> Json {
    Json::Str(t.to_string())
}

fn obj(members: Vec<(&str, Json)>) -> Json {
    Json::Object(members.into_iter().map(|(k, v)| (k.to_string(), v)).collect())
}

fn finish(step: Step, answer: impl FnOnce() -> Vec<CryptoNewsItem>) -> Vec<CryptoNewsItem> {
    match step {
        Step::Done(items) => items,
        Step::Send(_) => answer(),
    }
}

#[test]
fn merge_keeps_news_then_market_in_order() {
    let merged = merge_results(vec![item("A"), item("B")], vec![item("C")]);
    assert_eq!(merged, vec![item("A"), item("B"), item("C")]);
    let merged = merge_results(vec![], vec![item("C"), item("D")]);
    assert_eq!(merged, vec![item("C"), item("D")]);
    let merged = merge_results(vec![item("A")], vec![]);
    assert_eq!(merged, vec![item("A")]);
}

#[test]
fn merge_keeps_duplicates() {
    let merged = merge_results(vec![item("A")], vec![item("A")]);
    assert_eq!(merged, vec![item("A"), item("A")]);
}

#[test]
fn no_keys_give_empty_list() {
    let news = finish(news_step_for(None, "BTC"), || vec![item("never")]);
    let market = finish(market_step_for(None, "BTC"), || vec![item("never")]);
    assert!(merge_results(news, market).is_empty());
}

#[test]
fn end_to_end_eth_gives_two_items_news_first() {
    let news_answer = obj(vec![(
        "results",
        Json::Array(vec![obj(vec![
            ("title", s("Ethereum rallies")),
            ("link", s("https://news.example/eth")),
            ("source_id", s("newsdesk")),
            ("pubDate", s("2024-03-01 10:00:00")),
        ])]),
    )]);
    let market_answer = obj(vec![(
        "data",
        obj(vec![(
            "ETH",
            obj(vec![("urls", obj(vec![("website", Json::Array(vec![s("https://ethereum.org/")]))]))]),
        )]),
    )]);
    let news = finish(news_step_for(Some("nk"), "ETH"), || news_items(Some(&news_answer)));
    let market = finish(market_step_for(Some("mk"), "ETH"), || {
        market_items(Some(&market_answer), "ETH", "2024-03-01T10:00:00+00:00")
    });
    let merged = merge_results(news, market);
    assert_eq!(merged.len(), 2);
    assert_eq!(merged[0].headline, "Ethereum rallies");
    assert_eq!(merged[0].origin, "newsdesk");
    assert_eq!(merged[1].headline, "ETH Overview");
    assert_eq!(merged[1].article_url, "https://ethereum.org/");
    assert_eq!(merged[1].origin, "CoinMarketCap");

    let array = serde_json::Value::Array(
        merged
            .iter()
            .map(|it| {
                let mut m = serde_json::Map::new();
                m.insert("headline".to_string(), serde_json::Value::String(it.headline.clone()));
                m.insert("article_url".to_string(), serde_json::Value::String(it.article_url.clone()));
                m.insert("origin".to_string(), serde_json::Value::String(it.origin.clone()));
                m.insert("published_at".to_string(), serde_json::Value::String(it.published_at.clone()));
                serde_json::Value::Object(m)
            })
            .collect(),
    );
    let text = serde_json::to_string(&array).unwrap();
    let back: serde_json::Value = serde_json::from_str(&text).unwrap();
    let elements = back.as_array().unwrap();
    assert_eq!(elements.len(), 2);
    assert_eq!(elements[0]["headline"], "Ethereum rallies");
    assert_eq!(elements[1]["headline"], "ETH Overview");
}
