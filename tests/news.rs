use crypto_news::{news_items, news_step_for, Json, Step};

fn s(t: &str) -> Json {
    Json::Str(t.to_string())
}

fn obj(members: Vec<(&str, Json)>) -> Json {
    Json::Object(members.into_iter().map(|(k, v)| (k.to_string(), v)).collect())
}

fn article(n: usize) -> Json {
    obj(vec![
        ("title", s(&format!("title {}", n))),
        ("link", s(&format!("https://example.com/{}", n))),
        ("source_id", s("coindesk")),
        ("pubDate", s("2024-01-02 03:04:05")),
    ])
}

#[test]
fn news_without_key_answers_empty_at_once() {
    for query in ["BTC", "eth", "", "anything at all"] {
        match news_step_for(None, query) {
            Step::Done(items) => assert!(items.is_empty()),
            Step::Send(_) => panic!("a request without a key"),
        }
    }
}

#[test]
fn news_with_key_searches_for_lower_case_name() {
    match news_step_for(Some("k123"), "ETH") {
        Step::Send(req) => {
            assert_eq!(req.url, "https://newsdata.io/api/1/news?apikey=k123&q=ethereum&language=en");
            assert!(req.query.is_empty());
            assert!(req.headers.is_empty());
        }
        Step::Done(_) => panic!("no request with a key"),
    }
    match news_step_for(Some("k"), "Pepe") {
        Step::Send(req) => {
            assert_eq!(req.url, "https://newsdata.io/api/1/news?apikey=k&q=pepe&language=en");
        }
        Step::Done(_) => panic!("no request with a key"),
    }
}

#[test]
fn news_twenty_results_give_first_eleven_in_order() {
    let body = obj(vec![
        ("status", s("success")),
        ("results", Json::Array((0..20).map(article).collect())),
    ]);
    let items = news_items(Some(&body));
    assert_eq!(items.len(), 11);
    for (i, item) in items.iter().enumerate() {
        assert_eq!(item.headline, format!("title {}", i));
        assert_eq!(item.article_url, format!("https://example.com/{}", i));
        assert_eq!(item.origin, "coindesk");
        assert_eq!(item.published_at, "2024-01-02 03:04:05");
    }
}

#[test]
fn news_fewer_results_are_all_kept() {
    let body = obj(vec![("results", Json::Array((0..3).map(article).collect()))]);
    let items = news_items(Some(&body));
    assert_eq!(items.len(), 3);
    assert_eq!(items[2].headline, "title 2");
}

#[test]
fn news_missing_fields_become_empty_or_default_origin() {
    let body = obj(vec![(
        "results",
        Json::Array(vec![
            obj(vec![]),
            obj(vec![
                ("title", Json::Null),
                ("link", Json::Number("3".to_string())),
                ("source_id", Json::Null),
                ("pubDate", Json::Bool(true)),
            ]),
            s("not an object"),
        ]),
    )]);
    let items = news_items(Some(&body));
    assert_eq!(items.len(), 3);
    for item in &items {
        assert_eq!(item.headline, "");
        assert_eq!(item.article_url, "");
        assert_eq!(item.origin, "NewsData");
        assert_eq!(item.published_at, "");
    }
}

#[test]
fn news_failure_or_odd_shape_gives_no_items() {
    assert!(news_items(None).is_empty());
    assert!(news_items(Some(&obj(vec![]))).is_empty());
    assert!(news_items(Some(&obj(vec![("results", s("x"))]))).is_empty());
    assert!(news_items(Some(&Json::Array(vec![article(0)]))).is_empty());
    assert!(news_items(Some(&Json::Null)).is_empty());
}
