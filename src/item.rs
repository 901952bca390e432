//! The common item type and the steps an adapter goes through.
use vstd::prelude::*;

verus! {

/// One entry of the aggregated list, whichever provider it came from. All
/// four fields are always present; any of them may be empty.
#[derive(Clone, Debug, PartialEq, Eq)]
pub struct CryptoNewsItem {
    pub headline: String,
    pub article_url: String,
    pub origin: String,
    pub published_at: String,
}

/// The four fields of an item as text.
pub struct ItemView {
    pub headline: Seq<char>,
    pub article_url: Seq<char>,
    pub origin: Seq<char>,
    pub published_at: Seq<char>,
}

impl View for CryptoNewsItem {
    type V = ItemView;

    open spec fn view(&self) -> ItemView {
        ItemView {
            headline: self.headline@,
            article_url: self.article_url@,
            origin: self.origin@,
            published_at: self.published_at@,
        }
    }
}

/// The views of a sequence of items, in order.
pub open spec fn views(items: Seq<CryptoNewsItem>) -> Seq<ItemView> {
    items.map_values(|it: CryptoNewsItem| it@)
}

/// An HTTP GET that an adapter asks its caller to send: the URL, the query
/// parameters to add to it, and the request headers.
#[derive(Clone, Debug)]
pub struct Request {
    pub url: String,
    pub query: Vec<(String, String)>,
    pub headers: Vec<(String, String)>,
}

/// A request as text.
pub struct RequestView {
    pub url: Seq<char>,
    pub query: Seq<(Seq<char>, Seq<char>)>,
    pub headers: Seq<(Seq<char>, Seq<char>)>,
}

/// The text of a list of name/value pairs.
pub open spec fn pairs_view(pairs: Seq<(String, String)>) -> Seq<(Seq<char>, Seq<char>)> {
    pairs.map_values(|p: (String, String)| (p.0@, p.1@))
}

impl View for Request {
    type V = RequestView;

    open spec fn view(&self) -> RequestView {
        RequestView { url: self.url@, query: pairs_view(self.query@), headers: pairs_view(self.headers@) }
    }
}

/// What an adapter does first: answer at once with a list, or have a request
/// sent and wait for its answer.
#[derive(Debug)]
pub enum Step {
    Done(Vec<CryptoNewsItem>),
    Send(Request),
}

/// A step as text.
pub enum StepView {
    Done(Seq<ItemView>),
    Send(RequestView),
}

impl View for Step {
    type V = StepView;

    open spec fn view(&self) -> StepView {
        match self {
            Step::Done(items) => StepView::Done(views(items@)),
            Step::Send(req) => StepView::Send(req@),
        }
    }
}

/// The list an adapter ends with, after `step`, where `answered` is the list
/// made of the provider's answer if a request was sent.
pub open spec fn outcome(step: StepView, answered: Seq<ItemView>) -> Seq<ItemView> {
    match step {
        StepView::Done(items) => items,
        StepView::Send(_) => answered,
    }
}

/// The text of an optional string.
pub open spec fn opt_view(s: Option<&str>) -> Option<Seq<char>> {
    match s {
        Some(t) => Some(t@),
        None => None,
    }
}

} // verus!
