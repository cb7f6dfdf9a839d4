//! The values that the handlers read and answer with.

use vstd::prelude::*;

verus! {

/// What a page handler answers with: the page title, the image urls and the
/// video urls found on it.
#[derive(Debug, Clone, PartialEq, Eq)]
pub struct Response {
    pub title: String,
    pub images: Vec<String>,
    pub videos: Vec<String>,
}

/// `Response` as plain text sequences.
pub struct ResponseView {
    pub title: Seq<char>,
    pub images: Seq<Seq<char>>,
    pub videos: Seq<Seq<char>>,
}

impl View for Response {
    type V = ResponseView;

    open spec fn view(&self) -> ResponseView {
        ResponseView {
            title: self.title@,
            images: self.images.deep_view(),
            videos: self.videos.deep_view(),
        }
    }
}

/// The query of an image request: the url of the image, when given.
#[derive(Debug, Clone, PartialEq, Eq)]
pub struct QueryInfo {
    pub image: Option<String>,
}

impl View for QueryInfo {
    type V = Option<Seq<char>>;

    open spec fn view(&self) -> Option<Seq<char>> {
        self.image.deep_view()
    }
}

/// What the address service answers: the current base url of a site.
#[derive(Debug, Clone, PartialEq, Eq)]
pub struct ChiGuaServer {
    pub url: String,
}

impl View for ChiGuaServer {
    type V = Seq<char>;

    open spec fn view(&self) -> Seq<char> {
        self.url@
    }
}

/// The configuration file: its one table.
#[derive(Debug, Clone, PartialEq, Eq)]
pub struct AppConfig {
    pub config: InnerConfig,
}

/// The base url of each site.
#[derive(Debug, Clone, PartialEq, Eq)]
pub struct InnerConfig {
    pub heiliao: String,
    pub meiridasai: String,
    pub caoliu: String,
}

/// Why a request cannot be answered at all: the handler gives up (the server
/// drops the request) instead of replying.
#[derive(PartialEq, Eq, Structural, Clone, Copy, Debug)]
pub enum Fault {
    /// The site table has no entry that the handler needs.
    MissingConfig,
    /// A cached entry does not read back as an answer.
    CorruptCacheEntry,
    /// A CSS selector of the scraping rules does not parse.
    BadSelector,
    /// The page has no `title` element.
    NoTitle,
    /// A selected element lacks the attribute that the rules read.
    MissingAttribute,
    /// The regular expression of the rules does not compile.
    BadPattern,
    /// The body of a successful answer could not be read.
    UnreadableBody,
    /// Writing to the cache failed.
    StoreFailed,
    /// An image request without an image url.
    MissingImageQuery,
    /// An event that the handler does not wait for in its present stage.
    UnexpectedEvent,
}

/// The answer to a request.
#[derive(Debug, Clone, PartialEq, Eq)]
pub enum Reply {
    /// 200, `application/json`, with this body.
    Json(String),
    /// 200, `image/png`, with these bytes.
    Image(Vec<u8>),
    /// An error status with a text body.
    Failure(u16, String),
    /// No answer: the handler gives up.
    Abort(Fault),
}

pub enum ReplyView {
    Json(Seq<char>),
    Image(Seq<u8>),
    Failure(u16, Seq<char>),
    Abort(Fault),
}

impl View for Reply {
    type V = ReplyView;

    open spec fn view(&self) -> ReplyView {
        match self {
            Reply::Json(t) => ReplyView::Json(t@),
            Reply::Image(b) => ReplyView::Image(b@),
            Reply::Failure(s, t) => ReplyView::Failure(*s, t@),
            Reply::Abort(f) => ReplyView::Abort(*f),
        }
    }
}

/// What the outside world reports back to a handler.
#[derive(Debug, Clone, PartialEq, Eq)]
pub enum Event {
    /// The request has arrived.
    Begin,
    /// A cache connection was obtained.
    Connected,
    /// The cache could not be reached or read; the error's text.
    CacheFailed(String),
    /// The cache lookup answered: the stored value, if any. (The image-fetch
    /// page routes take a hit as `CachedPage`.)
    Cached(Option<String>),
    /// The cache held an answer for the page: it read back as this answer,
    /// or (`None`) it is not one.
    CachedPage(Option<Response>),
    /// The address service could not be reached.
    AddressUnreachable,
    /// The address service answered with something that is not an address.
    AddressUnreadable,
    /// The address service answered with this address.
    Address(ChiGuaServer),
    /// The page could not be requested.
    PageUnreachable,
    /// The page request got a status that is not a success.
    PageRefused,
    /// The body of a successful answer could not be read.
    BodyUnreadable,
    /// The page was fetched: its text.
    PageText(String),
    /// The page was fetched: its bytes.
    PageBytes(Vec<u8>),
    /// The cache write is done.
    Stored,
    /// The cache write failed.
    StoreFailed,
}

pub enum EventView {
    Begin,
    Connected,
    CacheFailed(Seq<char>),
    Cached(Option<Seq<char>>),
    CachedPage(Option<ResponseView>),
    AddressUnreachable,
    AddressUnreadable,
    Address(Seq<char>),
    PageUnreachable,
    PageRefused,
    BodyUnreadable,
    PageText(Seq<char>),
    PageBytes(Seq<u8>),
    Stored,
    StoreFailed,
}

impl View for Event {
    type V = EventView;

    open spec fn view(&self) -> EventView {
        match self {
            Event::Begin => EventView::Begin,
            Event::Connected => EventView::Connected,
            Event::CacheFailed(t) => EventView::CacheFailed(t@),
            Event::Cached(v) => EventView::Cached(v.deep_view()),
            Event::CachedPage(r) => EventView::CachedPage(
                match r {
                    Some(r) => Some(r@),
                    None => None,
                },
            ),
            Event::AddressUnreachable => EventView::AddressUnreachable,
            Event::AddressUnreadable => EventView::AddressUnreadable,
            Event::Address(s) => EventView::Address(s@),
            Event::PageUnreachable => EventView::PageUnreachable,
            Event::PageRefused => EventView::PageRefused,
            Event::BodyUnreadable => EventView::BodyUnreadable,
            Event::PageText(t) => EventView::PageText(t@),
            Event::PageBytes(b) => EventView::PageBytes(b@),
            Event::Stored => EventView::Stored,
            Event::StoreFailed => EventView::StoreFailed,
        }
    }
}

/// The outside work that a handler asks for next.
#[derive(Debug, Clone, PartialEq, Eq)]
pub enum Action {
    /// Obtain a cache connection.
    Connect,
    /// Look this key up in the cache.
    CacheGet(String),
    /// Ask the address service at this url for a site's address.
    Locate(String),
    /// GET this url and read the body as text; with the cookie `ismob=0` when the flag is set.
    FetchText(String, bool),
    /// GET this url and read the body as bytes.
    FetchBytes(String),
    /// Store this value under this key.
    CacheSet(String, String),
    /// Answer the request; the handler is done.
    Finish(Reply),
}

pub enum ActionView {
    Connect,
    CacheGet(Seq<char>),
    Locate(Seq<char>),
    FetchText(Seq<char>, bool),
    FetchBytes(Seq<char>),
    CacheSet(Seq<char>, Seq<char>),
    Finish(ReplyView),
}

impl View for Action {
    type V = ActionView;

    open spec fn view(&self) -> ActionView {
        match self {
            Action::Connect => ActionView::Connect,
            Action::CacheGet(k) => ActionView::CacheGet(k@),
            Action::Locate(u) => ActionView::Locate(u@),
            Action::FetchText(u, c) => ActionView::FetchText(u@, *c),
            Action::FetchBytes(u) => ActionView::FetchBytes(u@),
            Action::CacheSet(k, v) => ActionView::CacheSet(k@, v@),
            Action::Finish(r) => ActionView::Finish(r@),
        }
    }
}

/// Where a handler stands between two events.
#[derive(Debug, Clone, PartialEq, Eq)]
pub enum State {
    /// A page request for this id, not yet begun.
    Start(String),
    /// An image request with this query, not yet begun.
    Query(QueryInfo),
    /// An image request waiting for a cache connection.
    Connecting(QueryInfo),
    /// Waiting for the cache lookup of (id, key).
    Looking(String, String),
    /// Waiting for the address service, for (id, key).
    Locating(String, String),
    /// Waiting for the page or image, for (id, key).
    Fetching(String, String),
    /// Waiting for the cache write; then this answer.
    Storing(Reply),
    /// Finished.
    Done,
}

pub enum StateView {
    Start(Seq<char>),
    Query(Option<Seq<char>>),
    Connecting(Option<Seq<char>>),
    Looking(Seq<char>, Seq<char>),
    Locating(Seq<char>, Seq<char>),
    Fetching(Seq<char>, Seq<char>),
    Storing(ReplyView),
    Done,
}

impl View for State {
    type V = StateView;

    open spec fn view(&self) -> StateView {
        match self {
            State::Start(id) => StateView::Start(id@),
            State::Query(q) => StateView::Query(q@),
            State::Connecting(q) => StateView::Connecting(q@),
            State::Looking(id, k) => StateView::Looking(id@, k@),
            State::Locating(id, k) => StateView::Locating(id@, k@),
            State::Fetching(id, k) => StateView::Fetching(id@, k@),
            State::Storing(r) => StateView::Storing(r@),
            State::Done => StateView::Done,
        }
    }
}

} // verus!
