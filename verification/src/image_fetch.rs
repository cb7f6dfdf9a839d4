//! The image-fetch server: page routes `caoliu` and `mrds`, which learn each
//! site's address from the address service, and the image route
//! `caoliu_image`. Each is a state machine like those of the gateway; its
//! cache is a shared store that can fail.

use vstd::prelude::*;
use crate::bindings::{
    base64_decode, base64_encode, base64_standard_decoding, base64_standard_encoding,
    lemma_base64_decoding_is, lemma_base64_round_trip, optional_bytes,
};
use crate::model::{
    Action, ActionView, Event, EventView, Fault, Reply, ReplyView, Response, ResponseView, State,
    StateView,
};
use crate::render::response_json;
use crate::scrape::{
    fetch_caoliu_listing, fetch_caoliu_page, fetch_mrds_listing, fetch_mrds_page,
    reply_outcome_view,
};
use crate::text::joined;

verus! {

/// The image-fetch server's page routes.
#[derive(PartialEq, Eq, Structural, Clone, Copy, Debug)]
pub enum FetchRoute {
    Caoliu,
    Mrds,
}

/// The status and text of a failure of the cache.
pub fn internal_error(message: String) -> (res: (u16, String))
    ensures
        res.0 == 500,
        res.1@ == message@,
{
    (500, message)
}

/// The address service's url for a route's site.
pub open spec fn address_service(route: FetchRoute) -> Seq<char> {
    match route {
        FetchRoute::Caoliu => "http://127.0.0.1:3000/chigua/caoliu"@,
        FetchRoute::Mrds => "http://127.0.0.1:3000/chigua/mrds"@,
    }
}

/// The cache key of a page of a route.
pub open spec fn fetch_key(route: FetchRoute, id: Seq<char>) -> Seq<char> {
    match route {
        FetchRoute::Caoliu => "caoliu_"@ + id,
        FetchRoute::Mrds => "mrds_"@ + id,
    }
}

/// The url of page `id` of a route on the site at `base`.
pub open spec fn fetch_page_url(route: FetchRoute, base: Seq<char>, id: Seq<char>) -> Seq<char> {
    match route {
        FetchRoute::Caoliu => base + "/htm_data/"@ + id + ".html"@,
        FetchRoute::Mrds => base + "/archives/"@ + id + "/"@,
    }
}

/// The answer when the address service cannot be reached.
pub open spec fn unreachable_service_text(route: FetchRoute) -> Seq<char> {
    match route {
        FetchRoute::Caoliu => "获取草榴网地址失败"@,
        FetchRoute::Mrds => "获取每日大赛网地址失败"@,
    }
}

/// The answer when the address service's answer is not an address.
pub open spec fn unreadable_service_text(route: FetchRoute) -> Seq<char> {
    match route {
        FetchRoute::Caoliu => "获取草榴地址成功,但序列化失败"@,
        FetchRoute::Mrds => "获取每日大赛地址成功,但序列化失败"@,
    }
}

/// The answer when the page cannot be requested.
pub open spec fn unreachable_page_text(route: FetchRoute) -> Seq<char> {
    match route {
        FetchRoute::Caoliu => "请求草榴失败"@,
        FetchRoute::Mrds => "请求每日大赛失败2"@,
    }
}

/// The answer when the page answers with a failure status.
pub open spec fn refused_page_text(route: FetchRoute) -> Seq<char> {
    match route {
        FetchRoute::Caoliu => "请求草榴失败"@,
        FetchRoute::Mrds => "请求每日大赛失败1"@,
    }
}

/// The answer of a route for a fetched page.
pub open spec fn fetch_listing(route: FetchRoute, id: Seq<char>, html: Seq<char>) -> Result<
    ResponseView,
    ReplyView,
> {
    match route {
        FetchRoute::Caoliu => fetch_caoliu_page(html),
        FetchRoute::Mrds => fetch_mrds_page(html, id),
    }
}

/// The answer to an image request without an image url.
pub const NO_IMAGE: &'static str = "no caoliu image";

/// The answer when a cached image is not valid base64.
pub const UNDECODABLE_IMAGE: &'static str = "解码草榴图片失败";

/// The answer when the image cannot be fetched.
pub const IMAGE_FETCH_FAILED: &'static str = "获取草榴图片失败";

/// The answer for a cached page, from the answer that its entry reads back as:
/// that answer's JSON; when the entry is not an answer, the handler gives up.
pub open spec fn cached_page_reply(entry: Option<ResponseView>) -> ReplyView {
    match entry {
        Some(r) => ReplyView::Json(response_json(r)),
        None => ReplyView::Abort(Fault::CorruptCacheEntry),
    }
}

/// One step of an image-fetch page route.
pub open spec fn fetch_page_next(route: FetchRoute, s: StateView, e: EventView) -> (
    StateView,
    ActionView,
) {
    let unexpected = (StateView::Done, ActionView::Finish(ReplyView::Abort(Fault::UnexpectedEvent)));
    match s {
        StateView::Start(id) => match e {
            EventView::Begin => (
                StateView::Looking(id, fetch_key(route, id)),
                ActionView::CacheGet(fetch_key(route, id)),
            ),
            _ => unexpected,
        },
        StateView::Looking(id, key) => match e {
            EventView::CacheFailed(m) => (StateView::Done, ActionView::Finish(ReplyView::Failure(500, m))),
            EventView::CachedPage(entry) => (
                StateView::Done,
                ActionView::Finish(cached_page_reply(entry)),
            ),
            EventView::Cached(None) => (
                StateView::Locating(id, key),
                ActionView::Locate(address_service(route)),
            ),
            _ => unexpected,
        },
        StateView::Locating(id, key) => match e {
            EventView::AddressUnreachable => (
                StateView::Done,
                ActionView::Finish(ReplyView::Failure(400, unreachable_service_text(route))),
            ),
            EventView::AddressUnreadable => (
                StateView::Done,
                ActionView::Finish(ReplyView::Failure(400, unreadable_service_text(route))),
            ),
            EventView::Address(base) => (
                StateView::Fetching(id, key),
                ActionView::FetchText(fetch_page_url(route, base, id), route == FetchRoute::Caoliu),
            ),
            _ => unexpected,
        },
        StateView::Fetching(id, key) => match e {
            EventView::PageUnreachable => (
                StateView::Done,
                ActionView::Finish(ReplyView::Failure(400, unreachable_page_text(route))),
            ),
            EventView::PageRefused => (
                StateView::Done,
                ActionView::Finish(ReplyView::Failure(400, refused_page_text(route))),
            ),
            EventView::BodyUnreadable => (
                StateView::Done,
                ActionView::Finish(ReplyView::Abort(Fault::UnreadableBody)),
            ),
            EventView::PageText(html) => match fetch_listing(route, id, html) {
                Err(r) => (StateView::Done, ActionView::Finish(r)),
                Ok(r) => (
                    StateView::Storing(ReplyView::Json(response_json(r))),
                    ActionView::CacheSet(key, response_json(r)),
                ),
            },
            _ => unexpected,
        },
        StateView::Storing(reply) => match e {
            EventView::Stored => (StateView::Done, ActionView::Finish(reply)),
            EventView::StoreFailed => (
                StateView::Done,
                ActionView::Finish(ReplyView::Abort(Fault::StoreFailed)),
            ),
            _ => unexpected,
        },
        _ => unexpected,
    }
}

/// The answer for a cached image, from what its stored text decodes to.
pub open spec fn cached_image_reply(decoded: Option<Seq<u8>>) -> ReplyView {
    match decoded {
        Some(bytes) => ReplyView::Image(bytes),
        None => ReplyView::Failure(400, UNDECODABLE_IMAGE@),
    }
}

/// One step of the image-fetch image route.
pub open spec fn fetch_image_next(s: StateView, e: EventView) -> (StateView, ActionView) {
    let unexpected = (StateView::Done, ActionView::Finish(ReplyView::Abort(Fault::UnexpectedEvent)));
    match s {
        StateView::Query(q) => match e {
            EventView::Begin => (StateView::Connecting(q), ActionView::Connect),
            _ => unexpected,
        },
        StateView::Connecting(q) => match e {
            EventView::CacheFailed(m) => (StateView::Done, ActionView::Finish(ReplyView::Failure(500, m))),
            EventView::Connected => match q {
                None => (StateView::Done, ActionView::Finish(ReplyView::Failure(400, NO_IMAGE@))),
                Some(url) => (
                    StateView::Looking(url, "caoliu_"@ + url),
                    ActionView::CacheGet("caoliu_"@ + url),
                ),
            },
            _ => unexpected,
        },
        StateView::Looking(url, key) => match e {
            EventView::CacheFailed(m) => (StateView::Done, ActionView::Finish(ReplyView::Failure(500, m))),
            EventView::Cached(Some(v)) => (
                StateView::Done,
                ActionView::Finish(cached_image_reply(base64_standard_decoding(v))),
            ),
            EventView::Cached(None) => (StateView::Fetching(url, key), ActionView::FetchBytes(url)),
            _ => unexpected,
        },
        StateView::Fetching(url, key) => match e {
            EventView::PageUnreachable => (
                StateView::Done,
                ActionView::Finish(ReplyView::Failure(400, IMAGE_FETCH_FAILED@)),
            ),
            EventView::PageRefused => (
                StateView::Done,
                ActionView::Finish(ReplyView::Failure(400, IMAGE_FETCH_FAILED@)),
            ),
            EventView::BodyUnreadable => (
                StateView::Done,
                ActionView::Finish(ReplyView::Abort(Fault::UnreadableBody)),
            ),
            EventView::PageBytes(bytes) => (
                StateView::Storing(ReplyView::Image(bytes)),
                ActionView::CacheSet(key, base64_standard_encoding(bytes)),
            ),
            _ => unexpected,
        },
        StateView::Storing(reply) => match e {
            EventView::Stored => (StateView::Done, ActionView::Finish(reply)),
            EventView::StoreFailed => (
                StateView::Done,
                ActionView::Finish(ReplyView::Abort(Fault::StoreFailed)),
            ),
            _ => unexpected,
        },
        _ => unexpected,
    }
}

/// The answer for a cached page, from the answer that its entry reads back as.
pub fn cached_page(entry: Option<Response>) -> (res: Reply)
    ensures
        res@ == cached_page_reply(
            match entry {
                Some(r) => Some(r@),
                None => None,
            },
        ),
{
    match entry {
        Some(r) => Reply::Json(r.to_json()),
        None => Reply::Abort(Fault::CorruptCacheEntry),
    }
}

/// The answer for a cached image, from what its stored text decodes to.
pub fn cached_image(decoded: Option<Vec<u8>>) -> (res: Reply)
    ensures
        res@ == cached_image_reply(optional_bytes(decoded)),
{
    match decoded {
        Some(bytes) => Reply::Image(bytes),
        None => Reply::Failure(400, UNDECODABLE_IMAGE.to_owned()),
    }
}

/// The answer for an event that the handler does not wait for.
fn unexpected() -> (res: (State, Action))
    ensures
        res.0@ == StateView::Done,
        res.1@ == ActionView::Finish(ReplyView::Abort(Fault::UnexpectedEvent)),
{
    (State::Done, Action::Finish(Reply::Abort(Fault::UnexpectedEvent)))
}

/// A finished handler with this answer.
fn finish(reply: Reply) -> (res: (State, Action))
    ensures
        res.0@ == StateView::Done,
        res.1@ == ActionView::Finish(reply@),
{
    (State::Done, Action::Finish(reply))
}

/// An error answer.
fn failure(status: u16, message: &str) -> (res: (State, Action))
    ensures
        res.0@ == StateView::Done,
        res.1@ == ActionView::Finish(ReplyView::Failure(status, message@)),
{
    finish(Reply::Failure(status, message.to_owned()))
}

/// The answer to a failure of the cache: status 500 with the error's text.
fn cache_failure(message: String) -> (res: (State, Action))
    ensures
        res.0@ == StateView::Done,
        res.1@ == ActionView::Finish(ReplyView::Failure(500, message@)),
{
    let (status, text) = internal_error(message);
    finish(Reply::Failure(status, text))
}

/// The cache key of a page of a route.
fn fetch_key_of(route: FetchRoute, id: &str) -> (res: String)
    ensures
        res@ == fetch_key(route, id@),
{
    match route {
        FetchRoute::Caoliu => joined("caoliu_", id),
        FetchRoute::Mrds => joined("mrds_", id),
    }
}

/// The address service's url for a route's site.
fn address_service_of(route: FetchRoute) -> (res: String)
    ensures
        res@ == address_service(route),
{
    match route {
        FetchRoute::Caoliu => String::from_str("http://127.0.0.1:3000/chigua/caoliu"),
        FetchRoute::Mrds => String::from_str("http://127.0.0.1:3000/chigua/mrds"),
    }
}

/// The url of page `id` of a route on the site at `base`.
fn fetch_page_url_of(route: FetchRoute, base: &str, id: &str) -> (res: String)
    ensures
        res@ == fetch_page_url(route, base@, id@),
{
    let mut url = base.to_owned();
    match route {
        FetchRoute::Caoliu => {
            url.append("/htm_data/");
            url.append(id);
            url.append(".html");
        },
        FetchRoute::Mrds => {
            url.append("/archives/");
            url.append(id);
            url.append("/");
        },
    }
    url
}

/// A 400 answer with the text of the route.
fn route_failure(route: FetchRoute, caoliu_text: &str, mrds_text: &str) -> (res: (State, Action))
    ensures
        res.0@ == StateView::Done,
        res.1@ == ActionView::Finish(
            ReplyView::Failure(
                400,
                match route {
                    FetchRoute::Caoliu => caoliu_text@,
                    FetchRoute::Mrds => mrds_text@,
                },
            ),
        ),
{
    match route {
        FetchRoute::Caoliu => failure(400, caoliu_text),
        FetchRoute::Mrds => failure(400, mrds_text),
    }
}

/// The answer of a route for a fetched page.
fn fetch_listing_of(route: FetchRoute, id: &str, html: &str) -> (res: Result<Response, Reply>)
    ensures
        reply_outcome_view(res) == fetch_listing(route, id@, html@),
{
    match route {
        FetchRoute::Caoliu => fetch_caoliu_listing(html),
        FetchRoute::Mrds => fetch_mrds_listing(html, id),
    }
}

/// One step of an image-fetch page route.
pub fn page_step(route: FetchRoute, state: State, event: Event) -> (res: (State, Action))
    ensures
        (res.0@, res.1@) == fetch_page_next(route, state@, event@),
{
    match state {
        State::Start(id) => match event {
            Event::Begin => {
                let key = fetch_key_of(route, id.as_str());
                let key2 = key.clone();
                (State::Looking(id, key), Action::CacheGet(key2))
            },
            _ => unexpected(),
        },
        State::Looking(id, key) => match event {
            Event::CacheFailed(m) => cache_failure(m),
            Event::CachedPage(entry) => finish(cached_page(entry)),
            Event::Cached(None) => (State::Locating(id, key), Action::Locate(address_service_of(route))),
            _ => unexpected(),
        },
        State::Locating(id, key) => match event {
            Event::AddressUnreachable => route_failure(route, "获取草榴网地址失败", "获取每日大赛网地址失败"),
            Event::AddressUnreadable => route_failure(
                route,
                "获取草榴地址成功,但序列化失败",
                "获取每日大赛地址成功,但序列化失败",
            ),
            Event::Address(server) => {
                let url = fetch_page_url_of(route, server.url.as_str(), id.as_str());
                let cookie = route == FetchRoute::Caoliu;
                (State::Fetching(id, key), Action::FetchText(url, cookie))
            },
            _ => unexpected(),
        },
        State::Fetching(id, key) => match event {
            Event::PageUnreachable => route_failure(route, "请求草榴失败", "请求每日大赛失败2"),
            Event::PageRefused => route_failure(route, "请求草榴失败", "请求每日大赛失败1"),
            Event::BodyUnreadable => finish(Reply::Abort(Fault::UnreadableBody)),
            Event::PageText(html) => match fetch_listing_of(route, id.as_str(), html.as_str()) {
                Err(r) => finish(r),
                Ok(r) => {
                    let json = r.to_json();
                    let json2 = json.clone();
                    (State::Storing(Reply::Json(json)), Action::CacheSet(key, json2))
                },
            },
            _ => unexpected(),
        },
        State::Storing(reply) => match event {
            Event::Stored => finish(reply),
            Event::StoreFailed => finish(Reply::Abort(Fault::StoreFailed)),
            _ => unexpected(),
        },
        _ => unexpected(),
    }
}

/// One step of the `caoliu` route: a caoliu page, served from the cache or
/// scraped from the site whose address the address service gives, then cached.
pub fn caoliu(state: State, event: Event) -> (res: (State, Action))
    ensures
        (res.0@, res.1@) == fetch_page_next(FetchRoute::Caoliu, state@, event@),
{
    page_step(FetchRoute::Caoliu, state, event)
}

/// One step of the `mrds` route: an mrds page, served from the cache or
/// scraped from the site whose address the address service gives, then cached.
pub fn mrds(state: State, event: Event) -> (res: (State, Action))
    ensures
        (res.0@, res.1@) == fetch_page_next(FetchRoute::Mrds, state@, event@),
{
    page_step(FetchRoute::Mrds, state, event)
}

/// One step of the `caoliu_image` route: an image, served from the cache
/// (stored as base64) or fetched and then cached. What it stores for fetched
/// bytes decodes back to those bytes.
pub fn caoliu_image(state: State, event: Event) -> (res: (State, Action))
    ensures
        (res.0@, res.1@) == fetch_image_next(state@, event@),
        event@ matches EventView::PageBytes(b) ==> res.1@ matches ActionView::CacheSet(k, v)
            ==> base64_standard_decoding(v) == Some(b),
{
    match state {
        State::Query(q) => match event {
            Event::Begin => (State::Connecting(q), Action::Connect),
            _ => unexpected(),
        },
        State::Connecting(q) => match event {
            Event::CacheFailed(m) => cache_failure(m),
            Event::Connected => match q.image {
                None => failure(400, NO_IMAGE),
                Some(url) => {
                    let key = joined("caoliu_", url.as_str());
                    let key2 = key.clone();
                    (State::Looking(url, key), Action::CacheGet(key2))
                },
            },
            _ => unexpected(),
        },
        State::Looking(url, key) => match event {
            Event::CacheFailed(m) => cache_failure(m),
            Event::Cached(Some(v)) => {
                let decoded = base64_decode(v.as_str());
                proof { lemma_base64_decoding_is(optional_bytes(decoded), v@) }
                finish(cached_image(decoded))
            },
            Event::Cached(None) => {
                let target = url.clone();
                (State::Fetching(url, key), Action::FetchBytes(target))
            },
            _ => unexpected(),
        },
        State::Fetching(url, key) => match event {
            Event::PageUnreachable => failure(400, IMAGE_FETCH_FAILED),
            Event::PageRefused => failure(400, IMAGE_FETCH_FAILED),
            Event::BodyUnreadable => finish(Reply::Abort(Fault::UnreadableBody)),
            Event::PageBytes(bytes) => {
                let encoded = base64_encode(bytes.as_slice());
                proof { lemma_base64_round_trip(bytes@) }
                (State::Storing(Reply::Image(bytes)), Action::CacheSet(key, encoded))
            },
            _ => unexpected(),
        },
        State::Storing(reply) => match event {
            Event::Stored => finish(reply),
            Event::StoreFailed => finish(Reply::Abort(Fault::StoreFailed)),
            _ => unexpected(),
        },
        _ => unexpected(),
    }
}

} // verus!
