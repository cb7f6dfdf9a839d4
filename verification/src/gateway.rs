//! The gateway server: page routes `caoliu`, `hl`, `mrds` and the image route
//! `caoliu_image`, each a state machine. The caller performs each action
//! (cache lookups and writes, HTTP requests) and feeds the outcome back as the
//! next event, until the action is `Finish`.

use vstd::prelude::*;
use crate::bindings::{
    base64_decode, base64_encode, base64_standard_decoding, base64_standard_encoding,
    lemma_base64_decoding_is, lemma_base64_round_trip, optional_bytes,
};
use crate::model::{
    Action, ActionView, Event, EventView, Fault, InnerConfig, Reply, ReplyView, Response,
    ResponseView, State, StateView,
};
use crate::render::response_json;
use crate::scrape::{
    gateway_caoliu_listing, gateway_caoliu_page, gateway_hl_images, gateway_hl_listing,
    gateway_mrds_images, gateway_mrds_listing, outcome_view,
};
use crate::text::joined;

verus! {

/// The gateway's site table: site name to base url (first entry with a name wins).
#[derive(Debug, Clone, PartialEq, Eq)]
pub struct SiteTable {
    pub entries: Vec<(String, String)>,
}

impl View for SiteTable {
    type V = Seq<(Seq<char>, Seq<char>)>;

    open spec fn view(&self) -> Seq<(Seq<char>, Seq<char>)> {
        self.entries.deep_view()
    }
}

/// The value of the first entry named `key`.
pub open spec fn table_lookup(entries: Seq<(Seq<char>, Seq<char>)>, key: Seq<char>) -> Option<
    Seq<char>,
>
    decreases entries.len(),
{
    if entries.len() == 0 {
        None
    } else {
        match table_lookup(entries.drop_last(), key) {
            Some(v) => Some(v),
            None => if entries.last().0 == key {
                Some(entries.last().1)
            } else {
                None
            },
        }
    }
}

/// An entry found in a prefix of the table is the entry found in the whole table.
proof fn lemma_table_lookup_found(s: Seq<(Seq<char>, Seq<char>)>, key: Seq<char>, k: int)
    requires
        0 <= k <= s.len(),
        table_lookup(s.take(k), key) is Some,
    ensures
        table_lookup(s, key) == table_lookup(s.take(k), key),
    decreases s.len() - k,
{
    if k < s.len() {
        assert(s.take(k + 1).drop_last() =~= s.take(k));
        lemma_table_lookup_found(s, key, k + 1);
    } else {
        assert(s.take(k) =~= s);
    }
}

impl SiteTable {
    /// The table that the gateway starts with: one entry for each site of the
    /// configuration.
    pub fn from_config(config: &InnerConfig) -> (res: SiteTable)
        ensures
            res@ == seq![
                ("heiliao"@, config.heiliao@),
                ("meiridasai"@, config.meiridasai@),
                ("caoliu"@, config.caoliu@),
            ],
    {
        let mut entries: Vec<(String, String)> = Vec::new();
        entries.push((String::from_str("heiliao"), config.heiliao.clone()));
        entries.push((String::from_str("meiridasai"), config.meiridasai.clone()));
        entries.push((String::from_str("caoliu"), config.caoliu.clone()));
        let res = SiteTable { entries };
        assert(res@ =~= seq![
            ("heiliao"@, config.heiliao@),
            ("meiridasai"@, config.meiridasai@),
            ("caoliu"@, config.caoliu@),
        ]);
        res
    }

    /// The base url of the first entry named `key`.
    pub fn lookup(&self, key: &str) -> (res: Option<String>)
        ensures
            res.deep_view() == table_lookup(self@, key@),
    {
        let ghost all = self@;
        let n = self.entries.len();
        let mut i: usize = 0;
        while i < n
            invariant
                n == self.entries@.len(),
                all == self@,
                i <= n,
                table_lookup(all.take(i as int), key@) is None,
            decreases n - i,
        {
            assert(all.take(i + 1).drop_last() =~= all.take(i as int));
            if crate::text::same_text(self.entries[i].0.as_str(), key) {
                proof { lemma_table_lookup_found(all, key@, i + 1) }
                return Some(self.entries[i].1.clone());
            }
            i = i + 1;
        }
        assert(all.take(n as int) =~= all);
        None
    }
}

/// The gateway's page routes.
#[derive(PartialEq, Eq, Structural, Clone, Copy, Debug)]
pub enum GatewayRoute {
    Caoliu,
    Hl,
    Mrds,
}

/// The answer to a request whose page could not be requested.
pub const INTERNAL_ERROR: &'static str = "Internal Server Error";

/// The answer to a request whose page answered with a failure status.
pub const FETCH_FAILED: &'static str = "Failed to fetch data";

/// The answer to an image request whose cached image is not valid base64.
pub const INVALID_BASE64: &'static str = "Invalid base64 string";

/// The cache key of a page of a route.
pub open spec fn gateway_key(route: GatewayRoute, id: Seq<char>) -> Seq<char> {
    match route {
        GatewayRoute::Caoliu => "caoliu_"@ + id,
        GatewayRoute::Hl => "hl_"@ + id,
        GatewayRoute::Mrds => "mrds_"@ + id,
    }
}

/// The site table entry that holds a route's site.
pub open spec fn gateway_site(route: GatewayRoute) -> Seq<char> {
    match route {
        GatewayRoute::Caoliu => "caoliu"@,
        GatewayRoute::Hl => "heiliao"@,
        GatewayRoute::Mrds => "meiridasai"@,
    }
}

/// The url of page `id` of a route on its site.
pub open spec fn gateway_page_url(route: GatewayRoute, base: Seq<char>, id: Seq<char>) -> Seq<
    char,
> {
    match route {
        GatewayRoute::Caoliu => base + "/htm_data/"@ + id + ".html"@,
        _ => base + "//archives/"@ + id + "/"@,
    }
}

/// The answer of a route for a fetched page.
pub open spec fn gateway_listing(
    route: GatewayRoute,
    table: Seq<(Seq<char>, Seq<char>)>,
    id: Seq<char>,
    html: Seq<char>,
) -> Result<ResponseView, Fault> {
    match route {
        GatewayRoute::Caoliu => gateway_caoliu_page(html),
        _ => {
            let images = if route == GatewayRoute::Hl {
                gateway_hl_images(html)
            } else {
                gateway_mrds_images(html)
            };
            match images {
                Err(f) => Err(f),
                Ok(images) => match table_lookup(table, "url"@) {
                    None => Err(Fault::MissingConfig),
                    Some(player) => Ok(
                        ResponseView {
                            title: Seq::empty(),
                            images,
                            videos: seq![player + "/hl/"@ + id],
                        },
                    ),
                },
            }
        },
    }
}

/// One step of a gateway page route.
pub open spec fn gateway_page_next(
    route: GatewayRoute,
    table: Seq<(Seq<char>, Seq<char>)>,
    s: StateView,
    e: EventView,
) -> (StateView, ActionView) {
    let unexpected = (StateView::Done, ActionView::Finish(ReplyView::Abort(Fault::UnexpectedEvent)));
    match s {
        StateView::Start(id) => match e {
            EventView::Begin => (
                StateView::Looking(id, gateway_key(route, id)),
                ActionView::CacheGet(gateway_key(route, id)),
            ),
            _ => unexpected,
        },
        StateView::Looking(id, key) => match e {
            EventView::Cached(Some(v)) => (StateView::Done, ActionView::Finish(ReplyView::Json(v))),
            EventView::Cached(None) => match table_lookup(table, gateway_site(route)) {
                None => (StateView::Done, ActionView::Finish(ReplyView::Abort(Fault::MissingConfig))),
                Some(base) => (
                    StateView::Fetching(id, key),
                    ActionView::FetchText(
                        gateway_page_url(route, base, id),
                        route == GatewayRoute::Caoliu,
                    ),
                ),
            },
            _ => unexpected,
        },
        StateView::Fetching(id, key) => match e {
            EventView::PageUnreachable => (
                StateView::Done,
                ActionView::Finish(ReplyView::Failure(500, INTERNAL_ERROR@)),
            ),
            EventView::PageRefused => (
                StateView::Done,
                ActionView::Finish(ReplyView::Failure(400, FETCH_FAILED@)),
            ),
            EventView::BodyUnreadable => (
                StateView::Done,
                ActionView::Finish(ReplyView::Abort(Fault::UnreadableBody)),
            ),
            EventView::PageText(html) => match gateway_listing(route, table, id, html) {
                Err(f) => (StateView::Done, ActionView::Finish(ReplyView::Abort(f))),
                Ok(r) => (
                    StateView::Storing(ReplyView::Json(response_json(r))),
                    ActionView::CacheSet(key, response_json(r)),
                ),
            },
            _ => unexpected,
        },
        StateView::Storing(reply) => match e {
            EventView::Stored => (StateView::Done, ActionView::Finish(reply)),
            _ => unexpected,
        },
        _ => unexpected,
    }
}

/// The answer for a cached image, from what its stored text decodes to.
pub open spec fn cached_image_reply(decoded: Option<Seq<u8>>) -> ReplyView {
    match decoded {
        Some(bytes) => ReplyView::Image(bytes),
        None => ReplyView::Failure(400, INVALID_BASE64@),
    }
}

/// One step of the gateway image route.
pub open spec fn gateway_image_next(s: StateView, e: EventView) -> (StateView, ActionView) {
    let unexpected = (StateView::Done, ActionView::Finish(ReplyView::Abort(Fault::UnexpectedEvent)));
    match s {
        StateView::Query(q) => match e {
            EventView::Begin => match q {
                None => (StateView::Done, ActionView::Finish(ReplyView::Abort(Fault::MissingImageQuery))),
                Some(url) => (
                    StateView::Looking(url, "caoliu_"@ + url),
                    ActionView::CacheGet("caoliu_"@ + url),
                ),
            },
            _ => unexpected,
        },
        StateView::Looking(url, key) => match e {
            EventView::Cached(Some(v)) => (
                StateView::Done,
                ActionView::Finish(cached_image_reply(base64_standard_decoding(v))),
            ),
            EventView::Cached(None) => (StateView::Fetching(url, key), ActionView::FetchBytes(url)),
            _ => unexpected,
        },
        StateView::Fetching(url, key) => match e {
            EventView::PageUnreachable => (
                StateView::Done,
                ActionView::Finish(ReplyView::Failure(500, INTERNAL_ERROR@)),
            ),
            EventView::PageRefused => (
                StateView::Done,
                ActionView::Finish(ReplyView::Failure(400, FETCH_FAILED@)),
            ),
            EventView::BodyUnreadable => (
                StateView::Done,
                ActionView::Finish(ReplyView::Abort(Fault::UnreadableBody)),
            ),
            EventView::PageBytes(bytes) => (
                StateView::Storing(ReplyView::Image(bytes)),
                ActionView::CacheSet(key, base64_standard_encoding(bytes)),
            ),
            _ => unexpected,
        },
        StateView::Storing(reply) => match e {
            EventView::Stored => (StateView::Done, ActionView::Finish(reply)),
            _ => unexpected,
        },
        _ => unexpected,
    }
}

/// The answer for a cached image, from what its stored text decodes to.
pub fn cached_image(decoded: Option<Vec<u8>>) -> (res: Reply)
    ensures
        res@ == cached_image_reply(optional_bytes(decoded)),
{
    match decoded {
        Some(bytes) => Reply::Image(bytes),
        None => Reply::Failure(400, INVALID_BASE64.to_owned()),
    }
}

/// The answer for an event that the handler does not wait for.
fn unexpected() -> (res: (State, Action))
    ensures
        res.0@ == StateView::Done,
        res.1@ == ActionView::Finish(ReplyView::Abort(Fault::UnexpectedEvent)),
{
    (State::Done, Action::Finish(Reply::Abort(Fault::UnexpectedEvent)))
}

/// A finished handler with this answer.
fn finish(reply: Reply) -> (res: (State, Action))
    ensures
        res.0@ == StateView::Done,
        res.1@ == ActionView::Finish(reply@),
{
    (State::Done, Action::Finish(reply))
}

/// An error answer.
fn failure(status: u16, message: &str) -> (res: (State, Action))
    ensures
        res.0@ == StateView::Done,
        res.1@ == ActionView::Finish(ReplyView::Failure(status, message@)),
{
    finish(Reply::Failure(status, message.to_owned()))
}

/// The cache key of a page of a route.
fn gateway_key_of(route: GatewayRoute, id: &str) -> (res: String)
    ensures
        res@ == gateway_key(route, id@),
{
    match route {
        GatewayRoute::Caoliu => joined("caoliu_", id),
        GatewayRoute::Hl => joined("hl_", id),
        GatewayRoute::Mrds => joined("mrds_", id),
    }
}

/// The site table entry that holds a route's site.
fn gateway_site_of(route: GatewayRoute) -> (res: &'static str)
    ensures
        res@ == gateway_site(route),
{
    match route {
        GatewayRoute::Caoliu => "caoliu",
        GatewayRoute::Hl => "heiliao",
        GatewayRoute::Mrds => "meiridasai",
    }
}

/// The url of page `id` of a route on its site.
fn gateway_page_url_of(route: GatewayRoute, base: &str, id: &str) -> (res: String)
    ensures
        res@ == gateway_page_url(route, base@, id@),
{
    let mut url = base.to_owned();
    match route {
        GatewayRoute::Caoliu => {
            url.append("/htm_data/");
            url.append(id);
            url.append(".html");
        },
        _ => {
            url.append("//archives/");
            url.append(id);
            url.append("/");
        },
    }
    url
}

/// The answer of a route for a fetched page.
fn gateway_listing_of(route: GatewayRoute, table: &SiteTable, id: &str, html: &str) -> (res: Result<
    Response,
    Fault,
>)
    ensures
        outcome_view(res) == gateway_listing(route, table@, id@, html@),
{
    match route {
        GatewayRoute::Caoliu => gateway_caoliu_listing(html),
        _ => {
            let images = if route == GatewayRoute::Hl {
                gateway_hl_listing(html)
            } else {
                gateway_mrds_listing(html)
            };
            match images {
                Err(f) => Err(f),
                Ok(images) => match table.lookup("url") {
                    None => Err(Fault::MissingConfig),
                    Some(player) => {
                        let mut video = player;
                        video.append("/hl/");
                        video.append(id);
                        let mut videos: Vec<String> = Vec::new();
                        videos.push(video);
                        let r = Response { title: String::new(), images, videos };
                        assert(r@.videos =~= seq![player@ + "/hl/"@ + id@]);
                        Ok(r)
                    },
                },
            }
        },
    }
}

/// One step of a gateway page route.
pub fn page_step(route: GatewayRoute, table: &SiteTable, state: State, event: Event) -> (res: (
    State,
    Action,
))
    ensures
        (res.0@, res.1@) == gateway_page_next(route, table@, state@, event@),
{
    match state {
        State::Start(id) => match event {
            Event::Begin => {
                let key = gateway_key_of(route, id.as_str());
                let key2 = key.clone();
                (State::Looking(id, key), Action::CacheGet(key2))
            },
            _ => unexpected(),
        },
        State::Looking(id, key) => match event {
            Event::Cached(Some(v)) => finish(Reply::Json(v)),
            Event::Cached(None) => match table.lookup(gateway_site_of(route)) {
                None => finish(Reply::Abort(Fault::MissingConfig)),
                Some(base) => {
                    let url = gateway_page_url_of(route, base.as_str(), id.as_str());
                    let cookie = route == GatewayRoute::Caoliu;
                    (State::Fetching(id, key), Action::FetchText(url, cookie))
                },
            },
            _ => unexpected(),
        },
        State::Fetching(id, key) => match event {
            Event::PageUnreachable => failure(500, INTERNAL_ERROR),
            Event::PageRefused => failure(400, FETCH_FAILED),
            Event::BodyUnreadable => finish(Reply::Abort(Fault::UnreadableBody)),
            Event::PageText(html) => match gateway_listing_of(
                route,
                table,
                id.as_str(),
                html.as_str(),
            ) {
                Err(f) => finish(Reply::Abort(f)),
                Ok(r) => {
                    let json = r.to_json();
                    let json2 = json.clone();
                    (State::Storing(Reply::Json(json)), Action::CacheSet(key, json2))
                },
            },
            _ => unexpected(),
        },
        State::Storing(reply) => match event {
            Event::Stored => finish(reply),
            _ => unexpected(),
        },
        _ => unexpected(),
    }
}

/// One step of the `caoliu` route: a caoliu page, served from the cache or
/// scraped from the site (with the cookie `ismob=0`) and then cached.
pub fn caoliu(table: &SiteTable, state: State, event: Event) -> (res: (State, Action))
    ensures
        (res.0@, res.1@) == gateway_page_next(GatewayRoute::Caoliu, table@, state@, event@),
{
    page_step(GatewayRoute::Caoliu, table, state, event)
}

/// One step of the `hl` route: a heiliao page, served from the cache or
/// scraped from the site and then cached.
pub fn hl(table: &SiteTable, state: State, event: Event) -> (res: (State, Action))
    ensures
        (res.0@, res.1@) == gateway_page_next(GatewayRoute::Hl, table@, state@, event@),
{
    page_step(GatewayRoute::Hl, table, state, event)
}

/// One step of the `mrds` route: an mrds page, served from the cache or
/// scraped from the site and then cached.
pub fn mrds(table: &SiteTable, state: State, event: Event) -> (res: (State, Action))
    ensures
        (res.0@, res.1@) == gateway_page_next(GatewayRoute::Mrds, table@, state@, event@),
{
    page_step(GatewayRoute::Mrds, table, state, event)
}

/// One step of the `caoliu_image` route: an image, served from the cache
/// (stored as base64) or fetched and then cached. What it stores for fetched
/// bytes decodes back to those bytes.
pub fn caoliu_image(state: State, event: Event) -> (res: (State, Action))
    ensures
        (res.0@, res.1@) == gateway_image_next(state@, event@),
        event@ matches EventView::PageBytes(b) ==> res.1@ matches ActionView::CacheSet(k, v)
            ==> base64_standard_decoding(v) == Some(b),
{
    match state {
        State::Query(q) => match event {
            Event::Begin => match q.image {
                None => finish(Reply::Abort(Fault::MissingImageQuery)),
                Some(url) => {
                    let key = joined("caoliu_", url.as_str());
                    let key2 = key.clone();
                    (State::Looking(url, key), Action::CacheGet(key2))
                },
            },
            _ => unexpected(),
        },
        State::Looking(url, key) => match event {
            Event::Cached(Some(v)) => {
                let decoded = base64_decode(v.as_str());
                proof { lemma_base64_decoding_is(optional_bytes(decoded), v@) }
                finish(cached_image(decoded))
            },
            Event::Cached(None) => {
                let target = url.clone();
                (State::Fetching(url, key), Action::FetchBytes(target))
            },
            _ => unexpected(),
        },
        State::Fetching(url, key) => match event {
            Event::PageUnreachable => failure(500, INTERNAL_ERROR),
            Event::PageRefused => failure(400, FETCH_FAILED),
            Event::BodyUnreadable => finish(Reply::Abort(Fault::UnreadableBody)),
            Event::PageBytes(bytes) => {
                let encoded = base64_encode(bytes.as_slice());
                proof { lemma_base64_round_trip(bytes@) }
                (State::Storing(Reply::Image(bytes)), Action::CacheSet(key, encoded))
            },
            _ => unexpected(),
        },
        State::Storing(reply) => match event {
            Event::Stored => finish(reply),
            _ => unexpected(),
        },
        _ => unexpected(),
    }
}

} // verus!
