//! Properties that hold across the handlers' steps.

use vstd::prelude::*;
use crate::bindings::{
    base64_standard_encoding, first_selected_text, lemma_base64_round_trip, selected_attributes,
};
use crate::gateway::{gateway_image_next, gateway_key, gateway_listing, gateway_page_next, gateway_site, table_lookup, GatewayRoute};
use crate::scrape::{gateway_caoliu_answer_law, gateway_hl_images, gateway_mrds_images};
use crate::image_fetch::{fetch_image_next, fetch_key, fetch_listing, fetch_page_next, FetchRoute};
use crate::model::{ActionView, EventView, ReplyView, ResponseView, StateView};
use crate::render::response_json;

verus! {

/// How far a handler has come: each step that does not finish moves it further.
pub open spec fn stage(s: StateView) -> int {
    match s {
        StateView::Start(_) => 0,
        StateView::Query(_) => 0,
        StateView::Connecting(_) => 1,
        StateView::Looking(_, _) => 2,
        StateView::Locating(_, _) => 3,
        StateView::Fetching(_, _) => 4,
        StateView::Storing(_) => 5,
        StateView::Done => 6,
    }
}

/// A step either answers and finishes, or asks for outside work and moves to a
/// later stage (so a request is answered after at most six events).
pub open spec fn advances(s: StateView, next: (StateView, ActionView)) -> bool {
    ||| (next.1 is Finish && next.0 == StateView::Done)
    ||| (next.1 !is Finish && next.0 != StateView::Done && stage(next.0) > stage(s))
}

/// Every step of a gateway page route finishes or advances.
pub proof fn gateway_page_steps_advance(
    route: GatewayRoute,
    table: Seq<(Seq<char>, Seq<char>)>,
    s: StateView,
    e: EventView,
)
    ensures
        advances(s, gateway_page_next(route, table, s, e)),
{
}

/// Every step of the gateway image route finishes or advances.
pub proof fn gateway_image_steps_advance(s: StateView, e: EventView)
    ensures
        advances(s, gateway_image_next(s, e)),
{
}

/// Every step of an image-fetch page route finishes or advances.
pub proof fn fetch_page_steps_advance(route: FetchRoute, s: StateView, e: EventView)
    ensures
        advances(s, fetch_page_next(route, s, e)),
{
}

/// Every step of the image-fetch image route finishes or advances.
pub proof fn fetch_image_steps_advance(s: StateView, e: EventView)
    ensures
        advances(s, fetch_image_next(s, e)),
{
}

/// A gateway page is looked up under the key that it is stored under, and a
/// later request for it gets from the cache exactly the JSON that the first
/// request was answered with.
pub proof fn gateway_page_cache_round_trip(
    route: GatewayRoute,
    table: Seq<(Seq<char>, Seq<char>)>,
    id: Seq<char>,
    html: Seq<char>,
    r: ResponseView,
)
    requires
        table_lookup(table, gateway_site(route)) is Some,
        gateway_listing(route, table, id, html) == Ok::<ResponseView, crate::model::Fault>(r),
    ensures
        ({
            let key = gateway_key(route, id);
            let json = response_json(r);
            &&& gateway_page_next(route, table, StateView::Start(id), EventView::Begin) == (
                StateView::Looking(id, key),
                ActionView::CacheGet(key),
            )
            &&& gateway_page_next(route, table, StateView::Looking(id, key), EventView::Cached(None)).0
                == StateView::Fetching(id, key)
            &&& gateway_page_next(route, table, StateView::Fetching(id, key), EventView::PageText(html))
                == (StateView::Storing(ReplyView::Json(json)), ActionView::CacheSet(key, json))
            &&& gateway_page_next(route, table, StateView::Storing(ReplyView::Json(json)), EventView::Stored)
                == (StateView::Done, ActionView::Finish(ReplyView::Json(json)))
            &&& gateway_page_next(route, table, StateView::Looking(id, key), EventView::Cached(Some(json)))
                == (StateView::Done, ActionView::Finish(ReplyView::Json(json)))
        }),
{
}

/// An image-fetch page is looked up under the key that it is stored under,
/// and when the stored JSON reads back as the answer it was written from, a
/// later request for the page gets the very answer that the first one got.
pub proof fn fetch_page_cache_round_trip(
    route: FetchRoute,
    base: Seq<char>,
    id: Seq<char>,
    html: Seq<char>,
    r: ResponseView,
)
    requires
        fetch_listing(route, id, html) == Ok::<ResponseView, ReplyView>(r),
    ensures
        ({
            let key = fetch_key(route, id);
            let json = response_json(r);
            &&& fetch_page_next(route, StateView::Start(id), EventView::Begin) == (
                StateView::Looking(id, key),
                ActionView::CacheGet(key),
            )
            &&& fetch_page_next(route, StateView::Looking(id, key), EventView::Cached(None)).0
                == StateView::Locating(id, key)
            &&& fetch_page_next(route, StateView::Locating(id, key), EventView::Address(base)).0
                == StateView::Fetching(id, key)
            &&& fetch_page_next(route, StateView::Fetching(id, key), EventView::PageText(html)) == (
                StateView::Storing(ReplyView::Json(json)),
                ActionView::CacheSet(key, json),
            )
            &&& fetch_page_next(route, StateView::Storing(ReplyView::Json(json)), EventView::Stored)
                == (StateView::Done, ActionView::Finish(ReplyView::Json(json)))
            &&& fetch_page_next(route, StateView::Looking(id, key), EventView::CachedPage(Some(r)))
                == (StateView::Done, ActionView::Finish(ReplyView::Json(json)))
        }),
{
}

/// A gateway image is looked up under the key that it is stored under, and a
/// later request gets from the cache the very bytes that were first fetched
/// and served.
pub proof fn gateway_image_cache_round_trip(url: Seq<char>, bytes: Seq<u8>)
    ensures
        ({
            let key = "caoliu_"@ + url;
            let stored = base64_standard_encoding(bytes);
            &&& gateway_image_next(StateView::Query(Some(url)), EventView::Begin) == (
                StateView::Looking(url, key),
                ActionView::CacheGet(key),
            )
            &&& gateway_image_next(StateView::Looking(url, key), EventView::Cached(None)) == (
                StateView::Fetching(url, key),
                ActionView::FetchBytes(url),
            )
            &&& gateway_image_next(StateView::Fetching(url, key), EventView::PageBytes(bytes)) == (
                StateView::Storing(ReplyView::Image(bytes)),
                ActionView::CacheSet(key, base64_standard_encoding(bytes)),
            )
            &&& gateway_image_next(StateView::Storing(ReplyView::Image(bytes)), EventView::Stored)
                == (StateView::Done, ActionView::Finish(ReplyView::Image(bytes)))
            &&& gateway_image_next(StateView::Looking(url, key), EventView::Cached(Some(stored)))
                == (StateView::Done, ActionView::Finish(ReplyView::Image(bytes)))
        }),
{
    lemma_base64_round_trip(bytes);
}

/// An image-fetch image is looked up under the key that it is stored under,
/// and a later request gets from the cache the very bytes that were first
/// fetched and served.
pub proof fn fetch_image_cache_round_trip(url: Seq<char>, bytes: Seq<u8>)
    ensures
        ({
            let key = "caoliu_"@ + url;
            let stored = base64_standard_encoding(bytes);
            &&& fetch_image_next(StateView::Query(Some(url)), EventView::Begin) == (
                StateView::Connecting(Some(url)),
                ActionView::Connect,
            )
            &&& fetch_image_next(StateView::Connecting(Some(url)), EventView::Connected) == (
                StateView::Looking(url, key),
                ActionView::CacheGet(key),
            )
            &&& fetch_image_next(StateView::Looking(url, key), EventView::Cached(None)) == (
                StateView::Fetching(url, key),
                ActionView::FetchBytes(url),
            )
            &&& fetch_image_next(StateView::Fetching(url, key), EventView::PageBytes(bytes)) == (
                StateView::Storing(ReplyView::Image(bytes)),
                ActionView::CacheSet(key, base64_standard_encoding(bytes)),
            )
            &&& fetch_image_next(StateView::Storing(ReplyView::Image(bytes)), EventView::Stored) == (
                StateView::Done,
                ActionView::Finish(ReplyView::Image(bytes)),
            )
            &&& fetch_image_next(StateView::Looking(url, key), EventView::Cached(Some(stored))) == (
                StateView::Done,
                ActionView::Finish(ReplyView::Image(bytes)),
            )
        }),
{
    lemma_base64_round_trip(bytes);
}


/// Different pages, of one gateway route or of two, never share a cache key.
pub proof fn gateway_keys_distinct(r1: GatewayRoute, id1: Seq<char>, r2: GatewayRoute, id2: Seq<char>)
    requires
        gateway_key(r1, id1) == gateway_key(r2, id2),
    ensures
        r1 == r2,
        id1 == id2,
{
    reveal_strlit("caoliu_");
    reveal_strlit("hl_");
    reveal_strlit("mrds_");
    let k = gateway_key(r1, id1);
    assert(k[0] == gateway_key(r2, id2)[0]);
    let p1 = match r1 {
        GatewayRoute::Caoliu => "caoliu_"@,
        GatewayRoute::Hl => "hl_"@,
        GatewayRoute::Mrds => "mrds_"@,
    };
    assert(k[0] == p1[0]);
    assert(id1 =~= k.skip(p1.len() as int));
    assert(id2 =~= k.skip(p1.len() as int));
}

/// Different pages, of one image-fetch route or of two, never share a cache key.
pub proof fn fetch_keys_distinct(r1: FetchRoute, id1: Seq<char>, r2: FetchRoute, id2: Seq<char>)
    requires
        fetch_key(r1, id1) == fetch_key(r2, id2),
    ensures
        r1 == r2,
        id1 == id2,
{
    reveal_strlit("caoliu_");
    reveal_strlit("mrds_");
    let k = fetch_key(r1, id1);
    assert(k[0] == fetch_key(r2, id2)[0]);
    let p1 = match r1 {
        FetchRoute::Caoliu => "caoliu_"@,
        FetchRoute::Mrds => "mrds_"@,
    };
    assert(k[0] == p1[0]);
    assert(id1 =~= k.skip(p1.len() as int));
    assert(id2 =~= k.skip(p1.len() as int));
}

/// The site table built from the configuration has no `url` entry, so with it
/// the gateway's hl and mrds routes never answer a fetched page: they give up.
pub proof fn configured_table_has_no_player(
    heiliao: Seq<char>,
    meiridasai: Seq<char>,
    caoliu: Seq<char>,
    route: GatewayRoute,
    id: Seq<char>,
    html: Seq<char>,
)
    requires
        route != GatewayRoute::Caoliu,
    ensures
        gateway_listing(
            route,
            seq![("heiliao"@, heiliao), ("meiridasai"@, meiridasai), ("caoliu"@, caoliu)],
            id,
            html,
        ) is Err,
{
    reveal_strlit("url");
    reveal_strlit("heiliao");
    reveal_strlit("meiridasai");
    reveal_strlit("caoliu");
    let t = seq![("heiliao"@, heiliao), ("meiridasai"@, meiridasai), ("caoliu"@, caoliu)];
    assert(t.drop_last().drop_last().drop_last() =~= Seq::<(Seq<char>, Seq<char>)>::empty());
    assert(t.drop_last().drop_last() =~= seq![("heiliao"@, heiliao)]);
    assert(t.drop_last() =~= seq![("heiliao"@, heiliao), ("meiridasai"@, meiridasai)]);
    assert("url"@.len() != "heiliao"@.len());
    assert("url"@.len() != "meiridasai"@.len());
    assert("url"@.len() != "caoliu"@.len());
    assert(table_lookup(t.drop_last().drop_last().drop_last(), "url"@) is None);
    assert(table_lookup(t.drop_last().drop_last(), "url"@) is None);
    assert(table_lookup(t.drop_last(), "url"@) is None);
    assert(table_lookup(t, "url"@) is None);
}


/// An image request for url `u` looks up the same cache entry as a caoliu
/// page request for id `u`, on either server: the two routes share a key prefix.
pub proof fn caoliu_image_and_page_share_keys(u: Seq<char>)
    ensures
        gateway_image_next(StateView::Query(Some(u)), EventView::Begin).1 == ActionView::CacheGet(
            gateway_key(GatewayRoute::Caoliu, u),
        ),
        fetch_image_next(StateView::Connecting(Some(u)), EventView::Connected).1
            == ActionView::CacheGet(fetch_key(FetchRoute::Caoliu, u)),
{
}


/// A site table gives for a name the value of its first entry of that name,
/// and nothing when no entry has the name.
pub proof fn table_lookup_law(entries: Seq<(Seq<char>, Seq<char>)>, key: Seq<char>)
    ensures
        table_lookup(entries, key) is None <==> forall|i: int|
            0 <= i < entries.len() ==> entries[i].0 != key,
        table_lookup(entries, key) matches Some(v) ==> exists|i: int|
            0 <= i < entries.len() && entries[i] == (key, v) && forall|j: int|
                0 <= j < i ==> entries[j].0 != key,
    decreases entries.len(),
{
    if entries.len() > 0 {
        let front = entries.drop_last();
        table_lookup_law(front, key);
        if table_lookup(front, key) is None {
            assert forall|j: int| 0 <= j < front.len() implies entries[j].0 != key by {
                assert(front[j] == entries[j]);
            }
            if entries.last().0 == key {
                let i = entries.len() - 1;
                assert(entries[i] == (key, entries.last().1));
            }
        } else {
            let v = table_lookup(front, key)->Some_0;
            let i = choose|i: int|
                0 <= i < front.len() && front[i] == (key, v) && forall|j: int|
                    0 <= j < i ==> front[j].0 != key;
            assert(entries[i] == front[i]);
            assert forall|j: int| 0 <= j < i implies entries[j].0 != key by {
                assert(entries[j] == front[j]);
            }
            assert(entries[i].0 == key);
        }
    }
}

/// The gateway answers a fetched caoliu page as the caoliu rules say: it
/// answers exactly when the page has a title (and the image selector parses);
/// the answer has that title, the `ess-data` of every `#conttpc img` element
/// that has one, in order, and no videos.
pub proof fn gateway_caoliu_listing_law(
    table: Seq<(Seq<char>, Seq<char>)>,
    id: Seq<char>,
    html: Seq<char>,
)
    ensures
        gateway_listing(GatewayRoute::Caoliu, table, id, html) is Ok <==> (first_selected_text(
            html,
            "title"@,
        ) matches Some(Some(_)) && selected_attributes(html, "#conttpc img"@, "ess-data"@) is Some),
        gateway_listing(GatewayRoute::Caoliu, table, id, html) matches Ok(r) ==> {
            &&& first_selected_text(html, "title"@) == Some(Some(r.title))
            &&& selected_attributes(html, "#conttpc img"@, "ess-data"@) matches Some(vals)
            &&& r.images == vals.filter_map(|o: Option<Seq<char>>| o)
            &&& r.videos.len() == 0
        },
{
    gateway_caoliu_answer_law(html);
}

/// What the gateway's page routes look up and fetch: the cache key is the
/// route's prefix followed by the page id; on a miss, the page url is the
/// site's base url from the table followed by the route's path for the id
/// (with the `ismob=0` cookie for caoliu only).
pub proof fn gateway_requests_law(
    table: Seq<(Seq<char>, Seq<char>)>,
    id: Seq<char>,
    key: Seq<char>,
)
    ensures
        gateway_page_next(GatewayRoute::Caoliu, table, StateView::Start(id), EventView::Begin).1
            == ActionView::CacheGet("caoliu_"@ + id),
        gateway_page_next(GatewayRoute::Hl, table, StateView::Start(id), EventView::Begin).1
            == ActionView::CacheGet("hl_"@ + id),
        gateway_page_next(GatewayRoute::Mrds, table, StateView::Start(id), EventView::Begin).1
            == ActionView::CacheGet("mrds_"@ + id),
        table_lookup(table, "caoliu"@) matches Some(base) ==> gateway_page_next(
            GatewayRoute::Caoliu,
            table,
            StateView::Looking(id, key),
            EventView::Cached(None),
        ).1 == ActionView::FetchText(base + "/htm_data/"@ + id + ".html"@, true),
        table_lookup(table, "heiliao"@) matches Some(base) ==> gateway_page_next(
            GatewayRoute::Hl,
            table,
            StateView::Looking(id, key),
            EventView::Cached(None),
        ).1 == ActionView::FetchText(base + "//archives/"@ + id + "/"@, false),
        table_lookup(table, "meiridasai"@) matches Some(base) ==> gateway_page_next(
            GatewayRoute::Mrds,
            table,
            StateView::Looking(id, key),
            EventView::Cached(None),
        ).1 == ActionView::FetchText(base + "//archives/"@ + id + "/"@, false),
        gateway_image_next(StateView::Query(Some(id)), EventView::Begin).1 == ActionView::CacheGet(
            "caoliu_"@ + id,
        ),
{
}

/// What the image-fetch server's routes look up and fetch: the cache key is
/// the route's prefix followed by the page id (or image url); on a miss the
/// site's address is asked of the address service at the route's url, and the
/// page url is that address followed by the route's path for the id.
pub proof fn fetch_requests_law(id: Seq<char>, key: Seq<char>, base: Seq<char>)
    ensures
        fetch_page_next(FetchRoute::Caoliu, StateView::Start(id), EventView::Begin).1
            == ActionView::CacheGet("caoliu_"@ + id),
        fetch_page_next(FetchRoute::Mrds, StateView::Start(id), EventView::Begin).1
            == ActionView::CacheGet("mrds_"@ + id),
        fetch_page_next(FetchRoute::Caoliu, StateView::Looking(id, key), EventView::Cached(None)).1
            == ActionView::Locate("http://127.0.0.1:3000/chigua/caoliu"@),
        fetch_page_next(FetchRoute::Mrds, StateView::Looking(id, key), EventView::Cached(None)).1
            == ActionView::Locate("http://127.0.0.1:3000/chigua/mrds"@),
        fetch_page_next(FetchRoute::Caoliu, StateView::Locating(id, key), EventView::Address(base)).1
            == ActionView::FetchText(base + "/htm_data/"@ + id + ".html"@, true),
        fetch_page_next(FetchRoute::Mrds, StateView::Locating(id, key), EventView::Address(base)).1
            == ActionView::FetchText(base + "/archives/"@ + id + "/"@, false),
        fetch_image_next(StateView::Connecting(Some(id)), EventView::Connected).1
            == ActionView::CacheGet("caoliu_"@ + id),
{
}


/// The gateway answers a fetched hl or mrds page with no title, the page's
/// image urls, and one video url: the table's `url` entry followed by
/// `/hl/` and the page id; without a `url` entry it gives up.
pub proof fn gateway_player_listing_law(
    route: GatewayRoute,
    table: Seq<(Seq<char>, Seq<char>)>,
    id: Seq<char>,
    html: Seq<char>,
)
    requires
        route != GatewayRoute::Caoliu,
    ensures
        gateway_listing(route, table, id, html) matches Ok(r) ==> {
            &&& r.title.len() == 0
            &&& table_lookup(table, "url"@) matches Some(u)
            &&& r.videos == seq![u + "/hl/"@ + id]
            &&& route == GatewayRoute::Hl ==> gateway_hl_images(html) == Ok::<
                Seq<Seq<char>>,
                crate::model::Fault,
            >(r.images)
            &&& route == GatewayRoute::Mrds ==> gateway_mrds_images(html) == Ok::<
                Seq<Seq<char>>,
                crate::model::Fault,
            >(r.images)
        },
        table_lookup(table, "url"@) is None ==> gateway_listing(route, table, id, html) is Err,
{
}

/// The answers to failed requests, by server and route: the gateway answers
/// 500 `Internal Server Error` when a page cannot be requested and 400
/// `Failed to fetch data` on a failure status, and an image request whose
/// cached text is not base64 with 400 `Invalid base64 string`; the
/// image-fetch server answers each failure with 400 and the route's text, and
/// a cache failure with 500 and the error's text.
pub proof fn failure_answers_law(
    route: GatewayRoute,
    table: Seq<(Seq<char>, Seq<char>)>,
    id: Seq<char>,
    key: Seq<char>,
    message: Seq<char>,
    stored: Seq<char>,
)
    ensures
        gateway_page_next(route, table, StateView::Fetching(id, key), EventView::PageUnreachable).1
            == ActionView::Finish(ReplyView::Failure(500, "Internal Server Error"@)),
        gateway_page_next(route, table, StateView::Fetching(id, key), EventView::PageRefused).1
            == ActionView::Finish(ReplyView::Failure(400, "Failed to fetch data"@)),
        gateway_image_next(StateView::Fetching(id, key), EventView::PageUnreachable).1
            == ActionView::Finish(ReplyView::Failure(500, "Internal Server Error"@)),
        gateway_image_next(StateView::Fetching(id, key), EventView::PageRefused).1
            == ActionView::Finish(ReplyView::Failure(400, "Failed to fetch data"@)),
        (forall|b: Seq<u8>| base64_standard_encoding(b) != stored) ==> gateway_image_next(
            StateView::Looking(id, key),
            EventView::Cached(Some(stored)),
        ).1 == ActionView::Finish(ReplyView::Failure(400, "Invalid base64 string"@)),
        fetch_page_next(FetchRoute::Caoliu, StateView::Looking(id, key), EventView::CacheFailed(message)).1
            == ActionView::Finish(ReplyView::Failure(500, message)),
        fetch_page_next(FetchRoute::Caoliu, StateView::Locating(id, key), EventView::AddressUnreachable).1
            == ActionView::Finish(ReplyView::Failure(400, "获取草榴网地址失败"@)),
        fetch_page_next(FetchRoute::Caoliu, StateView::Locating(id, key), EventView::AddressUnreadable).1
            == ActionView::Finish(ReplyView::Failure(400, "获取草榴地址成功,但序列化失败"@)),
        fetch_page_next(FetchRoute::Caoliu, StateView::Fetching(id, key), EventView::PageUnreachable).1
            == ActionView::Finish(ReplyView::Failure(400, "请求草榴失败"@)),
        fetch_page_next(FetchRoute::Caoliu, StateView::Fetching(id, key), EventView::PageRefused).1
            == ActionView::Finish(ReplyView::Failure(400, "请求草榴失败"@)),
        fetch_page_next(FetchRoute::Mrds, StateView::Locating(id, key), EventView::AddressUnreachable).1
            == ActionView::Finish(ReplyView::Failure(400, "获取每日大赛网地址失败"@)),
        fetch_page_next(FetchRoute::Mrds, StateView::Locating(id, key), EventView::AddressUnreadable).1
            == ActionView::Finish(ReplyView::Failure(400, "获取每日大赛地址成功,但序列化失败"@)),
        fetch_page_next(FetchRoute::Mrds, StateView::Fetching(id, key), EventView::PageUnreachable).1
            == ActionView::Finish(ReplyView::Failure(400, "请求每日大赛失败2"@)),
        fetch_page_next(FetchRoute::Mrds, StateView::Fetching(id, key), EventView::PageRefused).1
            == ActionView::Finish(ReplyView::Failure(400, "请求每日大赛失败1"@)),
        fetch_image_next(StateView::Connecting(None), EventView::Connected).1
            == ActionView::Finish(ReplyView::Failure(400, "no caoliu image"@)),
        fetch_image_next(StateView::Looking(id, key), EventView::CacheFailed(message)).1
            == ActionView::Finish(ReplyView::Failure(500, message)),
        fetch_image_next(StateView::Fetching(id, key), EventView::PageUnreachable).1
            == ActionView::Finish(ReplyView::Failure(400, "获取草榴图片失败"@)),
        fetch_image_next(StateView::Fetching(id, key), EventView::PageRefused).1
            == ActionView::Finish(ReplyView::Failure(400, "获取草榴图片失败"@)),
        (forall|b: Seq<u8>| base64_standard_encoding(b) != stored) ==> fetch_image_next(
            StateView::Looking(id, key),
            EventView::Cached(Some(stored)),
        ).1 == ActionView::Finish(ReplyView::Failure(400, "解码草榴图片失败"@)),
{
}

} // verus!
