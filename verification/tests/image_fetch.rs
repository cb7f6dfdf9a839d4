use chigua::image_fetch::{caoliu, caoliu_image, internal_error, mrds};
use chigua::model::{Action, ChiGuaServer, Event, Fault, QueryInfo, Reply, Response, State};

const PAGE: &str = r#"<title>T</title><div id="conttpc"><img ess-data="i1"><video src="v"></video></div>"#;
const PAGE_JSON: &str =
    r#"{"title":"T","images":["i1"],"videos":["https://player.bomky.dpdns.org?items=v"]}"#;

fn address(url: &str) -> Event {
    Event::Address(ChiGuaServer { url: url.to_string() })
}

#[test]
fn internal_error_is_500() {
    assert_eq!(internal_error("pool timed out".to_string()), (500, "pool timed out".to_string()));
}

#[test]
fn fetch_caoliu_full_flow() {
    let (s, a) = caoliu(State::Start("16/1".to_string()), Event::Begin);
    assert_eq!(a, Action::CacheGet("caoliu_16/1".to_string()));
    let (s, a) = caoliu(s, Event::Cached(None));
    assert_eq!(a, Action::Locate("http://127.0.0.1:3000/chigua/caoliu".to_string()));
    let (s, a) = caoliu(s, address("https://cl.example"));
    assert_eq!(a, Action::FetchText("https://cl.example/htm_data/16/1.html".to_string(), true));
    let (s, a) = caoliu(s, Event::PageText(PAGE.to_string()));
    assert_eq!(a, Action::CacheSet("caoliu_16/1".to_string(), PAGE_JSON.to_string()));
    let (s, a) = caoliu(s, Event::Stored);
    assert_eq!(a, Action::Finish(Reply::Json(PAGE_JSON.to_string())));
    assert_eq!(s, State::Done);
}

#[test]
fn fetch_caoliu_cache_hit() {
    let stored = Response {
        title: "T".to_string(),
        images: vec!["i1".to_string()],
        videos: vec!["https://player.bomky.dpdns.org?items=v".to_string()],
    };
    let (s, _) = caoliu(State::Start("1".to_string()), Event::Begin);
    let (_, a) = caoliu(s, Event::CachedPage(Some(stored)));
    assert_eq!(a, Action::Finish(Reply::Json(PAGE_JSON.to_string())));
    let (s, _) = caoliu(State::Start("1".to_string()), Event::Begin);
    let (_, a) = caoliu(s, Event::CachedPage(None));
    assert_eq!(a, Action::Finish(Reply::Abort(Fault::CorruptCacheEntry)));
}

#[test]
fn fetch_second_answer_equals_first() {
    let (s, _) = mrds(State::Start("5".to_string()), Event::Begin);
    let (s, _) = mrds(s, Event::Cached(None));
    let (s, _) = mrds(s, address("https://m.example"));
    let page = r#"<title>M</title><div class="post-content"><img data-xkrkllgl="x"></div>"#;
    let (s, stored) = mrds(s, Event::PageText(page.to_string()));
    let (_, first) = mrds(s, Event::Stored);
    let json = match stored {
        Action::CacheSet(_, json) => json,
        other => panic!("expected a cache write, got {:?}", other),
    };
    let read_back: serde_json::Value = serde_json::from_str(&json).unwrap();
    let entry = Response {
        title: read_back["title"].as_str().unwrap().to_string(),
        images: read_back["images"].as_array().unwrap().iter().map(|v| v.as_str().unwrap().to_string()).collect(),
        videos: read_back["videos"].as_array().unwrap().iter().map(|v| v.as_str().unwrap().to_string()).collect(),
    };
    let (s, _) = mrds(State::Start("5".to_string()), Event::Begin);
    let (_, second) = mrds(s, Event::CachedPage(Some(entry)));
    assert_eq!(first, second);
}

#[test]
fn fetch_cache_failure_is_500() {
    let (s, _) = mrds(State::Start("1".to_string()), Event::Begin);
    let (_, a) = mrds(s, Event::CacheFailed("connection refused".to_string()));
    assert_eq!(a, Action::Finish(Reply::Failure(500, "connection refused".to_string())));
}

#[test]
fn fetch_address_failures() {
    let locating = State::Locating("1".to_string(), "mrds_1".to_string());
    let (_, a) = mrds(locating.clone(), Event::AddressUnreachable);
    assert_eq!(a, Action::Finish(Reply::Failure(400, "获取每日大赛网地址失败".to_string())));
    let (_, a) = mrds(locating, Event::AddressUnreadable);
    assert_eq!(a, Action::Finish(Reply::Failure(400, "获取每日大赛地址成功,但序列化失败".to_string())));
    let locating = State::Locating("1".to_string(), "caoliu_1".to_string());
    let (_, a) = caoliu(locating.clone(), Event::AddressUnreachable);
    assert_eq!(a, Action::Finish(Reply::Failure(400, "获取草榴网地址失败".to_string())));
    let (_, a) = caoliu(locating, Event::AddressUnreadable);
    assert_eq!(a, Action::Finish(Reply::Failure(400, "获取草榴地址成功,但序列化失败".to_string())));
}

#[test]
fn fetch_mrds_page_requests() {
    let (s, a) = mrds(State::Start("5".to_string()), Event::Begin);
    assert_eq!(a, Action::CacheGet("mrds_5".to_string()));
    let (s, a) = mrds(s, Event::Cached(None));
    assert_eq!(a, Action::Locate("http://127.0.0.1:3000/chigua/mrds".to_string()));
    let (s, a) = mrds(s, address("https://m.example"));
    assert_eq!(a, Action::FetchText("https://m.example/archives/5/".to_string(), false));
    let (_, a) = mrds(s.clone(), Event::PageRefused);
    assert_eq!(a, Action::Finish(Reply::Failure(400, "请求每日大赛失败1".to_string())));
    let (_, a) = mrds(s, Event::PageUnreachable);
    assert_eq!(a, Action::Finish(Reply::Failure(400, "请求每日大赛失败2".to_string())));
}

#[test]
fn fetch_caoliu_page_failures() {
    let fetching = State::Fetching("1".to_string(), "caoliu_1".to_string());
    let (_, a) = caoliu(fetching.clone(), Event::PageRefused);
    assert_eq!(a, Action::Finish(Reply::Failure(400, "请求草榴失败".to_string())));
    let (_, a) = caoliu(fetching.clone(), Event::PageText("<title>T</title><div id=\"conttpc\"><img></div>".to_string()));
    assert_eq!(a, Action::Finish(Reply::Failure(400, "草榴图片匹配规则以变化有,请更新规则".to_string())));
    let (_, a) = caoliu(fetching, Event::PageText("<p></p>".to_string()));
    assert_eq!(a, Action::Finish(Reply::Abort(Fault::NoTitle)));
}

#[test]
fn fetch_store_failure_gives_up() {
    let storing = State::Storing(Reply::Json("{}".to_string()));
    let (_, a) = caoliu(storing, Event::StoreFailed);
    assert_eq!(a, Action::Finish(Reply::Abort(Fault::StoreFailed)));
}

#[test]
fn fetch_image_without_url() {
    let (s, a) = caoliu_image(State::Query(QueryInfo { image: None }), Event::Begin);
    assert_eq!(a, Action::Connect);
    let (_, a) = caoliu_image(s, Event::Connected);
    assert_eq!(a, Action::Finish(Reply::Failure(400, "no caoliu image".to_string())));
}

#[test]
fn fetch_image_round_trip() {
    let url = "https://img.example/b.jpg".to_string();
    let bytes = b"hello".to_vec();
    let (s, _) = caoliu_image(State::Query(QueryInfo { image: Some(url.clone()) }), Event::Begin);
    let (s, a) = caoliu_image(s, Event::Connected);
    assert_eq!(a, Action::CacheGet(format!("caoliu_{}", url)));
    let (s, a) = caoliu_image(s, Event::Cached(None));
    assert_eq!(a, Action::FetchBytes(url.clone()));
    let (s, a) = caoliu_image(s, Event::PageBytes(bytes.clone()));
    assert_eq!(a, Action::CacheSet(format!("caoliu_{}", url), "aGVsbG8=".to_string()));
    let (_, a) = caoliu_image(s, Event::Stored);
    assert_eq!(a, Action::Finish(Reply::Image(bytes.clone())));
    let looking = State::Looking(url.clone(), format!("caoliu_{}", url));
    let (_, a) = caoliu_image(looking.clone(), Event::Cached(Some("aGVsbG8=".to_string())));
    assert_eq!(a, Action::Finish(Reply::Image(bytes)));
    let (_, a) = caoliu_image(looking.clone(), Event::Cached(Some("aGVsbG8".to_string())));
    assert_eq!(a, Action::Finish(Reply::Failure(400, "解码草榴图片失败".to_string())));
    let (_, a) = caoliu_image(looking, Event::CacheFailed("down".to_string()));
    assert_eq!(a, Action::Finish(Reply::Failure(500, "down".to_string())));
}

#[test]
fn fetch_image_fetch_failures() {
    let fetching = State::Fetching("u".to_string(), "caoliu_u".to_string());
    let (_, a) = caoliu_image(fetching.clone(), Event::PageRefused);
    assert_eq!(a, Action::Finish(Reply::Failure(400, "获取草榴图片失败".to_string())));
    let (_, a) = caoliu_image(fetching, Event::PageUnreachable);
    assert_eq!(a, Action::Finish(Reply::Failure(400, "获取草榴图片失败".to_string())));
}

#[test]
fn fetch_cached_image_answers() {
    assert_eq!(chigua::image_fetch::cached_image(Some(vec![9])), Reply::Image(vec![9]));
    assert_eq!(chigua::image_fetch::cached_image(None), Reply::Failure(400, "解码草榴图片失败".to_string()));
}
