use chigua::gateway::{caoliu, caoliu_image, hl, mrds, SiteTable};
use chigua::model::{Action, Event, Fault, InnerConfig, QueryInfo, Reply, State};

fn table() -> SiteTable {
    SiteTable::from_config(&InnerConfig {
        heiliao: "https://hl.example".to_string(),
        meiridasai: "https://mrds.example".to_string(),
        caoliu: "https://cl.example".to_string(),
    })
}

const PAGE: &str = r#"<title>T</title><div id="conttpc"><img ess-data="i1"></div>"#;
const PAGE_JSON: &str = r#"{"title":"T","images":["i1"],"videos":[]}"#;

#[test]
fn site_table_from_config() {
    let t = table();
    assert_eq!(t.lookup("caoliu"), Some("https://cl.example".to_string()));
    assert_eq!(t.lookup("heiliao"), Some("https://hl.example".to_string()));
    assert_eq!(t.lookup("meiridasai"), Some("https://mrds.example".to_string()));
    assert_eq!(t.lookup("url"), None);
}

#[test]
fn gateway_caoliu_serves_cache_hit() {
    let t = table();
    let (s, a) = caoliu(&t, State::Start("42".to_string()), Event::Begin);
    assert_eq!(a, Action::CacheGet("caoliu_42".to_string()));
    let (s, a) = caoliu(&t, s, Event::Cached(Some("cached".to_string())));
    assert_eq!(a, Action::Finish(Reply::Json("cached".to_string())));
    assert_eq!(s, State::Done);
}

#[test]
fn gateway_caoliu_miss_fetches_and_stores() {
    let t = table();
    let (s, _) = caoliu(&t, State::Start("42".to_string()), Event::Begin);
    let (s, a) = caoliu(&t, s, Event::Cached(None));
    assert_eq!(a, Action::FetchText("https://cl.example/htm_data/42.html".to_string(), true));
    let (s, a) = caoliu(&t, s, Event::PageText(PAGE.to_string()));
    assert_eq!(a, Action::CacheSet("caoliu_42".to_string(), PAGE_JSON.to_string()));
    let (s, a) = caoliu(&t, s, Event::Stored);
    assert_eq!(a, Action::Finish(Reply::Json(PAGE_JSON.to_string())));
    assert_eq!(s, State::Done);
}

#[test]
fn gateway_page_failures() {
    let t = table();
    let fetching = State::Fetching("1".to_string(), "caoliu_1".to_string());
    let (_, a) = caoliu(&t, fetching.clone(), Event::PageRefused);
    assert_eq!(a, Action::Finish(Reply::Failure(400, "Failed to fetch data".to_string())));
    let (_, a) = caoliu(&t, fetching.clone(), Event::PageUnreachable);
    assert_eq!(a, Action::Finish(Reply::Failure(500, "Internal Server Error".to_string())));
    let (_, a) = caoliu(&t, fetching, Event::BodyUnreadable);
    assert_eq!(a, Action::Finish(Reply::Abort(Fault::UnreadableBody)));
}

#[test]
fn gateway_caoliu_without_site_gives_up() {
    let empty = SiteTable { entries: vec![] };
    let looking = State::Looking("1".to_string(), "caoliu_1".to_string());
    let (_, a) = caoliu(&empty, looking, Event::Cached(None));
    assert_eq!(a, Action::Finish(Reply::Abort(Fault::MissingConfig)));
}

#[test]
fn gateway_hl_gives_up_without_player_entry() {
    let t = table();
    let (s, a) = hl(&t, State::Start("9".to_string()), Event::Begin);
    assert_eq!(a, Action::CacheGet("hl_9".to_string()));
    let (s, a) = hl(&t, s, Event::Cached(None));
    assert_eq!(a, Action::FetchText("https://hl.example//archives/9/".to_string(), false));
    let (_, a) = hl(&t, s, Event::PageText("<p></p>".to_string()));
    assert_eq!(a, Action::Finish(Reply::Abort(Fault::MissingConfig)));
}

#[test]
fn gateway_hl_with_player_entry() {
    let mut t = table();
    t.entries.push(("url".to_string(), "https://player.example".to_string()));
    let page = r#"<div class="client-only-placeholder"><img onload="loadImg(this,'https://a/1.jpg')"></div>"#;
    let fetching = State::Fetching("9".to_string(), "hl_9".to_string());
    let (_, a) = hl(&t, fetching, Event::PageText(page.to_string()));
    let json = r#"{"title":"","images":["http://10.144.144.100:9090?image=https://a/1.jpg"],"videos":["https://player.example/hl/9"]}"#;
    assert_eq!(a, Action::CacheSet("hl_9".to_string(), json.to_string()));
}

#[test]
fn gateway_mrds_requests_archive_page() {
    let t = table();
    let (s, a) = mrds(&t, State::Start("7".to_string()), Event::Begin);
    assert_eq!(a, Action::CacheGet("mrds_7".to_string()));
    let (_, a) = mrds(&t, s, Event::Cached(None));
    assert_eq!(a, Action::FetchText("https://mrds.example//archives/7/".to_string(), false));
}

#[test]
fn gateway_image_round_trip() {
    let url = "https://img.example/a.png".to_string();
    let query = QueryInfo { image: Some(url.clone()) };
    let (s, a) = caoliu_image(State::Query(query.clone()), Event::Begin);
    assert_eq!(a, Action::CacheGet(format!("caoliu_{}", url)));
    let (s, a) = caoliu_image(s, Event::Cached(None));
    assert_eq!(a, Action::FetchBytes(url.clone()));
    let (s, a) = caoliu_image(s, Event::PageBytes(vec![1, 2, 3]));
    assert_eq!(a, Action::CacheSet(format!("caoliu_{}", url), "AQID".to_string()));
    let (_, a) = caoliu_image(s, Event::Stored);
    assert_eq!(a, Action::Finish(Reply::Image(vec![1, 2, 3])));
    let (s, _) = caoliu_image(State::Query(query), Event::Begin);
    let (_, a) = caoliu_image(s, Event::Cached(Some("AQID".to_string())));
    assert_eq!(a, Action::Finish(Reply::Image(vec![1, 2, 3])));
}

#[test]
fn gateway_image_bad_base64() {
    let looking = State::Looking("u".to_string(), "caoliu_u".to_string());
    let (_, a) = caoliu_image(looking, Event::Cached(Some("@@@".to_string())));
    assert_eq!(a, Action::Finish(Reply::Failure(400, "Invalid base64 string".to_string())));
}

#[test]
fn gateway_image_without_url_gives_up() {
    let (s, a) = caoliu_image(State::Query(QueryInfo { image: None }), Event::Begin);
    assert_eq!(a, Action::Finish(Reply::Abort(Fault::MissingImageQuery)));
    assert_eq!(s, State::Done);
}

#[test]
fn gateway_unexpected_event_gives_up() {
    let t = table();
    let (s, a) = caoliu(&t, State::Start("1".to_string()), Event::Stored);
    assert_eq!(a, Action::Finish(Reply::Abort(Fault::UnexpectedEvent)));
    assert_eq!(s, State::Done);
    let (_, a) = caoliu_image(State::Done, Event::Begin);
    assert_eq!(a, Action::Finish(Reply::Abort(Fault::UnexpectedEvent)));
}

#[test]
fn cached_image_answers() {
    assert_eq!(chigua::gateway::cached_image(Some(vec![9])), Reply::Image(vec![9]));
    assert_eq!(chigua::gateway::cached_image(None), Reply::Failure(400, "Invalid base64 string".to_string()));
}

#[test]
fn gateway_image_rejects_non_canonical_base64() {
    for text in ["QR==", "QQ", "AQID=", " AQID"] {
        let looking = State::Looking("u".to_string(), "caoliu_u".to_string());
        let (_, a) = caoliu_image(looking, Event::Cached(Some(text.to_string())));
        assert_eq!(a, Action::Finish(Reply::Failure(400, "Invalid base64 string".to_string())));
    }
    let looking = State::Looking("u".to_string(), "caoliu_u".to_string());
    let (_, a) = caoliu_image(looking, Event::Cached(Some(String::new())));
    assert_eq!(a, Action::Finish(Reply::Image(vec![])));
}
