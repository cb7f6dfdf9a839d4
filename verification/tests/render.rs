use chigua::model::Response;

fn response(title: &str, images: &[&str], videos: &[&str]) -> Response {
    Response {
        title: title.to_string(),
        images: images.iter().map(|s| s.to_string()).collect(),
        videos: videos.iter().map(|s| s.to_string()).collect(),
    }
}

#[test]
fn response_json_layout() {
    let r = response("T", &["a", "b"], &[]);
    assert_eq!(r.to_json(), r#"{"title":"T","images":["a","b"],"videos":[]}"#);
}

#[test]
fn response_json_single_video() {
    let r = response("", &[], &["https://v/1"]);
    assert_eq!(r.to_json(), r#"{"title":"","images":[],"videos":["https://v/1"]}"#);
}

#[test]
fn response_json_escapes_text() {
    let r = response("say \"hi\"\n", &["a\\b"], &[]);
    assert_eq!(r.to_json(), "{\"title\":\"say \\\"hi\\\"\\n\",\"images\":[\"a\\\\b\"],\"videos\":[]}");
}

#[test]
fn response_json_reads_back_with_serde() {
    let r = response("标题 \"x\"", &["u1", "u2"], &["v"]);
    let value: serde_json::Value = serde_json::from_str(&r.to_json()).unwrap();
    assert_eq!(value["title"], "标题 \"x\"");
    assert_eq!(value["images"][1], "u2");
    assert_eq!(value["videos"][0], "v");
}

#[test]
fn frame_json_places_literals() {
    let images = vec!["\"a\"".to_string(), "\"b\"".to_string()];
    assert_eq!(
        chigua::render::frame_json("\"T\"", &images, &vec![]),
        r#"{"title":"T","images":["a","b"],"videos":[]}"#
    );
}
