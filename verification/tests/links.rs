use chigua::links::{read_external, read_json, read_player, LinksError};

const LINKS: &str = r#"[
    {"name": "dplayer", "hostname": "player.example"},
    {"name": "external", "hostname": "external.example", "port": 80}
]"#;

#[test]
fn read_external_finds_hostname() {
    assert_eq!(read_external(LINKS), Ok(Some("external.example".to_string())));
}

#[test]
fn read_player_finds_hostname() {
    assert_eq!(read_player(LINKS), Ok(Some("player.example".to_string())));
}

#[test]
fn unknown_name_has_no_hostname() {
    assert_eq!(read_json(LINKS, "other"), Ok(None));
}

#[test]
fn first_named_object_decides() {
    let text = r#"[{"name":"external","hostname":5},{"name":"external","hostname":"later"}]"#;
    assert_eq!(read_external(text), Ok(None));
}

#[test]
fn elements_that_are_not_objects_are_skipped() {
    let text = r#"[1, "external", {"name": 7}, {"name":"external","hostname":"h"}]"#;
    assert_eq!(read_external(text), Ok(Some("h".to_string())));
}

#[test]
fn top_level_object_has_no_hostname() {
    assert_eq!(read_external(r#"{"name":"external","hostname":"h"}"#), Ok(None));
}

#[test]
fn invalid_json_is_an_error() {
    assert_eq!(read_external("not json"), Err(LinksError::Unparseable));
}

#[test]
fn hostname_in_read_list() {
    let fields = vec![("name".to_string(), Some("external".to_string())), ("hostname".to_string(), Some("h".to_string()))];
    assert_eq!(chigua::links::hostname_in(Some(Some(vec![None, Some(fields)])), "external"), Ok(Some("h".to_string())));
    assert_eq!(chigua::links::hostname_in(Some(None), "external"), Ok(None));
    assert_eq!(chigua::links::hostname_in(None, "external"), Err(LinksError::Unparseable));
}
