use chigua::model::{Fault, Reply, Response};
use chigua::scrape::{
    caoliu_video_urls, fetch_caoliu_listing, fetch_mrds_listing, gateway_caoliu_listing,
    gateway_hl_listing, gateway_mrds_listing,
};

fn strings(items: &[&str]) -> Vec<String> {
    items.iter().map(|s| s.to_string()).collect()
}

const CAOLIU_PAGE: &str = r#"<html><head><title>Page one</title></head><body>
<div id="conttpc"><img ess-data="https://i/1.jpg"><img src="plain.jpg"><img ess-data="https://i/2.jpg">
</div><img ess-data="outside.jpg"></body></html>"#;

#[test]
fn gateway_caoliu_reads_title_and_images() {
    assert_eq!(
        gateway_caoliu_listing(CAOLIU_PAGE),
        Ok(Response {
            title: "Page one".to_string(),
            images: strings(&["https://i/1.jpg", "https://i/2.jpg"]),
            videos: vec![],
        })
    );
}

#[test]
fn gateway_caoliu_without_title_gives_up() {
    assert_eq!(gateway_caoliu_listing("<p>no title</p>"), Err(Fault::NoTitle));
}

#[test]
fn gateway_hl_extracts_onload_urls() {
    let page = r#"<html><body><div class="client-only-placeholder">
<img onload="loadImg(this,'https://a/1.jpg')"><img onload="other()">
<img onload="x loadImg(this,'https://a/2.jpg') y"></div></body></html>"#;
    assert_eq!(
        gateway_hl_listing(page),
        Ok(strings(&[
            "http://10.144.144.100:9090?image=https://a/1.jpg",
            "http://10.144.144.100:9090?image=https://a/2.jpg",
        ]))
    );
}

#[test]
fn gateway_hl_missing_onload_gives_up() {
    let page = r#"<div class="client-only-placeholder"><img src="a.jpg"></div>"#;
    assert_eq!(gateway_hl_listing(page), Err(Fault::MissingAttribute));
}

#[test]
fn gateway_mrds_prefixes_images() {
    let page = r#"<div class="post-content"><img z-image-loader-url="https://m/1.png"></div>"#;
    assert_eq!(
        gateway_mrds_listing(page),
        Ok(strings(&["http://10.144.144.100:9090?image=https://m/1.png"]))
    );
    let bad = r#"<div class="post-content"><img src="x"></div>"#;
    assert_eq!(gateway_mrds_listing(bad), Err(Fault::MissingAttribute));
}

#[test]
fn fetch_caoliu_builds_player_url() {
    let page = r#"<html><head><title>T</title></head><body><div id="conttpc">
<img ess-data="i1"><video src="v1.mp4"></video><video src="v2.mp4"></video></div></body></html>"#;
    assert_eq!(
        fetch_caoliu_listing(page),
        Ok(Response {
            title: "T".to_string(),
            images: strings(&["i1"]),
            videos: strings(&["https://player.bomky.dpdns.org?items=v1.mp4%&%&v2.mp4"]),
        })
    );
}

#[test]
fn fetch_caoliu_without_videos() {
    let page = r#"<title>T</title><div id="conttpc"><img ess-data="i1"></div>"#;
    assert_eq!(
        fetch_caoliu_listing(page),
        Ok(Response { title: "T".to_string(), images: strings(&["i1"]), videos: vec![] })
    );
}

#[test]
fn fetch_caoliu_missing_image_attribute() {
    let page = r#"<title>T</title><div id="conttpc"><img src="i1"></div>"#;
    assert_eq!(
        fetch_caoliu_listing(page),
        Err(Reply::Failure(400, "草榴图片匹配规则以变化有,请更新规则".to_string()))
    );
}

#[test]
fn fetch_caoliu_missing_video_source() {
    let page = r#"<title>T</title><div id="conttpc"><video></video></div>"#;
    assert_eq!(
        fetch_caoliu_listing(page),
        Err(Reply::Failure(400, "请求草榴视频规则发生了变化".to_string()))
    );
}

#[test]
fn fetch_caoliu_without_title_gives_up() {
    assert_eq!(fetch_caoliu_listing("<p>x</p>"), Err(Reply::Abort(Fault::NoTitle)));
}

#[test]
fn fetch_mrds_prefixes_images_and_links_player() {
    let page = r#"<title>M</title><div class="post-content"><img data-xkrkllgl="https://m/a.webp"></div>"#;
    assert_eq!(
        fetch_mrds_listing(page, "88"),
        Ok(Response {
            title: "M".to_string(),
            images: strings(&["https://external.bomky.dpdns.org/images/?image=https://m/a.webp"]),
            videos: strings(&["https://player.bomky.dpdns.org/hl/88"]),
        })
    );
}

#[test]
fn fetch_mrds_missing_attribute() {
    let page = r#"<title>M</title><div class="post-content"><img src="a"></div>"#;
    assert_eq!(
        fetch_mrds_listing(page, "88"),
        Err(Reply::Failure(400, "每日大赛图片路径规则以变化,获取不到".to_string()))
    );
}

#[test]
fn video_list_trims_trailing_separators() {
    assert_eq!(
        caoliu_video_urls(&strings(&["a%&%&"])),
        strings(&["https://player.bomky.dpdns.org?items=a"])
    );
    assert_eq!(caoliu_video_urls(&vec![]), Vec::<String>::new());
}

use chigua::scrape::{
    fetch_caoliu_from, fetch_mrds_from, gateway_caoliu_from, gateway_hl_from, gateway_mrds_from,
    hl_image_url,
};

#[test]
fn assembled_gateway_caoliu() {
    let attrs = Some(vec![Some("a".to_string()), None, Some("b".to_string())]);
    assert_eq!(
        gateway_caoliu_from(Some(Some("T".to_string())), attrs.clone()),
        Ok(Response { title: "T".to_string(), images: strings(&["a", "b"]), videos: vec![] })
    );
    assert_eq!(gateway_caoliu_from(None, attrs.clone()), Err(Fault::BadSelector));
    assert_eq!(gateway_caoliu_from(Some(None), attrs), Err(Fault::NoTitle));
    assert_eq!(gateway_caoliu_from(Some(Some("T".to_string())), None), Err(Fault::BadSelector));
}

#[test]
fn heiliao_capture_outcomes() {
    assert_eq!(hl_image_url(None), Err(Fault::BadPattern));
    assert_eq!(hl_image_url(Some(None)), Ok(None));
    assert_eq!(hl_image_url(Some(Some(None))), Ok(None));
    assert_eq!(
        hl_image_url(Some(Some(Some("u".to_string())))),
        Ok(Some("http://10.144.144.100:9090?image=u".to_string()))
    );
}

#[test]
fn assembled_gateway_lists() {
    assert_eq!(gateway_hl_from(None), Err(Fault::BadSelector));
    assert_eq!(gateway_hl_from(Some(vec![None])), Err(Fault::MissingAttribute));
    assert_eq!(gateway_hl_from(Some(vec![])), Ok(vec![]));
    assert_eq!(gateway_mrds_from(None), Err(Fault::BadSelector));
    assert_eq!(gateway_mrds_from(Some(vec![Some("x".to_string()), None])), Err(Fault::MissingAttribute));
    assert_eq!(
        gateway_mrds_from(Some(vec![Some("x".to_string())])),
        Ok(strings(&["http://10.144.144.100:9090?image=x"]))
    );
}

#[test]
fn assembled_fetch_pages() {
    let title = Some(Some("T".to_string()));
    let imgs = Some(vec![Some("i".to_string())]);
    let vids = Some(vec![Some("v1".to_string()), Some("v2%&%&".to_string())]);
    assert_eq!(
        fetch_caoliu_from(title.clone(), imgs.clone(), vids),
        Ok(Response {
            title: "T".to_string(),
            images: strings(&["i"]),
            videos: strings(&["https://player.bomky.dpdns.org?items=v1%&%&v2"]),
        })
    );
    assert_eq!(
        fetch_caoliu_from(title.clone(), Some(vec![None]), None),
        Err(Reply::Failure(400, "草榴图片匹配规则以变化有,请更新规则".to_string()))
    );
    assert_eq!(fetch_caoliu_from(title.clone(), imgs.clone(), None), Err(Reply::Abort(Fault::BadSelector)));
    assert_eq!(
        fetch_mrds_from(title, imgs, "3"),
        Ok(Response {
            title: "T".to_string(),
            images: strings(&["https://external.bomky.dpdns.org/images/?image=i"]),
            videos: strings(&["https://player.bomky.dpdns.org/hl/3"]),
        })
    );
}
