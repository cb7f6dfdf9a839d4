//! The JSON text of a `Response`, written exactly as serde_json writes the
//! derived serialization of the struct: `{"title":..,"images":[..],"videos":[..]}`.

use vstd::prelude::*;
use crate::bindings::{json_quote, json_string_literal};
use crate::model::{Response, ResponseView};

verus! {

/// The texts separated by commas.
pub open spec fn comma_joined(items: Seq<Seq<char>>) -> Seq<char>
    decreases items.len(),
{
    if items.len() == 0 {
        Seq::empty()
    } else if items.len() == 1 {
        items[0]
    } else {
        comma_joined(items.drop_last()) + ","@ + items.last()
    }
}

/// The JSON object of a response from the JSON literals of its parts: fields
/// in declaration order, no spaces.
pub open spec fn framed_json(title: Seq<char>, images: Seq<Seq<char>>, videos: Seq<Seq<char>>) -> Seq<
    char,
> {
    "{\"title\":"@ + title + ",\"images\":["@ + comma_joined(images) + "],\"videos\":["@
        + comma_joined(videos) + "]}"@
}

/// Each text as a JSON string literal.
pub open spec fn json_literals(items: Seq<Seq<char>>) -> Seq<Seq<char>> {
    items.map_values(|t: Seq<char>| json_string_literal(t))
}

/// The JSON object of a response.
pub open spec fn response_json(r: ResponseView) -> Seq<char> {
    framed_json(json_string_literal(r.title), json_literals(r.images), json_literals(r.videos))
}

/// The texts separated by commas.
fn join_commas(items: &Vec<String>) -> (res: String)
    ensures
        res@ == comma_joined(items.deep_view()),
{
    let ghost all = items.deep_view();
    let mut out = String::new();
    let n = items.len();
    let mut i: usize = 0;
    while i < n
        invariant
            n == items@.len(),
            all == items.deep_view(),
            i <= n,
            out@ == comma_joined(all.take(i as int)),
        decreases n - i,
    {
        assert(all.take(i + 1).drop_last() =~= all.take(i as int));
        assert(all.take(i + 1).last() == items@[i as int]@);
        if i > 0 {
            out.append(",");
        } else {
            assert(all.take(1) =~= seq![items@[0]@]);
            assert(all.take(0) =~= Seq::<Seq<char>>::empty());
        }
        out.append(items[i].as_str());
        i = i + 1;
    }
    assert(all.take(n as int) =~= all);
    out
}

/// The JSON object of a response from the JSON literals of its parts.
pub fn frame_json(title: &str, images: &Vec<String>, videos: &Vec<String>) -> (res: String)
    ensures
        res@ == framed_json(title@, images.deep_view(), videos.deep_view()),
{
    let mut out = String::from_str("{\"title\":");
    out.append(title);
    out.append(",\"images\":[");
    let images = join_commas(images);
    out.append(images.as_str());
    out.append("],\"videos\":[");
    let videos = join_commas(videos);
    out.append(videos.as_str());
    out.append("]}");
    out
}

/// Each text as a JSON string literal.
fn quote_all(items: &Vec<String>) -> (res: Vec<String>)
    ensures
        res.deep_view() == json_literals(items.deep_view()),
{
    let ghost all = items.deep_view();
    let n = items.len();
    let mut out: Vec<String> = Vec::new();
    let mut i: usize = 0;
    while i < n
        invariant
            n == items@.len(),
            all == items.deep_view(),
            i <= n,
            out.deep_view() =~= json_literals(all.take(i as int)),
        decreases n - i,
    {
        let q = json_quote(items[i].as_str());
        let ghost before = out.deep_view();
        out.push(q);
        assert(out.deep_view() =~= before.push(json_string_literal(all[i as int])));
        assert(json_literals(all.take(i + 1)) =~= json_literals(all.take(i as int)).push(
            json_string_literal(all[i as int]),
        ));
        i = i + 1;
    }
    assert(all.take(n as int) =~= all);
    out
}

impl Response {
    /// The JSON text of this response.
    pub fn to_json(&self) -> (res: String)
        ensures
            res@ == response_json(self@),
    {
        let title = json_quote(self.title.as_str());
        let images = quote_all(&self.images);
        let videos = quote_all(&self.videos);
        frame_json(title.as_str(), &images, &videos)
    }
}


/// Joining puts a comma between each two neighbouring texts and nowhere else:
/// no texts join to nothing, one text to itself, and one more text adds a
/// comma and that text.
pub proof fn comma_joined_law(s: Seq<Seq<char>>, x: Seq<char>)
    ensures
        comma_joined(Seq::empty()) == Seq::<char>::empty(),
        comma_joined(seq![x]) == x,
        s.len() > 0 ==> comma_joined(s.push(x)) == comma_joined(s) + ","@ + x,
{
    assert(s.push(x).drop_last() =~= s);
}

/// The JSON text of a response: the object `{"title":T,"images":[I],"videos":[V]}`,
/// where T is the title's string literal and I and V are the string literals
/// of the images and of the videos, comma separated, in order.
pub proof fn response_json_law(r: ResponseView)
    ensures
        response_json(r) == "{\"title\":"@ + json_string_literal(r.title) + ",\"images\":["@
            + comma_joined(r.images.map_values(|t: Seq<char>| json_string_literal(t)))
            + "],\"videos\":["@ + comma_joined(
            r.videos.map_values(|t: Seq<char>| json_string_literal(t)),
        ) + "]}"@,
        json_literals(r.images).len() == r.images.len(),
        forall|i: int|
            0 <= i < r.images.len() ==> json_literals(r.images)[i] == json_string_literal(
                r.images[i],
            ),
{
}

} // verus!
