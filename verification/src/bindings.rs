//! The calls this library makes into outside crates (scraper, regex, base64,
//! serde_json). Each function here is trusted: Verus believes its contract
//! and does not read its body. Results that a few lines can state are stated;
//! those that would take pages are given a name, which depends on the
//! arguments alone.

use vstd::prelude::*;

verus! {

/// The fields of one JSON object: each key with its value when that value is
/// a JSON string, `None` for any other kind of value.
pub type JsonFields = Vec<(String, Option<String>)>;

/// For an HTML document, a CSS selector group and an attribute name: `None` when
/// the selector does not parse; otherwise, for each element that the selector
/// matches, in document order, the attribute's value if the element has it.
pub uninterp spec fn selected_attributes(
    html: Seq<char>,
    selector: Seq<char>,
    attribute: Seq<char>,
) -> Option<Seq<Option<Seq<char>>>>;

/// For an HTML document and a CSS selector group: `None` when the selector does
/// not parse; otherwise the text of the first matching element (all its
/// descendant text nodes, concatenated), or `None` when nothing matches.
pub uninterp spec fn first_selected_text(html: Seq<char>, selector: Seq<char>) -> Option<
    Option<Seq<char>>,
>;

/// For a regular expression, a text and a group index: `None` when the expression
/// does not compile; `Some(None)` when it does not match the text; otherwise, for
/// the leftmost-first match, the text of the group when it took part in the match.
pub uninterp spec fn regex_capture(pattern: Seq<char>, text: Seq<char>, group: usize) -> Option<
    Option<Option<Seq<char>>>,
>;

/// The character of the standard base64 alphabet for a 6-bit value.
pub open spec fn base64_char(v: int) -> char {
    if v < 26 {
        (65 + v) as char
    } else if v < 52 {
        (97 + (v - 26)) as char
    } else if v < 62 {
        (48 + (v - 52)) as char
    } else if v == 62 {
        '+'
    } else {
        '/'
    }
}

/// The standard (RFC 4648, padded) base64 text of some bytes: each group of
/// three bytes becomes four characters; a last group of one or two bytes is
/// padded with `=` to four.
pub open spec fn base64_standard_encoding(bytes: Seq<u8>) -> Seq<char>
    decreases bytes.len(),
{
    if bytes.len() == 0 {
        Seq::empty()
    } else {
        let b0 = bytes[0] as int;
        let b1 = if bytes.len() > 1 { bytes[1] as int } else { 0 };
        let b2 = if bytes.len() > 2 { bytes[2] as int } else { 0 };
        let c2 = if bytes.len() > 1 { base64_char((b1 % 16) * 4 + b2 / 64) } else { '=' };
        let c3 = if bytes.len() > 2 { base64_char(b2 % 64) } else { '=' };
        let rest = if bytes.len() > 3 {
            base64_standard_encoding(bytes.skip(3))
        } else {
            Seq::empty()
        };
        seq![base64_char(b0 / 4), base64_char((b0 % 4) * 16 + b1 / 16), c2, c3] + rest
    }
}

/// The bytes that a text decodes to under standard padded base64: the bytes
/// whose encoding is the text (there is at most one such), or `None` when
/// the text is no encoding at all.
pub open spec fn base64_standard_decoding(text: Seq<char>) -> Option<Seq<u8>> {
    if exists|b: Seq<u8>| base64_standard_encoding(b) == text {
        Some(choose|b: Seq<u8>| base64_standard_encoding(b) == text)
    } else {
        None
    }
}

/// Different 6-bit values have different characters, none of them `=`.
proof fn lemma_base64_char(v: int, w: int)
    requires
        0 <= v < 64,
        0 <= w < 64,
    ensures
        base64_char(v) != '=',
        base64_char(v) == base64_char(w) ==> v == w,
{
}

/// The encoding of some bytes is empty exactly when there are none, and
/// longer than four characters exactly when there are more than three.
proof fn lemma_base64_length(b: Seq<u8>)
    ensures
        (base64_standard_encoding(b).len() == 0) == (b.len() == 0),
        (base64_standard_encoding(b).len() > 4) == (b.len() > 3),
        b.len() > 0 ==> base64_standard_encoding(b).len() >= 4,
    decreases b.len(),
{
    if b.len() > 3 {
        lemma_base64_length(b.skip(3));
    }
}

/// Different bytes have different encodings.
pub proof fn lemma_base64_encoding_injective(b1: Seq<u8>, b2: Seq<u8>)
    requires
        base64_standard_encoding(b1) == base64_standard_encoding(b2),
    ensures
        b1 == b2,
    decreases b1.len(),
{
    let e = base64_standard_encoding(b1);
    lemma_base64_length(b1);
    lemma_base64_length(b2);
    if b1.len() > 0 {
        let x0 = b1[0] as int;
        let y0 = b2[0] as int;
        let x1 = if b1.len() > 1 { b1[1] as int } else { 0 };
        let y1 = if b2.len() > 1 { b2[1] as int } else { 0 };
        let x2 = if b1.len() > 2 { b1[2] as int } else { 0 };
        let y2 = if b2.len() > 2 { b2[2] as int } else { 0 };
        lemma_base64_char(x0 / 4, y0 / 4);
        lemma_base64_char((x0 % 4) * 16 + x1 / 16, (y0 % 4) * 16 + y1 / 16);
        lemma_base64_char((x1 % 16) * 4 + x2 / 64, (y1 % 16) * 4 + y2 / 64);
        lemma_base64_char(x2 % 64, y2 % 64);
        lemma_base64_char((x1 % 16) * 4 + x2 / 64, 0);
        lemma_base64_char(x2 % 64, 0);
        lemma_base64_char((y1 % 16) * 4 + y2 / 64, 0);
        lemma_base64_char(y2 % 64, 0);
        assert(e[0] == base64_char(x0 / 4));
        assert(e[1] == base64_char((x0 % 4) * 16 + x1 / 16));
        assert(base64_standard_encoding(b2)[0] == base64_char(y0 / 4));
        assert(base64_standard_encoding(b2)[1] == base64_char((y0 % 4) * 16 + y1 / 16));
        assert(x0 == y0);
        assert(x1 / 16 == y1 / 16);
        assert(b1.len() > 1 <==> b2.len() > 1) by {
            assert(e[2] == base64_standard_encoding(b2)[2]);
        }
        assert(b1.len() > 2 <==> b2.len() > 2) by {
            assert(e[3] == base64_standard_encoding(b2)[3]);
        }
        if b1.len() > 1 {
            assert(e[2] == base64_standard_encoding(b2)[2]);
            assert(x1 % 16 == y1 % 16);
            assert(x1 == y1);
        }
        if b1.len() > 2 {
            assert(e[3] == base64_standard_encoding(b2)[3]);
            assert(x2 % 64 == y2 % 64);
            assert(x2 / 64 == y2 / 64);
            assert(x2 == y2);
        }
        if b1.len() > 3 {
            let r1 = base64_standard_encoding(b1.skip(3));
            let r2 = base64_standard_encoding(b2.skip(3));
            assert(r1 =~= e.skip(4));
            assert(r2 =~= base64_standard_encoding(b2).skip(4));
            lemma_base64_encoding_injective(b1.skip(3), b2.skip(3));
            assert(b1 =~= b1.take(3) + b1.skip(3));
            assert(b2 =~= b2.take(3) + b2.skip(3));
            assert(b1.take(3) =~= b2.take(3));
        } else {
            assert(b1 =~= b2);
        }
    } else {
        assert(b1 =~= b2);
    }
}

/// An outcome that is `Some(b)` exactly for the bytes `b` encoded as the
/// text is the decoding of the text.
pub proof fn lemma_base64_decoding_is(res: Option<Seq<u8>>, text: Seq<char>)
    requires
        forall|b: Seq<u8>| res == Some(b) <==> base64_standard_encoding(b) == text,
    ensures
        res == base64_standard_decoding(text),
{
    if exists|b: Seq<u8>| base64_standard_encoding(b) == text {
        let c = choose|b: Seq<u8>| base64_standard_encoding(b) == text;
        assert(res == Some(c));
    } else {
        if let Some(b) = res {
            assert(base64_standard_encoding(b) == text);
        }
    }
}

/// Decoding the encoding of some bytes gives those bytes back.
pub proof fn lemma_base64_round_trip(b: Seq<u8>)
    ensures
        base64_standard_decoding(base64_standard_encoding(b)) == Some(b),
{
    let t = base64_standard_encoding(b);
    assert(exists|x: Seq<u8>| base64_standard_encoding(x) == t);
    let c = choose|x: Seq<u8>| base64_standard_encoding(x) == t;
    lemma_base64_encoding_injective(c, b);
}

/// A lower-case hexadecimal digit.
pub open spec fn hex_digit(v: int) -> char {
    if v < 10 {
        (48 + v) as char
    } else {
        (97 + (v - 10)) as char
    }
}

/// How serde_json writes one character inside a JSON string: `"` and `\\`
/// and the control characters escaped (the usual short forms, else `\u00xx`),
/// every other character as it is.
pub open spec fn json_escaped_char(c: char) -> Seq<char> {
    if c == '"' {
        seq!['\\', '"']
    } else if c == '\\' {
        seq!['\\', '\\']
    } else if c == '\u{8}' {
        seq!['\\', 'b']
    } else if c == '\u{c}' {
        seq!['\\', 'f']
    } else if c == '\n' {
        seq!['\\', 'n']
    } else if c == '\r' {
        seq!['\\', 'r']
    } else if c == '\t' {
        seq!['\\', 't']
    } else if (c as int) < 32 {
        seq!['\\', 'u', '0', '0', hex_digit((c as int) / 16), hex_digit((c as int) % 16)]
    } else {
        seq![c]
    }
}

/// The characters of a text, each as serde_json writes it inside a string.
pub open spec fn json_escaped(text: Seq<char>) -> Seq<char>
    decreases text.len(),
{
    if text.len() == 0 {
        Seq::empty()
    } else {
        json_escaped(text.drop_last()) + json_escaped_char(text.last())
    }
}

/// A text written as a JSON string literal, as serde_json writes it: in
/// quotes, each character escaped as `json_escaped_char` says.
pub open spec fn json_string_literal(text: Seq<char>) -> Seq<char> {
    seq!['"'] + json_escaped(text) + seq!['"']
}

/// A text read as JSON: `None` when it is not valid JSON; `Some(None)` when
/// its top-level value is not an array; otherwise, for each array element in
/// order, its fields when it is an object (see `JsonFields`), `None` when not.
pub uninterp spec fn json_object_list(text: Seq<char>) -> Option<
    Option<Seq<Option<Seq<(Seq<char>, Option<Seq<char>>)>>>>,
>;

/// Bytes held in an optional vector.
pub open spec fn optional_bytes(v: Option<Vec<u8>>) -> Option<Seq<u8>> {
    match v {
        Some(b) => Some(b@),
        None => None,
    }
}

/// Calls `scraper::Html::parse_document`, `scraper::Selector::parse`,
/// `Html::select` and `ElementRef::attr`: the contract claims that the result is
/// `selected_attributes` of the three texts (nothing about its contents is proved).
#[verifier::external_body]
pub(crate) fn select_attributes(html: &str, selector: &str, attribute: &str) -> (res: Option<
    Vec<Option<String>>,
>)
    ensures
        res.deep_view() == selected_attributes(html@, selector@, attribute@),
{
    let selector = scraper::Selector::parse(selector).ok()?;
    let document = scraper::Html::parse_document(html);
    let mut values = Vec::new();
    for element in document.select(&selector) {
        values.push(element.attr(attribute).map(String::from));
    }
    Some(values)
}

/// Calls `scraper::Html::parse_document`, `scraper::Selector::parse`,
/// `Html::select` (its first element) and `ElementRef::text`: the contract claims
/// that the result is `first_selected_text` of the two texts.
#[verifier::external_body]
pub(crate) fn select_first_text(html: &str, selector: &str) -> (res: Option<Option<String>>)
    ensures
        res.deep_view() == first_selected_text(html@, selector@),
{
    let selector = scraper::Selector::parse(selector).ok()?;
    let document = scraper::Html::parse_document(html);
    match document.select(&selector).next() {
        Some(element) => Some(Some(element.text().collect::<String>())),
        None => Some(None),
    }
}

/// Calls `regex::Regex::new`, `Regex::captures` and `Captures::get`: the
/// contract claims that the result is `regex_capture` of the arguments.
#[verifier::external_body]
pub(crate) fn capture_group(pattern: &str, text: &str, group: usize) -> (res: Option<
    Option<Option<String>>,
>)
    ensures
        res.deep_view() == regex_capture(pattern@, text@, group),
{
    let regex = regex::Regex::new(pattern).ok()?;
    match regex.captures(text) {
        Some(captures) => match captures.get(group) {
            Some(m) => Some(Some(Some(m.as_str().to_string()))),
            None => Some(Some(None)),
        },
        None => Some(None),
    }
}

/// Calls `Engine::encode` of `base64::engine::general_purpose::STANDARD`. The
/// contract claims the result is the padded standard base64 text of the bytes
/// (`base64_standard_encoding`).
#[verifier::external_body]
pub(crate) fn base64_encode(bytes: &[u8]) -> (res: String)
    ensures
        res@ == base64_standard_encoding(bytes@),
{
    base64::Engine::encode(&base64::engine::general_purpose::STANDARD, bytes)
}

/// Calls `Engine::decode` of `base64::engine::general_purpose::STANDARD`: the
/// contract claims the result is `Some(b)` exactly when the text is the
/// padded standard encoding of `b`, and `None` (a decode error) for any other
/// text. The engine requires canonical padding and zero trailing bits, so it
/// accepts exactly the texts that its encoder writes.
#[verifier::external_body]
pub(crate) fn base64_decode(text: &str) -> (res: Option<Vec<u8>>)
    ensures
        forall|b: Seq<u8>| optional_bytes(res) == Some(b) <==> base64_standard_encoding(b) == text@,
{
    base64::Engine::decode(&base64::engine::general_purpose::STANDARD, text).ok()
}

/// Calls `serde_json::to_string` on a `str`. The contract claims the result is
/// the text in quotes with serde_json's escapes (`json_string_literal`, after
/// its `ESCAPE` table and `write_char_escape`); serializing a `str` into a
/// `Vec` cannot fail, so the error arm is never taken.
#[verifier::external_body]
pub(crate) fn json_quote(text: &str) -> (res: String)
    ensures
        res@ == json_string_literal(text@),
{
    serde_json::to_string(text).unwrap_or_default()
}

/// Calls `serde_json::from_str` into a `serde_json::Value` and converts it: the
/// contract claims the result is `json_object_list` of the text.
#[verifier::external_body]
pub(crate) fn parse_object_list(text: &str) -> (res: Option<Option<Vec<Option<JsonFields>>>>)
    ensures
        res.deep_view() == json_object_list(text@),
{
    let items = match serde_json::from_str(text) {
        Ok(serde_json::Value::Array(items)) => items,
        Ok(_) => return Some(None),
        Err(_) => return None,
    };
    Some(Some(items.into_iter().map(|item| match item {
        serde_json::Value::Object(map) => Some(map.into_iter().map(|(k, v)| match v {
            serde_json::Value::String(s) => (k, Some(s)),
            _ => (k, None),
        }).collect()),
        _ => None,
    }).collect()))
}

} // verus!
