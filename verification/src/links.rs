//! The link list of the host system: a JSON array of objects, each naming a
//! service (`name`) and where it is reached (`hostname`).

use vstd::prelude::*;
use crate::bindings::{json_object_list, parse_object_list, JsonFields};
use crate::text::same_text;

verus! {

/// Why the link list cannot be read.
#[derive(PartialEq, Eq, Structural, Clone, Copy, Debug)]
pub enum LinksError {
    /// The text is not JSON.
    Unparseable,
}

/// The fields of one JSON object, as plain text.
pub type FieldsView = Seq<(Seq<char>, Option<Seq<char>>)>;

/// The value of the first field named `key`, if there is such a field; the
/// inner `None` when its value is not a JSON string.
pub open spec fn find_field(fields: FieldsView, key: Seq<char>) -> Option<Option<Seq<char>>>
    decreases fields.len(),
{
    if fields.len() == 0 {
        None
    } else {
        match find_field(fields.drop_last(), key) {
            Some(v) => Some(v),
            None => if fields.last().0 == key {
                Some(fields.last().1)
            } else {
                None
            },
        }
    }
}

/// The string value of the field named `key`, if it has one.
pub open spec fn string_field(fields: FieldsView, key: Seq<char>) -> Option<Seq<char>> {
    match find_field(fields, key) {
        Some(Some(v)) => Some(v),
        _ => None,
    }
}

/// Whether a list element is an object whose `name` is the string `key`.
pub open spec fn is_named(item: Option<FieldsView>, key: Seq<char>) -> bool {
    item matches Some(fields) && string_field(fields, "name"@) == Some(key)
}

/// The first element named `key`, if any: its `hostname`, when a string.
pub open spec fn find_named(items: Seq<Option<FieldsView>>, key: Seq<char>) -> Option<
    Option<Seq<char>>,
>
    decreases items.len(),
{
    if items.len() == 0 {
        None
    } else {
        match find_named(items.drop_last(), key) {
            Some(h) => Some(h),
            None => if is_named(items.last(), key) {
                Some(string_field(items.last().unwrap(), "hostname"@))
            } else {
                None
            },
        }
    }
}

/// The hostname that a read link list gives for the service `key`: an error
/// when the text was not JSON; none when the top-level value is not an array,
/// when no object is named `key`, or when the first such object has no string
/// `hostname`.
pub open spec fn hostname_from(list: Option<Option<Seq<Option<FieldsView>>>>, key: Seq<char>) -> Result<
    Option<Seq<char>>,
    LinksError,
> {
    match list {
        None => Err(LinksError::Unparseable),
        Some(None) => Ok(None),
        Some(Some(items)) => Ok(
            match find_named(items, key) {
                Some(h) => h,
                None => None,
            },
        ),
    }
}

/// The hostname that the link list text gives for the service `key`.
pub open spec fn link_hostname(text: Seq<char>, key: Seq<char>) -> Result<
    Option<Seq<char>>,
    LinksError,
> {
    hostname_from(json_object_list(text), key)
}

/// An outcome seen through the views.
pub open spec fn link_view(res: Result<Option<String>, LinksError>) -> Result<
    Option<Seq<char>>,
    LinksError,
> {
    match res {
        Ok(h) => Ok(h.deep_view()),
        Err(e) => Err(e),
    }
}

/// The first field named `key`: found or not, and its string value.
fn field_value(fields: &JsonFields, key: &str) -> (res: Option<Option<String>>)
    ensures
        res.deep_view() == find_field(fields.deep_view(), key@),
{
    let ghost all = fields.deep_view();
    let n = fields.len();
    let mut i: usize = 0;
    while i < n
        invariant
            n == fields@.len(),
            all == fields.deep_view(),
            i <= n,
            find_field(all.take(i as int), key@) is None,
        decreases n - i,
    {
        assert(all.take(i + 1).drop_last() =~= all.take(i as int));
        if same_text(fields[i].0.as_str(), key) {
            proof { lemma_find_field_found(all, key@, i + 1) }
            return Some(fields[i].1.clone());
        }
        i = i + 1;
    }
    assert(all.take(n as int) =~= all);
    None
}

/// A field found in a prefix is the field found in the whole list.
proof fn lemma_find_field_found(s: FieldsView, key: Seq<char>, k: int)
    requires
        0 <= k <= s.len(),
        find_field(s.take(k), key) is Some,
    ensures
        find_field(s, key) == find_field(s.take(k), key),
    decreases s.len() - k,
{
    if k < s.len() {
        assert(s.take(k + 1).drop_last() =~= s.take(k));
        lemma_find_field_found(s, key, k + 1);
    } else {
        assert(s.take(k) =~= s);
    }
}

/// The string value of the field named `key`.
fn string_value(fields: &JsonFields, key: &str) -> (res: Option<String>)
    ensures
        res.deep_view() == string_field(fields.deep_view(), key@),
{
    match field_value(fields, key) {
        Some(Some(v)) => Some(v),
        _ => None,
    }
}

/// The first element named `key` in the list: its `hostname`.
fn named_hostname(items: &Vec<Option<JsonFields>>, key: &str) -> (res: Option<Option<String>>)
    ensures
        res.deep_view() == find_named(items.deep_view(), key@),
{
    let ghost all = items.deep_view();
    let n = items.len();
    let mut i: usize = 0;
    while i < n
        invariant
            n == items@.len(),
            all == items.deep_view(),
            i <= n,
            find_named(all.take(i as int), key@) is None,
        decreases n - i,
    {
        assert(all.take(i + 1).drop_last() =~= all.take(i as int));
        assert(all.take(i + 1).last() == all[i as int]);
        if let Some(fields) = &items[i] {
            let name = string_value(fields, "name");
            let named = match &name {
                Some(n) => same_text(n.as_str(), key),
                None => false,
            };
            if named {
                let host = string_value(fields, "hostname");
                proof { lemma_find_named_found(all, key@, i + 1) }
                return Some(host);
            }
        }
        i = i + 1;
    }
    assert(all.take(n as int) =~= all);
    None
}

/// An element found in a prefix is the element found in the whole list.
proof fn lemma_find_named_found(s: Seq<Option<FieldsView>>, key: Seq<char>, k: int)
    requires
        0 <= k <= s.len(),
        find_named(s.take(k), key) is Some,
    ensures
        find_named(s, key) == find_named(s.take(k), key),
    decreases s.len() - k,
{
    if k < s.len() {
        assert(s.take(k + 1).drop_last() =~= s.take(k));
        lemma_find_named_found(s, key, k + 1);
    } else {
        assert(s.take(k) =~= s);
    }
}

/// The hostname that a read link list gives for the service `key_name`.
pub fn hostname_in(list: Option<Option<Vec<Option<JsonFields>>>>, key_name: &str) -> (res: Result<
    Option<String>,
    LinksError,
>)
    ensures
        link_view(res) == hostname_from(list.deep_view(), key_name@),
{
    match list {
        None => Err(LinksError::Unparseable),
        Some(None) => Ok(None),
        Some(Some(items)) => match named_hostname(&items, key_name) {
            Some(h) => Ok(h),
            None => Ok(None),
        },
    }
}

/// The hostname that the link list text gives for the service `key_name`.
pub fn read_json(links: &str, key_name: &str) -> (res: Result<Option<String>, LinksError>)
    ensures
        link_view(res) == link_hostname(links@, key_name@),
{
    hostname_in(parse_object_list(links), key_name)
}

/// Where the service `external` is reached, by the link list text.
pub fn read_external(links: &str) -> (res: Result<Option<String>, LinksError>)
    ensures
        link_view(res) == link_hostname(links@, "external"@),
{
    read_json(links, "external")
}

/// Where the service `dplayer` is reached, by the link list text.
pub fn read_player(links: &str) -> (res: Result<Option<String>, LinksError>)
    ensures
        link_view(res) == link_hostname(links@, "dplayer"@),
{
    read_json(links, "dplayer")
}


/// A field lookup finds the first field of the name, and nothing when no
/// field has the name.
pub proof fn find_field_law(fields: FieldsView, key: Seq<char>)
    ensures
        find_field(fields, key) is None <==> forall|i: int|
            0 <= i < fields.len() ==> fields[i].0 != key,
        find_field(fields, key) matches Some(v) ==> exists|i: int|
            0 <= i < fields.len() && fields[i] == (key, v) && forall|j: int|
                0 <= j < i ==> fields[j].0 != key,
    decreases fields.len(),
{
    if fields.len() > 0 {
        let front = fields.drop_last();
        find_field_law(front, key);
        if find_field(front, key) is None {
            assert forall|j: int| 0 <= j < front.len() implies fields[j].0 != key by {
                assert(front[j] == fields[j]);
            }
            if fields.last().0 == key {
                let i = fields.len() - 1;
                assert(fields[i] == (key, fields.last().1));
            }
        } else {
            let v = find_field(front, key)->Some_0;
            let i = choose|i: int|
                0 <= i < front.len() && front[i] == (key, v) && forall|j: int|
                    0 <= j < i ==> front[j].0 != key;
            assert(fields[i] == front[i]);
            assert forall|j: int| 0 <= j < i implies fields[j].0 != key by {
                assert(fields[j] == front[j]);
            }
        }
    }
}

/// Whether a list element is an object whose first `name` field is the string `key`.
pub open spec fn names(item: Option<FieldsView>, key: Seq<char>) -> bool {
    item matches Some(f) && find_field(f, "name"@) == Some(Some(key))
}

/// The hostname of a service by the link list: the text must be JSON (else
/// an error); when its top-level value is an array, the first element that
/// is an object whose `name` is the service decides: its `hostname` when
/// that is a string, else none; no such element, or no array, gives none.
pub proof fn link_hostname_law(text: Seq<char>, key: Seq<char>)
    ensures
        link_hostname(text, key) is Err <==> json_object_list(text) is None,
        json_object_list(text) == Some(None::<Seq<Option<FieldsView>>>) ==> link_hostname(text, key)
            == Ok::<Option<Seq<char>>, LinksError>(None),
        json_object_list(text) matches Some(Some(items)) ==> {
            &&& (forall|i: int| 0 <= i < items.len() ==> !names(items[i], key)) ==> link_hostname(
                text,
                key,
            ) == Ok::<Option<Seq<char>>, LinksError>(None)
            &&& forall|i: int|
                0 <= i < items.len() && names(items[i], key) && (forall|j: int|
                    0 <= j < i ==> !names(items[j], key)) ==> link_hostname(text, key) == Ok::<
                    Option<Seq<char>>,
                    LinksError,
                >(
                    match find_field(items[i]->Some_0, "hostname"@) {
                        Some(Some(h)) => Some(h),
                        _ => None,
                    },
                )
        },
{
    if let Some(Some(items)) = json_object_list(text) {
        lemma_find_named_law(items, key);
    }
}

/// `find_named` finds the first element named `key`, with its hostname.
proof fn lemma_find_named_law(items: Seq<Option<FieldsView>>, key: Seq<char>)
    ensures
        (forall|i: int| 0 <= i < items.len() ==> !names(items[i], key)) ==> find_named(items, key)
            is None,
        forall|i: int|
            0 <= i < items.len() && names(items[i], key) && (forall|j: int|
                0 <= j < i ==> !names(items[j], key)) ==> find_named(items, key) == Some(
                string_field(items[i]->Some_0, "hostname"@),
            ),
    decreases items.len(),
{
    if items.len() > 0 {
        let front = items.drop_last();
        lemma_find_named_law(front, key);
        assert forall|i: int| 0 <= i < items.len() implies (is_named(items[i], key) <==> names(
            items[i],
            key,
        )) by {}
        if forall|i: int| 0 <= i < items.len() ==> !names(items[i], key) {
            assert forall|i: int| 0 <= i < front.len() implies !names(front[i], key) by {
                assert(front[i] == items[i]);
            }
            assert(!names(items[items.len() - 1], key));
        }
        assert forall|i: int|
            0 <= i < items.len() && names(items[i], key) && (forall|j: int|
                0 <= j < i ==> !names(items[j], key)) implies find_named(items, key) == Some(
            string_field(items[i]->Some_0, "hostname"@),
        ) by {
            if i < front.len() {
                assert(front[i] == items[i]);
                assert forall|j: int| 0 <= j < i implies !names(front[j], key) by {
                    assert(front[j] == items[j]);
                    assert(!names(items[j], key));
                }
            } else {
                assert forall|j: int| 0 <= j < front.len() implies !names(front[j], key) by {
                    assert(front[j] == items[j]);
                    assert(!names(items[j], key));
                }
            }
        }
    }
}

} // verus!
