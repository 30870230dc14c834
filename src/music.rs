//! A music item of a search result: its model, how it is read from and
//! written to a JSON document, and how it is shown to a person.

use vstd::prelude::*;
use vstd::string::StringExecFns;
use crate::json::{Json, JsonNumber, lookup, find_member};
use crate::client::ClientError;

verus! {

/// One search result. Every field may be absent.
#[derive(Debug, Clone, PartialEq, Eq)]
pub struct WaveMusic {
    /// The title of the piece.
    pub title: Option<String>,
    /// The name of the account that uploaded it.
    pub uploader_name: Option<String>,
    /// The address of that account's page.
    pub uploader_url: Option<String>,
    /// The length in seconds.
    pub duration: Option<u32>,
    /// The identifier under which its thumbnail is served; a thumbnail can
    /// be asked for only with a non-empty one.
    pub id: Option<String>,
}

/// The content of a `WaveMusic`, with texts as sequences of characters.
pub struct MusicView {
    pub title: Option<Seq<char>>,
    pub uploader_name: Option<Seq<char>>,
    pub uploader_url: Option<Seq<char>>,
    pub duration: Option<u32>,
    pub id: Option<Seq<char>>,
}

pub open spec fn text_view(o: Option<String>) -> Option<Seq<char>> {
    match o {
        Some(s) => Some(s@),
        None => None,
    }
}

impl View for WaveMusic {
    type V = MusicView;

    open spec fn view(&self) -> MusicView {
        MusicView {
            title: text_view(self.title),
            uploader_name: text_view(self.uploader_name),
            uploader_url: text_view(self.uploader_url),
            duration: self.duration,
            id: text_view(self.id),
        }
    }
}

pub open spec fn views(s: Seq<WaveMusic>) -> Seq<MusicView> {
    s.map_values(|m: WaveMusic| m@)
}

/// A text, or the empty text where there is none.
pub open spec fn or_empty(t: Option<Seq<char>>) -> Seq<char> {
    match t {
        Some(s) => s,
        None => Seq::empty(),
    }
}

/// What an optional text member decodes to; `None` where its value is
/// neither null nor a string.
pub open spec fn text_field(v: Option<Json>) -> Option<Option<Seq<char>>> {
    match v {
        None => Some(None),
        Some(Json::Null) => Some(None),
        Some(Json::Str(s)) => Some(Some(s@)),
        _ => None,
    }
}

/// What an optional count member decodes to; `None` where its value is
/// neither null nor an integer that fits in 32 unsigned bits.
pub open spec fn count_field(v: Option<Json>) -> Option<Option<u32>> {
    match v {
        None => Some(None),
        Some(Json::Null) => Some(None),
        Some(Json::Number(JsonNumber::Unsigned(n))) => if n <= u32::MAX {
            Some(Some(n as u32))
        } else {
            None
        },
        _ => None,
    }
}

/// The item that a JSON value describes, or `None` where it is not an object
/// of the expected shape. Members other than the five are ignored.
pub open spec fn item_of(j: Json) -> Option<MusicView> {
    match j {
        Json::Object(m) => {
            let title = text_field(lookup(m@, "title"@));
            let uploader_name = text_field(lookup(m@, "uploaderName"@));
            let uploader_url = text_field(lookup(m@, "uploaderUrl"@));
            let duration = count_field(lookup(m@, "duration"@));
            let id = text_field(lookup(m@, "id"@));
            if title is Some && uploader_name is Some && uploader_url is Some && duration is Some
                && id is Some {
                Some(
                    MusicView {
                        title: title->0,
                        uploader_name: uploader_name->0,
                        uploader_url: uploader_url->0,
                        duration: duration->0,
                        id: id->0,
                    },
                )
            } else {
                None
            }
        },
        _ => None,
    }
}

/// The items of a JSON array, or `None` where one of them does not decode.
pub open spec fn items_of(a: Seq<Json>) -> Option<Seq<MusicView>> {
    if forall|i: int| 0 <= i < a.len() ==> (#[trigger] item_of(a[i])) is Some {
        Some(a.map_values(|j: Json| item_of(j)->0))
    } else {
        None
    }
}

/// The items of a search response: an object whose `items` member is an
/// array of items.
pub open spec fn search_result(doc: Json) -> Option<Seq<MusicView>> {
    match doc {
        Json::Object(m) => match lookup(m@, "items"@) {
            Some(Json::Array(a)) => items_of(a@),
            _ => None,
        },
        _ => None,
    }
}

/// The member `key` of an object holds a value other than null.
pub open spec fn member_present(j: Json, key: Seq<char>) -> bool {
    j matches Json::Object(m) && lookup(m@, key) matches Some(v) && v != Json::Null
}

/// The keys of an item's members.
pub open spec fn item_keys() -> Seq<Seq<char>> {
    seq!["title"@, "uploaderName"@, "uploaderUrl"@, "duration"@, "id"@]
}

/// The elements of the `items` array of a response.
pub open spec fn response_items(doc: Json) -> Seq<Json> {
    match doc {
        Json::Object(m) => match lookup(m@, "items"@) {
            Some(Json::Array(a)) => a@,
            _ => Seq::empty(),
        },
        _ => Seq::empty(),
    }
}

/// The member holds `t`: null where `t` is absent, else a string.
pub open spec fn encodes_text(v: Option<Json>, t: Option<Seq<char>>) -> bool {
    match t {
        None => v == Some(Json::Null),
        Some(s) => v matches Some(Json::Str(x)) && x@ == s,
    }
}

/// `j` is the object that writes the item `m`, every one of the five members
/// present.
pub open spec fn encodes_item(j: Json, m: MusicView) -> bool {
    j matches Json::Object(members) && encodes_text(lookup(members@, "title"@), m.title)
        && encodes_text(lookup(members@, "uploaderName"@), m.uploader_name) && encodes_text(
        lookup(members@, "uploaderUrl"@),
        m.uploader_url,
    ) && encodes_text(lookup(members@, "id"@), m.id) && lookup(members@, "duration"@) == match m.duration {
        None => Some(Json::Null),
        Some(d) => Some(Json::Number(JsonNumber::Unsigned(d as u64))),
    }
}

/// `j` is a search response that writes the items `v`, in order.
pub open spec fn encodes(j: Json, v: Seq<MusicView>) -> bool {
    j matches Json::Object(members) && lookup(members@, "items"@) matches Some(Json::Array(a))
        && a@.len() == v.len() && forall|i: int|
        0 <= i < v.len() ==> encodes_item(#[trigger] a@[i], v[i])
}

spec fn owned(v: Option<&Json>) -> Option<Json> {
    match v {
        Some(j) => Some(*j),
        None => None,
    }
}

fn decode_text(v: Option<&Json>) -> (r: Option<Option<String>>)
    ensures
        match r {
            Some(t) => text_field(owned(v)) == Some(text_view(t)),
            None => text_field(owned(v)) is None,
        },
{
    match v {
        None => Some(None),
        Some(Json::Null) => Some(None),
        Some(Json::Str(s)) => Some(Some(s.clone())),
        _ => None,
    }
}

fn decode_count(v: Option<&Json>) -> (r: Option<Option<u32>>)
    ensures
        r == count_field(owned(v)),
{
    match v {
        None => Some(None),
        Some(Json::Null) => Some(None),
        Some(Json::Number(JsonNumber::Unsigned(n))) => if *n <= u32::MAX as u64 {
            Some(Some(*n as u32))
        } else {
            None
        },
        _ => None,
    }
}

impl WaveMusic {
    /// Reads an item from one element of a response's `items` array.
    pub fn from_json(j: &Json) -> (r: Option<WaveMusic>)
        ensures
            match r {
                Some(m) => item_of(*j) == Some(m@),
                None => item_of(*j) is None,
            },
    {
        match j {
            Json::Object(m) => {
                let title = decode_text(find_member(m, "title"));
                let uploader_name = decode_text(find_member(m, "uploaderName"));
                let uploader_url = decode_text(find_member(m, "uploaderUrl"));
                let duration = decode_count(find_member(m, "duration"));
                let id = decode_text(find_member(m, "id"));
                match (title, uploader_name, uploader_url, duration, id) {
                    (Some(title), Some(uploader_name), Some(uploader_url), Some(duration), Some(id)) => {
                        Some(WaveMusic { title, uploader_name, uploader_url, duration, id })
                    },
                    _ => None,
                }
            },
            _ => None,
        }
    }
}

/// Reads the items of a response's `items` array, in order.
pub fn decode_items(a: &Vec<Json>) -> (r: Option<Vec<WaveMusic>>)
    ensures
        match items_of(a@) {
            Some(v) => r is Some && views(r->0@) == v,
            None => r is None,
        },
{
    let mut out: Vec<WaveMusic> = Vec::new();
    let mut i: usize = 0;
    while i < a.len()
        invariant
            0 <= i <= a@.len(),
            out@.len() == i,
            forall|k: int| 0 <= k < i ==> item_of(a@[k]) == Some(#[trigger] out@[k]@),
        decreases a@.len() - i,
    {
        match WaveMusic::from_json(&a[i]) {
            Some(m) => out.push(m),
            None => {
                return None;
            },
        }
        i = i + 1;
    }
    proof {
        assert forall|k: int| 0 <= k < a@.len() implies (#[trigger] item_of(a@[k])) is Some by {
            assert(item_of(a@[k]) == Some(out@[k]@));
        }
        assert(views(out@) =~= a@.map_values(|j: Json| item_of(j)->0));
    }
    Some(out)
}

/// Reads the items of a search response, in order.
pub fn decode_search(doc: &Json) -> (r: Result<Vec<WaveMusic>, ClientError>)
    ensures
        match search_result(*doc) {
            Some(v) => r is Ok && views(r->Ok_0@) == v,
            None => r == Err::<Vec<WaveMusic>, ClientError>(ClientError::Decode),
        },
{
    match doc {
        Json::Object(m) => match find_member(m, "items") {
            Some(Json::Array(a)) => match decode_items(a) {
                Some(items) => Ok(items),
                None => Err(ClientError::Decode),
            },
            _ => Err(ClientError::Decode),
        },
        _ => Err(ClientError::Decode),
    }
}

fn encode_text(t: &Option<String>) -> (r: Json)
    ensures
        encodes_text(Some(r), text_view(*t)),
{
    match t {
        Some(s) => Json::Str(s.clone()),
        None => Json::Null,
    }
}

/// Finds the value of `key` among the members, given where it stands.
proof fn lemma_lookup_at(members: Seq<(String, Json)>, key: Seq<char>, k: int)
    requires
        0 <= k < members.len(),
        members[k].0@ == key,
        forall|i: int| 0 <= i < k ==> (#[trigger] members[i]).0@ != key,
    ensures
        lookup(members, key) == Some(members[k].1),
    decreases k,
{
    if k > 0 {
        lemma_lookup_at(members.drop_first(), key, k - 1);
    }
}

impl WaveMusic {
    /// Writes the item as a JSON object with all five members, null for an
    /// absent field.
    pub fn to_json(&self) -> (r: Json)
        ensures
            encodes_item(r, self@),
    {
        let mut members: Vec<(String, Json)> = Vec::new();
        members.push((String::from_str("title"), encode_text(&self.title)));
        members.push((String::from_str("uploaderName"), encode_text(&self.uploader_name)));
        members.push((String::from_str("uploaderUrl"), encode_text(&self.uploader_url)));
        let duration = match self.duration {
            Some(d) => Json::Number(JsonNumber::Unsigned(d as u64)),
            None => Json::Null,
        };
        members.push((String::from_str("duration"), duration));
        members.push((String::from_str("id"), encode_text(&self.id)));
        proof {
            let s = members@;
            reveal_strlit("title");
            reveal_strlit("uploaderName");
            reveal_strlit("uploaderUrl");
            reveal_strlit("duration");
            reveal_strlit("id");
            assert("title"@.len() != "uploaderName"@.len());
            assert("uploaderUrl"@.len() != "uploaderName"@.len());
            assert(s[0].0@ == "title"@);
            assert(s[1].0@ == "uploaderName"@);
            assert(s[2].0@ == "uploaderUrl"@);
            assert(s[3].0@ == "duration"@);
            assert(s[4].0@ == "id"@);
            lemma_lookup_at(s, "title"@, 0);
            lemma_lookup_at(s, "uploaderName"@, 1);
            lemma_lookup_at(s, "uploaderUrl"@, 2);
            lemma_lookup_at(s, "duration"@, 3);
            lemma_lookup_at(s, "id"@, 4);
        }
        Json::Object(members)
    }

    /// The item as a person reads it: its title, " from ", and its
    /// uploader's name, an absent one written as the empty text.
    pub fn display_text(&self) -> (r: String)
        ensures
            r@ == or_empty(self@.title) + " from "@ + or_empty(self@.uploader_name),
    {
        let mut out = String::new();
        match &self.title {
            Some(t) => out.append(t.as_str()),
            None => {},
        }
        out.append(" from ");
        match &self.uploader_name {
            Some(u) => out.append(u.as_str()),
            None => {},
        }
        out
    }
}

/// Writes a search response that holds the items, in order.
pub fn encode_search(items: &Vec<WaveMusic>) -> (r: Json)
    ensures
        encodes(r, views(items@)),
{
    let mut a: Vec<Json> = Vec::new();
    let mut i: usize = 0;
    while i < items.len()
        invariant
            0 <= i <= items@.len(),
            a@.len() == i,
            forall|k: int| 0 <= k < i ==> encodes_item(#[trigger] a@[k], items@[k]@),
        decreases items@.len() - i,
    {
        a.push(items[i].to_json());
        i = i + 1;
    }
    let mut members: Vec<(String, Json)> = Vec::new();
    members.push((String::from_str("items"), Json::Array(a)));
    proof {
        lemma_lookup_at(members@, "items"@, 0);
    }
    Json::Object(members)
}

/// The field of `m` that the member `item_keys()[k]` stands for is present.
pub open spec fn field_present(m: MusicView, k: int) -> bool {
    if k == 0 {
        m.title is Some
    } else if k == 1 {
        m.uploader_name is Some
    } else if k == 2 {
        m.uploader_url is Some
    } else if k == 3 {
        m.duration is Some
    } else {
        m.id is Some
    }
}

/// An object that decodes to an item holds a non-null member exactly where
/// the item holds the field.
proof fn lemma_decoded_presence(j: Json, m: MusicView)
    requires
        item_of(j) == Some(m),
    ensures
        forall|k: int|
            0 <= k < 5 ==> (member_present(j, #[trigger] item_keys()[k]) <==> field_present(m, k)),
{
    assert forall|k: int| 0 <= k < 5 implies (member_present(j, #[trigger] item_keys()[k])
        <==> field_present(m, k)) by {
        if k == 0 {
            assert(item_keys()[k] == "title"@);
        } else if k == 1 {
            assert(item_keys()[k] == "uploaderName"@);
        } else if k == 2 {
            assert(item_keys()[k] == "uploaderUrl"@);
        } else if k == 3 {
            assert(item_keys()[k] == "duration"@);
        } else {
            assert(item_keys()[k] == "id"@);
        }
    }
}

/// The object that writes an item decodes to that item.
proof fn lemma_encoded_item(j: Json, m: MusicView)
    requires
        encodes_item(j, m),
    ensures
        item_of(j) == Some(m),
{
}

/// Decoding a response that writes a list of items gives that list back.
pub proof fn lemma_decode_encoded(out: Json, v: Seq<MusicView>)
    requires
        encodes(out, v),
    ensures
        search_result(out) == Some(v),
        response_items(out).len() == v.len(),
{
    let a = response_items(out);
    assert forall|i: int| 0 <= i < a.len() implies (#[trigger] item_of(a[i])) is Some by {
        lemma_encoded_item(a[i], v[i]);
    }
    assert forall|i: int| 0 <= i < a.len() implies item_of(a[i])->0 == v[i] by {
        lemma_encoded_item(a[i], v[i]);
    }
    assert(a.map_values(|j: Json| item_of(j)->0) =~= v);
}

/// Decoding a search response and writing its items out again keeps the
/// items, and keeps which members of each item hold a value and which are
/// absent or null.
pub proof fn lemma_round_trip(doc: Json, out: Json)
    requires
        search_result(doc) is Some,
        encodes(out, search_result(doc)->0),
    ensures
        search_result(out) == search_result(doc),
        response_items(out).len() == response_items(doc).len(),
        forall|i: int, k: int|
            0 <= i < response_items(doc).len() && 0 <= k < 5 ==> (member_present(
                #[trigger] response_items(doc)[i],
                #[trigger] item_keys()[k],
            ) <==> member_present(response_items(out)[i], item_keys()[k])),
{
    let v = search_result(doc)->0;
    let d = response_items(doc);
    let a = response_items(out);
    lemma_decode_encoded(out, v);
    assert forall|i: int, k: int| 0 <= i < d.len() && 0 <= k < 5 implies (member_present(
        #[trigger] d[i],
        #[trigger] item_keys()[k],
    ) <==> member_present(a[i], item_keys()[k])) by {
        assert(item_of(d[i]) is Some);
        assert(item_of(d[i])->0 == v[i]);
        lemma_decoded_presence(d[i], v[i]);
        lemma_encoded_item(a[i], v[i]);
        lemma_decoded_presence(a[i], v[i]);
    }
}

/// A response whose `items` member is an empty array holds no items, and is
/// no error.
pub proof fn lemma_empty_items(doc: Json)
    requires
        doc matches Json::Object(m) && lookup(m@, "items"@) matches Some(Json::Array(a))
            && a@.len() == 0,
    ensures
        search_result(doc) == Some(Seq::<MusicView>::empty()),
{
    if let Json::Object(m) = doc {
        if let Some(Json::Array(a)) = lookup(m@, "items"@) {
            assert(a@.map_values(|j: Json| item_of(j)->0) =~= Seq::<MusicView>::empty());
        }
    }
}

/// A response without an `items` member holds no list of items.
pub proof fn lemma_missing_items(doc: Json)
    requires
        doc matches Json::Object(m) && lookup(m@, "items"@) is None,
    ensures
        search_result(doc) is None,
{
}

} // verus!
