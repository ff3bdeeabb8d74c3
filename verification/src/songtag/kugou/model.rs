//! Normalisation of Kugou's JSON responses: search results, lyrics, the
//! playable and the picture address of a song, and the access key under
//! which its lyrics are fetched.
//!
//! Every function reads a response as a chain of optional lookups. A
//! response that is not JSON, that does not carry the success code, or that
//! lacks a required member yields `None`; a missing descriptive member
//! yields a placeholder instead.

use crate::codec::{base64_text, decode_text};
use crate::json::{get, is_code, json_parsed, parse, value_model, Json};
use crate::songtag::{SongTag, SongTagView, SongtagProvider};
use serde_json::Value;
use vstd::prelude::*;

verus! {

/// The text that stands for an unknown artist, album or access key.
pub open spec fn unknown() -> Seq<char> {
    "未知"@
}

/// Whether the member `key` of a response is the integer `code`.
pub open spec fn has_code(doc: Json, key: Seq<char>, code: int) -> bool {
    doc.field(key) == Some(Json::Integer(code))
}

/// The text of the member `key` of an object, if it is there and a string.
pub open spec fn text_field(doc: Json, key: Seq<char>) -> Option<Seq<char>> {
    match doc.field(key) {
        Some(member) => member.text(),
        None => None,
    }
}

/// The text of the member `key`, or `fallback` where it is missing or not a
/// string.
pub open spec fn text_field_or(doc: Json, key: Seq<char>, fallback: Seq<char>) -> Seq<char> {
    match text_field(doc, key) {
        Some(text) => text,
        None => fallback,
    }
}

/// Whether a search entry is sold: its member `price` is an integer other
/// than zero. A price that is missing, not a number, or a number that is not
/// kept as a 64-bit integer counts as zero.
pub open spec fn is_sold(entry: Json) -> bool {
    match entry.field("price"@) {
        Some(Json::Integer(price)) => price != 0 && i64::MIN <= price <= u64::MAX,
        _ => false,
    }
}

/// What a search record shows in place of an address: whether the song is
/// free or sold. The address itself comes from a later request.
pub open spec fn url_for(sold: bool) -> Seq<char> {
    if sold {
        "Copyright Protected"@
    } else {
        "Downloadable"@
    }
}

/// The album name of a search entry: the placeholder where the member is
/// missing, the empty text where it is there and not a string.
pub open spec fn album_of(entry: Json) -> Seq<char> {
    match entry.field("album_name"@) {
        Some(album) => match album.text() {
            Some(name) => name,
            None => Seq::empty(),
        },
        None => unknown(),
    }
}

/// The record of one search entry; `None` where the entry lacks its
/// identifier `hash` or its title `songname`.
pub open spec fn record_of(entry: Json) -> Option<SongTagView> {
    match (text_field(entry, "hash"@), text_field(entry, "songname"@)) {
        (Some(id), Some(title)) => Some(
            SongTagView {
                song_id: Some(id),
                title: Some(title),
                artist: Some(text_field_or(entry, "singername"@, unknown())),
                album: Some(album_of(entry)),
                pic_id: Some(id),
                lang_ext: Some("chi"@),
                service_provider: SongtagProvider::Kugou,
                lyric_id: Some(id),
                url: Some(url_for(is_sold(entry))),
                album_id: text_field(entry, "album_id"@),
            },
        ),
        _ => None,
    }
}

/// The records of the entries that have one, in the entries' order.
pub open spec fn records_of(entries: Seq<Json>) -> Seq<SongTagView>
    decreases entries.len(),
{
    if entries.len() == 0 {
        Seq::empty()
    } else {
        match record_of(entries.last()) {
            Some(record) => records_of(entries.drop_last()).push(record),
            None => records_of(entries.drop_last()),
        }
    }
}

/// The search results of a response: `None` unless `status` is 1 and
/// `data.info` is an array.
pub open spec fn song_info_of(doc: Json) -> Option<Seq<SongTagView>> {
    if !has_code(doc, "status"@, 1) {
        None
    } else {
        match doc.field("data"@) {
            Some(data) => match data.field("info"@) {
                Some(info) => match info.items() {
                    Some(entries) => Some(records_of(entries)),
                    None => None,
                },
                None => None,
            },
            None => None,
        }
    }
}

/// The access key and the identifier under which lyrics are fetched: those
/// of the first candidate of a response whose `errcode` is 200. The key
/// falls back to the placeholder; without an identifier there is no result.
pub open spec fn lyric_id_accesskey_of(doc: Json) -> Option<(Seq<char>, Seq<char>)> {
    if !has_code(doc, "errcode"@, 200) {
        None
    } else {
        match doc.field("candidates"@) {
            Some(Json::Array(candidates)) => if candidates.len() == 0 {
                None
            } else {
                match text_field(candidates[0], "id"@) {
                    Some(id) => Some(
                        (text_field_or(candidates[0], "accesskey"@, unknown()), id),
                    ),
                    None => None,
                }
            },
            _ => None,
        }
    }
}

/// The member `key` of `data` in a response whose `status` is 1: the empty
/// text where `data` has no such string, `None` where there is no `data`.
pub open spec fn data_text_of(doc: Json, key: Seq<char>) -> Option<Seq<char>> {
    if !has_code(doc, "status"@, 1) {
        None
    } else {
        match doc.field("data"@) {
            Some(data) => Some(text_field_or(data, key, Seq::empty())),
            None => None,
        }
    }
}

/// The playable address of a song.
pub open spec fn song_url_of(doc: Json) -> Option<Seq<char>> {
    data_text_of(doc, "play_url"@)
}

/// The address of a song's picture.
pub open spec fn pic_url_of(doc: Json) -> Option<Seq<char>> {
    data_text_of(doc, "img"@)
}

/// The lyrics of a response whose `status` is 200: its member `content`,
/// decoded from base64 and read as UTF-8.
pub open spec fn lyric_of(doc: Json) -> Option<Seq<char>> {
    if !has_code(doc, "status"@, 200) {
        None
    } else {
        match text_field(doc, "content"@) {
            Some(encoded) => base64_text(encoded),
            None => None,
        }
    }
}

/// What a response text yields: `read` of the document it holds, `None`
/// where it is not JSON.
pub open spec fn of_text<T>(text: Seq<char>, read: spec_fn(Json) -> Option<T>) -> Option<T> {
    match json_parsed(text) {
        Some(doc) => read(doc),
        None => None,
    }
}

/// Whether the member `key` of `value` is the integer `code`.
fn code_is(value: &Value, key: &str, code: i32) -> (ok: bool)
    ensures
        ok == has_code(value_model(*value), key@, code as int),
{
    match get(value, key) {
        Some(member) => is_code(member, code),
        None => false,
    }
}

/// The text of the member `key` of `value`, if it is there and a string.
fn read_text(value: &Value, key: &str) -> (text: Option<String>)
    ensures
        text.deep_view() == text_field(value_model(*value), key@),
{
    match get(value, key) {
        Some(member) => match member.as_str() {
            Some(s) => Some(s.to_owned()),
            None => None,
        },
        None => None,
    }
}

/// The text of the member `key` of `value`, or `fallback`.
fn read_text_or(value: &Value, key: &str, fallback: &str) -> (text: String)
    ensures
        text@ == text_field_or(value_model(*value), key@, fallback@),
{
    match read_text(value, key) {
        Some(text) => text,
        None => fallback.to_owned(),
    }
}

/// Reads one entry of a search response into a record.
pub fn song_tag_from(entry: &Value) -> (tag: Option<SongTag>)
    ensures
        tag.deep_view() == record_of(value_model(*entry)),
{
    let sold = match get(entry, "price") {
        Some(price) => match price.as_u64() {
            Some(n) => n != 0,
            None => price.as_i64().is_some(),
        },
        None => false,
    };
    let url = if sold {
        "Copyright Protected".to_owned()
    } else {
        "Downloadable".to_owned()
    };
    let album = match get(entry, "album_name") {
        Some(a) => match a.as_str() {
            Some(name) => name.to_owned(),
            None => "".to_owned(),
        },
        None => "未知".to_owned(),
    };
    proof {
        reveal_strlit("");
        assert(""@ =~= Seq::<char>::empty());
    }
    match (read_text(entry, "hash"), read_text(entry, "songname")) {
        (Some(id), Some(title)) => Some(
            SongTag::new(
                SongtagProvider::Kugou,
                Some(id.clone()),
                Some(title),
                Some(read_text_or(entry, "singername", "未知")),
                Some(album),
                Some(id.clone()),
                Some("chi".to_owned()),
                Some(id),
                Some(url),
                read_text(entry, "album_id"),
            ),
        ),
        _ => None,
    }
}

/// Unfolds `records_of` at the end of a prefix.
proof fn lemma_records_of_prefix(entries: Seq<Json>, n: int)
    requires
        0 <= n < entries.len(),
    ensures
        records_of(entries.subrange(0, n + 1)) == match record_of(entries[n]) {
            Some(record) => records_of(entries.subrange(0, n)).push(record),
            None => records_of(entries.subrange(0, n)),
        },
{
    let prefix = entries.subrange(0, n + 1);
    assert(prefix.drop_last() =~= entries.subrange(0, n));
    assert(prefix.last() == entries[n]);
}

/// Reads the search results out of a parsed response.
pub fn song_info_from(value: &Value) -> (tags: Option<Vec<SongTag>>)
    ensures
        tags.deep_view() == song_info_of(value_model(*value)),
{
    if !code_is(value, "status", 1) {
        return None;
    }
    let data = match get(value, "data") {
        Some(data) => data,
        None => return None,
    };
    let info = match get(data, "info") {
        Some(info) => info,
        None => return None,
    };
    let array = match info.as_array() {
        Some(array) => array,
        None => return None,
    };
    let ghost entries = array@.map_values(|item: Value| value_model(item));
    let mut tags: Vec<SongTag> = Vec::new();
    let mut i: usize = 0;
    assert(tags.deep_view() =~= records_of(entries.subrange(0, 0)));
    while i < array.len()
        invariant
            0 <= i <= array.len(),
            entries == array@.map_values(|item: Value| value_model(item)),
            tags.deep_view() == records_of(entries.subrange(0, i as int)),
        decreases array.len() - i,
    {
        let ghost before = tags.deep_view();
        proof {
            lemma_records_of_prefix(entries, i as int);
        }
        match song_tag_from(&array[i]) {
            Some(tag) => {
                tags.push(tag);
                assert(tags.deep_view() =~= before.push(tag.deep_view()));
            },
            None => {},
        }
        i += 1;
    }
    assert(entries.subrange(0, i as int) =~= entries);
    Some(tags)
}

/// Reads the search results out of a response text.
pub fn to_song_info(json: String) -> (tags: Option<Vec<SongTag>>)
    ensures
        tags.deep_view() == of_text(json@, |doc: Json| song_info_of(doc)),
{
    match parse(json.as_str()) {
        Some(value) => song_info_from(&value),
        None => None,
    }
}

/// Reads the access key and the identifier of the first lyrics candidate out
/// of a parsed response.
pub fn lyric_id_accesskey_from(value: &Value) -> (pair: Option<(String, String)>)
    ensures
        pair.deep_view() == lyric_id_accesskey_of(value_model(*value)),
{
    if !code_is(value, "errcode", 200) {
        return None;
    }
    let candidates = match get(value, "candidates") {
        Some(member) => match member.as_array() {
            Some(candidates) => candidates,
            None => return None,
        },
        None => return None,
    };
    if candidates.len() == 0 {
        return None;
    }
    let first = &candidates[0];
    let accesskey = read_text_or(first, "accesskey", "未知");
    match read_text(first, "id") {
        Some(id) => Some((accesskey, id)),
        None => None,
    }
}

/// Reads the access key and the identifier of the first lyrics candidate out
/// of a response text.
pub fn to_lyric_id_accesskey(json: String) -> (pair: Option<(String, String)>)
    ensures
        pair.deep_view() == of_text(json@, |doc: Json| lyric_id_accesskey_of(doc)),
{
    match parse(json.as_str()) {
        Some(value) => lyric_id_accesskey_from(&value),
        None => None,
    }
}

/// Reads the member `key` of `data` out of a parsed response.
fn data_text_from(value: &Value, key: &str) -> (text: Option<String>)
    ensures
        text.deep_view() == data_text_of(value_model(*value), key@),
{
    if !code_is(value, "status", 1) {
        return None;
    }
    proof {
        reveal_strlit("");
        assert(""@ =~= Seq::<char>::empty());
    }
    match get(value, "data") {
        Some(data) => Some(read_text_or(data, key, "")),
        None => None,
    }
}

/// Reads the playable address of a song out of a parsed response.
pub fn song_url_from(value: &Value) -> (url: Option<String>)
    ensures
        url.deep_view() == song_url_of(value_model(*value)),
{
    data_text_from(value, "play_url")
}

/// Reads the playable address of a song out of a response text.
pub fn to_song_url(json: String) -> (url: Option<String>)
    ensures
        url.deep_view() == of_text(json@, |doc: Json| song_url_of(doc)),
{
    match parse(json.as_str()) {
        Some(value) => song_url_from(&value),
        None => None,
    }
}

/// Reads the address of a song's picture out of a parsed response.
pub fn pic_url_from(value: &Value) -> (url: Option<String>)
    ensures
        url.deep_view() == pic_url_of(value_model(*value)),
{
    data_text_from(value, "img")
}

/// Reads the address of a song's picture out of a response text.
pub fn to_pic_url(json: String) -> (url: Option<String>)
    ensures
        url.deep_view() == of_text(json@, |doc: Json| pic_url_of(doc)),
{
    match parse(json.as_str()) {
        Some(value) => pic_url_from(&value),
        None => None,
    }
}

/// Reads the lyrics out of a parsed response.
pub fn lyric_from(value: &Value) -> (lyric: Option<String>)
    ensures
        lyric.deep_view() == lyric_of(value_model(*value)),
{
    if !code_is(value, "status", 200) {
        return None;
    }
    match get(value, "content") {
        Some(content) => match content.as_str() {
            Some(encoded) => decode_text(encoded),
            None => None,
        },
        None => None,
    }
}

/// Reads the lyrics out of a response text.
pub fn to_lyric(json: String) -> (lyric: Option<String>)
    ensures
        lyric.deep_view() == of_text(json@, |doc: Json| lyric_of(doc)),
{
    match parse(json.as_str()) {
        Some(value) => lyric_from(&value),
        None => None,
    }
}

} // verus!
