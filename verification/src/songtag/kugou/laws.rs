//! What holds of every Kugou response, proved from the definitions of the
//! readers in `model`.

use crate::codec::{base64_decoded, lemma_utf8_text_of_encoding};
use crate::json::{json_parsed, Json};
use crate::songtag::kugou::model::{
    data_text_of, has_code, is_sold, lyric_id_accesskey_of, lyric_of, of_text, pic_url_of,
    record_of, records_of, song_info_of, song_url_of, text_field, unknown,
};
use crate::songtag::{SongTagView, SongtagProvider};
use vstd::prelude::*;
use vstd::utf8::encode_utf8;

verus! {

/// Whether a search entry names its song: `hash` and `songname` are strings.
pub open spec fn is_complete(entry: Json) -> bool {
    text_field(entry, "hash"@) is Some && text_field(entry, "songname"@) is Some
}

/// An entry has a record exactly when it names its song, and the record is
/// tagged with the Kugou provider.
pub proof fn lemma_record_iff_complete(entry: Json)
    ensures
        record_of(entry) is Some <==> is_complete(entry),
        record_of(entry) matches Some(record) ==> record.service_provider
            == SongtagProvider::Kugou,
{
}

/// One entry alone yields its record, or nothing.
pub proof fn lemma_records_of_one(entry: Json)
    ensures
        records_of(seq![entry]) == match record_of(entry) {
            Some(record) => seq![record],
            None => Seq::<SongTagView>::empty(),
        },
{
    let one = seq![entry];
    assert(one.drop_last() =~= Seq::<Json>::empty());
    assert(records_of(one.drop_last()) =~= Seq::<SongTagView>::empty());
    assert(one.last() == entry);
    match record_of(entry) {
        Some(record) => {
            assert(Seq::<SongTagView>::empty().push(record) =~= seq![record]);
        },
        None => {},
    }
}

/// The records of two lists of entries, one after the other, are the
/// records of the first followed by those of the second: entries are read
/// one by one, and none changes what another yields.
pub proof fn lemma_records_of_concat(front: Seq<Json>, back: Seq<Json>)
    ensures
        records_of(front + back) == records_of(front) + records_of(back),
    decreases back.len(),
{
    if back.len() == 0 {
        assert(front + back =~= front);
        assert(records_of(front) + records_of(back) =~= records_of(front));
    } else {
        let whole = front + back;
        assert(whole.drop_last() =~= front + back.drop_last());
        assert(whole.last() == back.last());
        lemma_records_of_concat(front, back.drop_last());
        match record_of(back.last()) {
            Some(record) => {
                assert((records_of(front) + records_of(back.drop_last())).push(record)
                    =~= records_of(front) + records_of(back.drop_last()).push(record));
            },
            None => {},
        }
    }
}

/// Every record of a search result is tagged with the Kugou provider, and
/// there are at most as many records as entries.
pub proof fn lemma_records_carry_provider(entries: Seq<Json>)
    ensures
        records_of(entries).len() <= entries.len(),
        forall|i: int|
            0 <= i < records_of(entries).len() ==> (#[trigger] records_of(
                entries,
            )[i]).service_provider == SongtagProvider::Kugou,
    decreases entries.len(),
{
    if entries.len() > 0 {
        lemma_records_carry_provider(entries.drop_last());
    }
}

/// Where every entry names its song, every entry has its record, in the
/// entries' order.
pub proof fn lemma_complete_entries_all_recorded(entries: Seq<Json>)
    requires
        forall|i: int| 0 <= i < entries.len() ==> is_complete(#[trigger] entries[i]),
    ensures
        records_of(entries).len() == entries.len(),
        forall|i: int|
            0 <= i < entries.len() ==> Some(#[trigger] records_of(entries)[i]) == record_of(
                entries[i],
            ),
    decreases entries.len(),
{
    if entries.len() > 0 {
        let front = entries.drop_last();
        assert forall|i: int| 0 <= i < front.len() implies is_complete(#[trigger] front[i]) by {
            assert(front[i] == entries[i]);
        }
        lemma_complete_entries_all_recorded(front);
        assert(is_complete(entries.last()));
        assert forall|i: int| 0 <= i < entries.len() implies Some(
            #[trigger] records_of(entries)[i],
        ) == record_of(entries[i]) by {
            if i < front.len() {
                assert(records_of(entries)[i] == records_of(front)[i]);
                assert(front[i] == entries[i]);
            }
        }
    }
}

/// A response text that holds a document with the success code 1 and, under
/// `data.info`, an array whose entries all name their song is read into a
/// result with one record for each entry, each tagged with the Kugou
/// provider.
pub proof fn lemma_complete_search_is_read(
    text: Seq<char>,
    doc: Json,
    data: Json,
    entries: Seq<Json>,
)
    requires
        json_parsed(text) == Some(doc),
        has_code(doc, "status"@, 1),
        doc.field("data"@) == Some(data),
        data.field("info"@) == Some(Json::Array(entries)),
        forall|i: int| 0 <= i < entries.len() ==> is_complete(#[trigger] entries[i]),
    ensures
        of_text(text, |d: Json| song_info_of(d)) == Some(records_of(entries)),
        records_of(entries).len() == entries.len(),
        forall|i: int|
            0 <= i < entries.len() ==> (#[trigger] records_of(entries)[i]).service_provider
                == SongtagProvider::Kugou,
{
    lemma_complete_entries_all_recorded(entries);
    lemma_records_carry_provider(entries);
}

/// A response without its success code, or with another value in its
/// place, has no result: not for the search, the two addresses, the lyrics,
/// nor the access key.
pub proof fn lemma_without_success_code_absent(text: Seq<char>, doc: Json)
    requires
        json_parsed(text) == Some(doc),
    ensures
        !has_code(doc, "status"@, 1) ==> {
            &&& song_info_of(doc) is None
            &&& song_url_of(doc) is None
            &&& pic_url_of(doc) is None
            &&& of_text(text, |d: Json| song_info_of(d)) is None
            &&& of_text(text, |d: Json| song_url_of(d)) is None
            &&& of_text(text, |d: Json| pic_url_of(d)) is None
        },
        !has_code(doc, "status"@, 200) ==> {
            &&& lyric_of(doc) is None
            &&& of_text(text, |d: Json| lyric_of(d)) is None
        },
        !has_code(doc, "errcode"@, 200) ==> {
            &&& lyric_id_accesskey_of(doc) is None
            &&& of_text(text, |d: Json| lyric_id_accesskey_of(d)) is None
        },
{
}

/// A text that is not JSON has no result, whichever reader is asked.
pub proof fn lemma_not_json_absent(text: Seq<char>)
    requires
        json_parsed(text) is None,
    ensures
        of_text(text, |d: Json| song_info_of(d)) is None,
        of_text(text, |d: Json| song_url_of(d)) is None,
        of_text(text, |d: Json| pic_url_of(d)) is None,
        of_text(text, |d: Json| lyric_of(d)) is None,
        of_text(text, |d: Json| lyric_id_accesskey_of(d)) is None,
{
}

/// Lyrics come back as they went in: where `content` is a base64 string
/// that decodes to the UTF-8 bytes of `lyric`, a response with the success
/// code 200 is read into exactly `lyric`.
pub proof fn lemma_lyric_round_trip(
    text: Seq<char>,
    doc: Json,
    encoded: Seq<char>,
    lyric: Seq<char>,
)
    requires
        json_parsed(text) == Some(doc),
        has_code(doc, "status"@, 200),
        doc.field("content"@) == Some(Json::Text(encoded)),
        base64_decoded(encoded) == Some(encode_utf8(lyric)),
    ensures
        lyric_of(doc) == Some(lyric),
        of_text(text, |d: Json| lyric_of(d)) == Some(lyric),
{
    lemma_utf8_text_of_encoding(lyric);
}

/// The price decides what a record shows as its address: `Downloadable` for
/// a price of zero, `Copyright Protected` for every other integer price.
pub proof fn lemma_price_decides_url(entry: Json, price: int)
    requires
        is_complete(entry),
        entry.field("price"@) == Some(Json::Integer(price)),
        i64::MIN <= price <= u64::MAX,
    ensures
        record_of(entry) matches Some(record) && record.url == Some(
            if price == 0 {
                "Downloadable"@
            } else {
                "Copyright Protected"@
            },
        ),
        "Downloadable"@ != "Copyright Protected"@,
{
    reveal_strlit("Downloadable");
    reveal_strlit("Copyright Protected");
    assert("Downloadable"@.len() != "Copyright Protected"@.len());
}

/// An entry without a price is free.
pub proof fn lemma_no_price_is_free(entry: Json)
    requires
        is_complete(entry),
        entry.field("price"@) is None,
    ensures
        record_of(entry) matches Some(record) && record.url == Some("Downloadable"@),
{
}

/// A missing artist or album does not cost the record: the entry is read
/// with the placeholder in its place.
pub proof fn lemma_missing_description_is_unknown(entry: Json)
    requires
        is_complete(entry),
    ensures
        record_of(entry) is Some,
        entry.field("singername"@) is None ==> record_of(entry).unwrap().artist == Some(
            unknown(),
        ),
        entry.field("album_name"@) is None ==> record_of(entry).unwrap().album == Some(
            unknown(),
        ),
        entry.field("album_id"@) is None ==> record_of(entry).unwrap().album_id is None,
{
}

/// The two addresses are never refused for want of the address itself: with
/// the success code and a `data` member the result is there, empty where
/// the member is missing.
pub proof fn lemma_missing_address_is_empty(doc: Json, data: Json, key: Seq<char>)
    requires
        has_code(doc, "status"@, 1),
        doc.field("data"@) == Some(data),
        data.field(key) is None,
    ensures
        data_text_of(doc, key) == Some(Seq::<char>::empty()),
{
}

} // verus!
