use serde_json::Value;
use termusic::songtag::kugou::model::{
    lyric_from, lyric_id_accesskey_from, pic_url_from, song_info_from, song_tag_from,
    song_url_from, to_lyric, to_lyric_id_accesskey, to_pic_url, to_song_info, to_song_url,
};
use termusic::songtag::SongtagProvider;

fn value(text: &str) -> Value {
    serde_json::from_str(text).unwrap()
}

// ---- search results ----

#[test]
fn search_example_yields_one_record() {
    let json = r#"{"status":1,"data":{"info":[{"hash":"abc123","songname":"X","price":0}]}}"#;
    let tags = to_song_info(json.to_string()).unwrap();
    assert_eq!(tags.len(), 1);
    let tag = &tags[0];
    assert_eq!(tag.song_id(), Some("abc123"));
    assert_eq!(tag.title(), Some("X"));
    assert_eq!(tag.url(), Some("Downloadable"));
    assert_eq!(tag.artist(), Some("未知"));
    assert_eq!(tag.album(), Some("未知"));
    assert_eq!(tag.pic_id(), Some("abc123"));
    assert_eq!(tag.lyric_id(), Some("abc123"));
    assert_eq!(tag.lang_ext(), Some("chi"));
    assert_eq!(tag.album_id(), None);
    assert_eq!(tag.service_provider(), SongtagProvider::Kugou);
}

#[test]
fn search_wrong_sentinel_is_absent() {
    assert_eq!(to_song_info(r#"{"status":0}"#.to_string()), None);
    let with_content =
        r#"{"status":0,"data":{"info":[{"hash":"abc123","songname":"X","price":0}]}}"#;
    assert_eq!(to_song_info(with_content.to_string()), None);
}

#[test]
fn search_full_entry_is_read_field_by_field() {
    let json = r#"{"status":1,"data":{"info":[{"hash":"h1","songname":"Song","singername":"Singer","album_name":"Album","album_id":"77","price":200}]}}"#;
    let tags = to_song_info(json.to_string()).unwrap();
    assert_eq!(tags.len(), 1);
    let tag = &tags[0];
    assert_eq!(tag.song_id(), Some("h1"));
    assert_eq!(tag.title(), Some("Song"));
    assert_eq!(tag.artist(), Some("Singer"));
    assert_eq!(tag.album(), Some("Album"));
    assert_eq!(tag.album_id(), Some("77"));
    assert_eq!(tag.pic_id(), Some("h1"));
    assert_eq!(tag.lyric_id(), Some("h1"));
    assert_eq!(tag.lang_ext(), Some("chi"));
    assert_eq!(tag.url(), Some("Copyright Protected"));
    assert_eq!(tag.service_provider(), SongtagProvider::Kugou);
}

#[test]
fn search_every_record_carries_the_provider() {
    let json = r#"{"status":1,"data":{"info":[
        {"hash":"a","songname":"A"},
        {"hash":"b","songname":"B","price":3},
        {"hash":"c","songname":"C","singername":"S"}]}}"#;
    let tags = to_song_info(json.to_string()).unwrap();
    assert_eq!(tags.len(), 3);
    for tag in &tags {
        assert_eq!(tag.service_provider(), SongtagProvider::Kugou);
    }
    assert_eq!(tags[0].song_id(), Some("a"));
    assert_eq!(tags[1].song_id(), Some("b"));
    assert_eq!(tags[2].song_id(), Some("c"));
}

#[test]
fn search_empty_array_is_an_empty_result() {
    let tags = to_song_info(r#"{"status":1,"data":{"info":[]}}"#.to_string());
    assert_eq!(tags, Some(vec![]));
}

#[test]
fn search_missing_status_is_absent() {
    let json = r#"{"data":{"info":[{"hash":"abc123","songname":"X","price":0}]}}"#;
    assert_eq!(to_song_info(json.to_string()), None);
}

#[test]
fn search_status_of_another_type_is_absent() {
    for status in ["\"1\"", "1.0", "true", "null", "[1]", "200", "-1"] {
        let json = format!(
            r#"{{"status":{},"data":{{"info":[{{"hash":"a","songname":"A"}}]}}}}"#,
            status
        );
        assert_eq!(to_song_info(json), None);
    }
}

#[test]
fn search_not_json_is_absent() {
    for text in ["", "not json", "{", r#"{"status":1"#, r#"{"status":1} trailing"#, "{'status':1}"] {
        assert_eq!(to_song_info(text.to_string()), None);
    }
}

#[test]
fn search_missing_path_is_absent() {
    assert_eq!(to_song_info(r#"{"status":1}"#.to_string()), None);
    assert_eq!(to_song_info(r#"{"status":1,"data":{}}"#.to_string()), None);
    assert_eq!(to_song_info(r#"{"status":1,"data":[]}"#.to_string()), None);
    assert_eq!(to_song_info(r#"{"status":1,"data":{"info":{}}}"#.to_string()), None);
    assert_eq!(to_song_info(r#"{"status":1,"data":{"info":"x"}}"#.to_string()), None);
    assert_eq!(to_song_info(r#"[1]"#.to_string()), None);
}

#[test]
fn search_entry_without_identifier_or_title_is_left_out() {
    let json = r#"{"status":1,"data":{"info":[
        {"hash":"a","songname":"A"},
        {"songname":"no hash"},
        {"hash":"no title"},
        {"hash":5,"songname":"hash is a number"},
        {"hash":"t","songname":null},
        "not an object",
        {"hash":"z","songname":"Z"}]}}"#;
    let tags = to_song_info(json.to_string()).unwrap();
    assert_eq!(tags.len(), 2);
    assert_eq!(tags[0].song_id(), Some("a"));
    assert_eq!(tags[0].title(), Some("A"));
    assert_eq!(tags[1].song_id(), Some("z"));
    assert_eq!(tags[1].title(), Some("Z"));
}

#[test]
fn search_price_decides_the_url() {
    let cases = [
        ("0", "Downloadable"),
        ("1", "Copyright Protected"),
        ("200", "Copyright Protected"),
        ("18446744073709551615", "Copyright Protected"),
        ("9223372036854775808", "Copyright Protected"),
        ("-1", "Copyright Protected"),
        ("-9223372036854775808", "Copyright Protected"),
        ("\"5\"", "Downloadable"),
        ("null", "Downloadable"),
        ("true", "Downloadable"),
        ("[]", "Downloadable"),
        ("0.0", "Downloadable"),
    ];
    for (price, url) in cases {
        let json = format!(
            r#"{{"status":1,"data":{{"info":[{{"hash":"a","songname":"A","price":{}}}]}}}}"#,
            price
        );
        let tags = to_song_info(json).unwrap();
        assert_eq!(tags.len(), 1);
        assert_eq!(tags[0].url(), Some(url), "price {}", price);
    }
}

#[test]
fn search_price_beyond_64_bits_counts_as_zero() {
    let json = r#"{"status":1,"data":{"info":[{"hash":"a","songname":"A","price":18446744073709551616}]}}"#;
    let tags = to_song_info(json.to_string()).unwrap();
    assert_eq!(tags[0].url(), Some("Downloadable"));
}

#[test]
fn search_missing_price_is_downloadable() {
    let json = r#"{"status":1,"data":{"info":[{"hash":"a","songname":"A"}]}}"#;
    let tags = to_song_info(json.to_string()).unwrap();
    assert_eq!(tags[0].url(), Some("Downloadable"));
}

#[test]
fn search_missing_artist_is_unknown() {
    let json = r#"{"status":1,"data":{"info":[{"hash":"a","songname":"A","album_name":"B","album_id":"1"}]}}"#;
    let tags = to_song_info(json.to_string()).unwrap();
    assert_eq!(tags.len(), 1);
    assert_eq!(tags[0].artist(), Some("未知"));
    assert_eq!(tags[0].album(), Some("B"));
}

#[test]
fn search_descriptive_field_of_another_type() {
    let json = r#"{"status":1,"data":{"info":[{"hash":"a","songname":"A","singername":7,"album_name":7,"album_id":7}]}}"#;
    let tags = to_song_info(json.to_string()).unwrap();
    assert_eq!(tags.len(), 1);
    assert_eq!(tags[0].artist(), Some("未知"));
    assert_eq!(tags[0].album(), Some(""));
    assert_eq!(tags[0].album_id(), None);
}

#[test]
fn search_text_is_kept_as_it_is() {
    let json = r#"{"status":1,"data":{"info":[{"hash":"a","songname":"夜曲 \"live\"","singername":"周杰倫"}]}}"#;
    let tags = to_song_info(json.to_string()).unwrap();
    assert_eq!(tags[0].title(), Some("夜曲 \"live\""));
    assert_eq!(tags[0].artist(), Some("周杰倫"));
}

#[test]
fn search_from_value_agrees_with_text() {
    let json = r#"{"status":1,"data":{"info":[{"hash":"a","songname":"A","price":1},{"hash":"b"}]}}"#;
    assert_eq!(song_info_from(&value(json)), to_song_info(json.to_string()));
    assert_eq!(song_info_from(&value("[]")), None);
}

#[test]
fn song_tag_from_reads_one_entry() {
    let tag = song_tag_from(&value(r#"{"hash":"a","songname":"A","price":9}"#)).unwrap();
    assert_eq!(tag.song_id(), Some("a"));
    assert_eq!(tag.url(), Some("Copyright Protected"));
    assert_eq!(song_tag_from(&value(r#"{"hash":"a"}"#)), None);
    assert_eq!(song_tag_from(&value("3")), None);
}

// ---- lyrics ----

#[test]
fn lyric_is_decoded() {
    let json = r#"{"status":200,"content":"aGVsbG8gd29ybGQ="}"#;
    assert_eq!(to_lyric(json.to_string()), Some("hello world".to_string()));
}

#[test]
fn lyric_round_trip() {
    for text in ["", "a", "[00:01.00]第一行\n[00:02.50]second line\n", "\u{1F3B5} tune"] {
        let json = format!(r#"{{"status":200,"content":"{}"}}"#, base64::encode(text));
        assert_eq!(to_lyric(json), Some(text.to_string()));
    }
}

#[test]
fn lyric_wrong_or_missing_sentinel_is_absent() {
    assert_eq!(to_lyric(r#"{"status":1,"content":"aGVsbG8="}"#.to_string()), None);
    assert_eq!(to_lyric(r#"{"status":"200","content":"aGVsbG8="}"#.to_string()), None);
    assert_eq!(to_lyric(r#"{"content":"aGVsbG8="}"#.to_string()), None);
    assert_eq!(to_lyric(r#"{"errcode":200,"content":"aGVsbG8="}"#.to_string()), None);
}

#[test]
fn lyric_not_json_is_absent() {
    assert_eq!(to_lyric("aGVsbG8=".to_string()), None);
    assert_eq!(to_lyric("".to_string()), None);
}

#[test]
fn lyric_missing_or_malformed_content_is_absent() {
    assert_eq!(to_lyric(r#"{"status":200}"#.to_string()), None);
    assert_eq!(to_lyric(r#"{"status":200,"content":5}"#.to_string()), None);
    assert_eq!(to_lyric(r#"{"status":200,"content":"not base64!"}"#.to_string()), None);
    assert_eq!(to_lyric(r#"{"status":200,"content":"a"}"#.to_string()), None);
    assert_eq!(to_lyric(r#"{"status":200,"content":"aGVsbG8=="}"#.to_string()), None);
}

#[test]
fn lyric_that_is_not_text_is_absent() {
    let json = format!(r#"{{"status":200,"content":"{}"}}"#, base64::encode([0xffu8, 0xfe, 0x00]));
    assert_eq!(to_lyric(json), None);
}

#[test]
fn lyric_from_value_agrees_with_text() {
    let json = r#"{"status":200,"content":"aGVsbG8="}"#;
    assert_eq!(lyric_from(&value(json)), Some("hello".to_string()));
    assert_eq!(lyric_from(&value("200")), None);
}

// ---- playable and picture address ----

#[test]
fn song_url_is_read() {
    let json = r#"{"status":1,"data":{"play_url":"https://example.com/a.mp3","img":"https://example.com/a.jpg"}}"#;
    assert_eq!(to_song_url(json.to_string()), Some("https://example.com/a.mp3".to_string()));
    assert_eq!(to_pic_url(json.to_string()), Some("https://example.com/a.jpg".to_string()));
}

#[test]
fn missing_address_is_empty_not_absent() {
    assert_eq!(to_song_url(r#"{"status":1,"data":{}}"#.to_string()), Some(String::new()));
    assert_eq!(to_pic_url(r#"{"status":1,"data":{}}"#.to_string()), Some(String::new()));
    assert_eq!(to_song_url(r#"{"status":1,"data":{"play_url":3}}"#.to_string()), Some(String::new()));
    assert_eq!(to_pic_url(r#"{"status":1,"data":{"img":null}}"#.to_string()), Some(String::new()));
    assert_eq!(to_song_url(r#"{"status":1,"data":"text"}"#.to_string()), Some(String::new()));
    assert_eq!(to_pic_url(r#"{"status":1,"data":[]}"#.to_string()), Some(String::new()));
}

#[test]
fn address_without_data_is_absent() {
    assert_eq!(to_song_url(r#"{"status":1}"#.to_string()), None);
    assert_eq!(to_pic_url(r#"{"status":1}"#.to_string()), None);
}

#[test]
fn address_wrong_or_missing_sentinel_is_absent() {
    assert_eq!(to_song_url(r#"{"status":0,"data":{"play_url":"u"}}"#.to_string()), None);
    assert_eq!(to_song_url(r#"{"status":200,"data":{"play_url":"u"}}"#.to_string()), None);
    assert_eq!(to_song_url(r#"{"data":{"play_url":"u"}}"#.to_string()), None);
    assert_eq!(to_pic_url(r#"{"status":0,"data":{"img":"u"}}"#.to_string()), None);
    assert_eq!(to_pic_url(r#"{"data":{"img":"u"}}"#.to_string()), None);
}

#[test]
fn address_not_json_is_absent() {
    assert_eq!(to_song_url("<html>".to_string()), None);
    assert_eq!(to_pic_url("<html>".to_string()), None);
}

#[test]
fn address_from_value_agrees_with_text() {
    let json = r#"{"status":1,"data":{"play_url":"p","img":"i"}}"#;
    assert_eq!(song_url_from(&value(json)), Some("p".to_string()));
    assert_eq!(pic_url_from(&value(json)), Some("i".to_string()));
}

// ---- access key ----

#[test]
fn accesskey_and_id_of_first_candidate() {
    let json = r#"{"errcode":200,"candidates":[{"accesskey":"KEY","id":"42"},{"accesskey":"K2","id":"43"}]}"#;
    assert_eq!(
        to_lyric_id_accesskey(json.to_string()),
        Some(("KEY".to_string(), "42".to_string()))
    );
}

#[test]
fn accesskey_falls_back_to_unknown() {
    let json = r#"{"errcode":200,"candidates":[{"id":"42"}]}"#;
    assert_eq!(
        to_lyric_id_accesskey(json.to_string()),
        Some(("未知".to_string(), "42".to_string()))
    );
    let json = r#"{"errcode":200,"candidates":[{"accesskey":1,"id":"42"}]}"#;
    assert_eq!(
        to_lyric_id_accesskey(json.to_string()),
        Some(("未知".to_string(), "42".to_string()))
    );
}

#[test]
fn accesskey_without_id_is_absent() {
    assert_eq!(
        to_lyric_id_accesskey(r#"{"errcode":200,"candidates":[{"accesskey":"KEY"}]}"#.to_string()),
        None
    );
    assert_eq!(
        to_lyric_id_accesskey(
            r#"{"errcode":200,"candidates":[{"accesskey":"KEY","id":42}]}"#.to_string()
        ),
        None
    );
}

#[test]
fn accesskey_without_candidates_is_absent() {
    assert_eq!(to_lyric_id_accesskey(r#"{"errcode":200}"#.to_string()), None);
    assert_eq!(to_lyric_id_accesskey(r#"{"errcode":200,"candidates":[]}"#.to_string()), None);
    assert_eq!(to_lyric_id_accesskey(r#"{"errcode":200,"candidates":{}}"#.to_string()), None);
    assert_eq!(
        to_lyric_id_accesskey(r#"{"errcode":200,"candidates":["x"]}"#.to_string()),
        None
    );
}

#[test]
fn accesskey_wrong_or_missing_sentinel_is_absent() {
    let body = r#""candidates":[{"accesskey":"KEY","id":"42"}]"#;
    assert_eq!(to_lyric_id_accesskey(format!(r#"{{"errcode":0,{}}}"#, body)), None);
    assert_eq!(to_lyric_id_accesskey(format!(r#"{{"status":200,{}}}"#, body)), None);
    assert_eq!(to_lyric_id_accesskey(format!(r#"{{{}}}"#, body)), None);
}

#[test]
fn accesskey_not_json_is_absent() {
    assert_eq!(to_lyric_id_accesskey("errcode=200".to_string()), None);
}

#[test]
fn accesskey_from_value_agrees_with_text() {
    let json = r#"{"errcode":200,"candidates":[{"accesskey":"KEY","id":"42"}]}"#;
    assert_eq!(
        lyric_id_accesskey_from(&value(json)),
        Some(("KEY".to_string(), "42".to_string()))
    );
}

// ---- every reader ----

#[test]
fn well_formed_responses_are_read_by_every_reader() {
    let search = r#"{"status":1,"data":{"info":[{"hash":"a","songname":"A","album_id":"1"}]}}"#;
    assert!(to_song_info(search.to_string()).is_some());
    let address = r#"{"status":1,"data":{"play_url":"p","img":"i"}}"#;
    assert!(to_song_url(address.to_string()).is_some());
    assert!(to_pic_url(address.to_string()).is_some());
    let lyric = r#"{"status":200,"content":"bGE="}"#;
    assert!(to_lyric(lyric.to_string()).is_some());
    let key = r#"{"errcode":200,"candidates":[{"id":"1"}]}"#;
    assert!(to_lyric_id_accesskey(key.to_string()).is_some());
}

#[test]
fn a_response_for_one_reader_is_absent_for_the_others() {
    let search = r#"{"status":1,"data":{"info":[{"hash":"a","songname":"A"}]}}"#;
    assert_eq!(to_lyric(search.to_string()), None);
    assert_eq!(to_lyric_id_accesskey(search.to_string()), None);
    let lyric = r#"{"status":200,"content":"bGE="}"#;
    assert_eq!(to_song_info(lyric.to_string()), None);
    assert_eq!(to_song_url(lyric.to_string()), None);
    assert_eq!(to_pic_url(lyric.to_string()), None);
}
