use termusic::discord::presence;

#[test]
fn presence_shows_artist_and_title() {
    let shown = presence(Some("Queen"), Some("Bohemian Rhapsody"), 1_650_000_000);
    assert_eq!(shown.state, "Queen");
    assert_eq!(shown.details, "Bohemian Rhapsody");
    assert_eq!(shown.start, 1_650_000_000);
    assert_eq!(shown.large_image, "termusic");
    assert_eq!(shown.large_text, "terminal music player written in Rust");
}

#[test]
fn presence_without_artist_or_title() {
    let shown = presence(None, None, 0);
    assert_eq!(shown.state, "Unknown Artist");
    assert_eq!(shown.details, "Unknown Title");
    assert_eq!(shown.start, 0);
    let shown = presence(None, Some("T"), 1);
    assert_eq!(shown.state, "Unknown Artist");
    assert_eq!(shown.details, "T");
}

#[test]
fn presence_start_wraps_like_a_cast() {
    assert_eq!(presence(None, None, i64::MAX as u64).start, i64::MAX);
    assert_eq!(presence(None, None, i64::MAX as u64 + 1).start, i64::MIN);
    assert_eq!(presence(None, None, u64::MAX).start, -1);
    for secs in [0u64, 1, 1 << 40, (1 << 63) - 1, 1 << 63, (1 << 63) + 12345, u64::MAX - 7] {
        assert_eq!(presence(None, None, secs).start, secs as i64);
    }
}
