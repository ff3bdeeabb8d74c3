//! The canonical record that every provider's search results are normalised
//! into.

pub mod kugou;

use vstd::prelude::*;

verus! {

/// The providers that song records come from.
#[derive(Clone, Copy, Debug, PartialEq, Eq, Structural)]
pub enum SongtagProvider {
    Netease,
    Kugou,
    Migu,
}

/// What a `SongTag` holds, with each text as a sequence of characters.
pub struct SongTagView {
    pub song_id: Option<Seq<char>>,
    pub title: Option<Seq<char>>,
    pub artist: Option<Seq<char>>,
    pub album: Option<Seq<char>>,
    pub pic_id: Option<Seq<char>>,
    pub lang_ext: Option<Seq<char>>,
    pub service_provider: SongtagProvider,
    pub lyric_id: Option<Seq<char>>,
    pub url: Option<Seq<char>>,
    pub album_id: Option<Seq<char>>,
}

/// One song as a provider describes it. Every descriptive field may be
/// absent; the provider that produced the record is always known, and later
/// fetches for the song go to that provider. A record does not change once
/// it is built.
#[derive(Clone, Debug, PartialEq, Eq)]
pub struct SongTag {
    song_id: Option<String>,
    title: Option<String>,
    artist: Option<String>,
    album: Option<String>,
    pic_id: Option<String>,
    lang_ext: Option<String>,
    service_provider: SongtagProvider,
    lyric_id: Option<String>,
    url: Option<String>,
    album_id: Option<String>,
}

impl View for SongTag {
    type V = SongTagView;

    closed spec fn view(&self) -> SongTagView {
        SongTagView {
            song_id: self.song_id.deep_view(),
            title: self.title.deep_view(),
            artist: self.artist.deep_view(),
            album: self.album.deep_view(),
            pic_id: self.pic_id.deep_view(),
            lang_ext: self.lang_ext.deep_view(),
            service_provider: self.service_provider,
            lyric_id: self.lyric_id.deep_view(),
            url: self.url.deep_view(),
            album_id: self.album_id.deep_view(),
        }
    }
}

impl DeepView for SongTag {
    type V = SongTagView;

    open spec fn deep_view(&self) -> SongTagView {
        self@
    }
}

impl SongTag {
    /// Builds the record of one song of `service_provider`.
    pub fn new(
        service_provider: SongtagProvider,
        song_id: Option<String>,
        title: Option<String>,
        artist: Option<String>,
        album: Option<String>,
        pic_id: Option<String>,
        lang_ext: Option<String>,
        lyric_id: Option<String>,
        url: Option<String>,
        album_id: Option<String>,
    ) -> (tag: SongTag)
        ensures
            tag@ == (SongTagView {
                song_id: song_id.deep_view(),
                title: title.deep_view(),
                artist: artist.deep_view(),
                album: album.deep_view(),
                pic_id: pic_id.deep_view(),
                lang_ext: lang_ext.deep_view(),
                service_provider,
                lyric_id: lyric_id.deep_view(),
                url: url.deep_view(),
                album_id: album_id.deep_view(),
            }),
    {
        SongTag {
            song_id,
            title,
            artist,
            album,
            pic_id,
            lang_ext,
            service_provider,
            lyric_id,
            url,
            album_id,
        }
    }
    /// The provider's identifier of the song.
    pub fn song_id(&self) -> (text: Option<&str>)
        ensures
            text.deep_view() == self@.song_id,
    {
        match &self.song_id {
            Some(s) => Some(s.as_str()),
            None => None,
        }
    }

    /// The title of the song.
    pub fn title(&self) -> (text: Option<&str>)
        ensures
            text.deep_view() == self@.title,
    {
        match &self.title {
            Some(s) => Some(s.as_str()),
            None => None,
        }
    }

    /// The artist, or the placeholder of the provider.
    pub fn artist(&self) -> (text: Option<&str>)
        ensures
            text.deep_view() == self@.artist,
    {
        match &self.artist {
            Some(s) => Some(s.as_str()),
            None => None,
        }
    }

    /// The album, or the placeholder of the provider.
    pub fn album(&self) -> (text: Option<&str>)
        ensures
            text.deep_view() == self@.album,
    {
        match &self.album {
            Some(s) => Some(s.as_str()),
            None => None,
        }
    }

    /// The identifier under which the artwork is fetched.
    pub fn pic_id(&self) -> (text: Option<&str>)
        ensures
            text.deep_view() == self@.pic_id,
    {
        match &self.pic_id {
            Some(s) => Some(s.as_str()),
            None => None,
        }
    }

    /// The language of the lyrics, such as `chi`.
    pub fn lang_ext(&self) -> (text: Option<&str>)
        ensures
            text.deep_view() == self@.lang_ext,
    {
        match &self.lang_ext {
            Some(s) => Some(s.as_str()),
            None => None,
        }
    }

    /// The identifier under which the lyrics are fetched.
    pub fn lyric_id(&self) -> (text: Option<&str>)
        ensures
            text.deep_view() == self@.lyric_id,
    {
        match &self.lyric_id {
            Some(s) => Some(s.as_str()),
            None => None,
        }
    }

    /// The playable address, or a word on whether the song is free or sold.
    pub fn url(&self) -> (text: Option<&str>)
        ensures
            text.deep_view() == self@.url,
    {
        match &self.url {
            Some(s) => Some(s.as_str()),
            None => None,
        }
    }

    /// The provider's identifier of the album.
    pub fn album_id(&self) -> (text: Option<&str>)
        ensures
            text.deep_view() == self@.album_id,
    {
        match &self.album_id {
            Some(s) => Some(s.as_str()),
            None => None,
        }
    }

    /// The provider that produced the record.
    pub fn service_provider(&self) -> (provider: SongtagProvider)
        ensures
            provider == self@.service_provider,
    {
        self.service_provider
    }
}

} // verus!
