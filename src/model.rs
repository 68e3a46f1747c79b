//! The records a scan produces and the catalog records built from them.

use vstd::prelude::*;
use vstd::string::StringExecFns;

verus! {

#[derive(Clone, Debug, PartialEq, Eq)]
/// What a scan yields for one file, before reconciliation.
pub struct RawTrack {
    /// The file's path; never empty.
    pub path: String,
    /// The tag title, or the file name's stem where the file has none.
    pub title: String,
    pub album: Option<String>,
    pub artist: Option<String>,
}

#[derive(Clone, Debug, PartialEq, Eq)]
/// An album as handed to the catalog.
pub struct Album {
    pub id: Option<usize>,
    pub title: String,
    pub artist_id: Option<usize>,
    pub image_url: Option<String>,
    pub uri: String,
}

#[derive(Clone, Debug, PartialEq, Eq)]
/// An artist as handed to the catalog.
pub struct Artist {
    pub id: Option<usize>,
    pub name: String,
    pub uri: String,
    pub image_url: Option<String>,
}

#[derive(Clone, Debug, PartialEq, Eq)]
/// A track as handed to the catalog.
pub struct Track {
    pub id: Option<usize>,
    pub title: String,
    pub album_id: Option<usize>,
    pub album: Option<Album>,
    pub artist_id: Option<usize>,
    pub artist: Option<Artist>,
    pub image_url: Option<String>,
    pub stream_url: String,
    pub uri: String,
    pub duration: Option<u64>,
}

pub ghost struct RawTrackModel {
    pub path: Seq<char>,
    pub title: Seq<char>,
    pub album: Option<Seq<char>>,
    pub artist: Option<Seq<char>>,
}

pub ghost struct AlbumModel {
    pub id: Option<usize>,
    pub title: Seq<char>,
    pub artist_id: Option<usize>,
    pub image_url: Option<Seq<char>>,
    pub uri: Seq<char>,
}

pub ghost struct ArtistModel {
    pub id: Option<usize>,
    pub name: Seq<char>,
    pub uri: Seq<char>,
    pub image_url: Option<Seq<char>>,
}

pub ghost struct TrackModel {
    pub id: Option<usize>,
    pub title: Seq<char>,
    pub album_id: Option<usize>,
    pub album: Option<AlbumModel>,
    pub artist_id: Option<usize>,
    pub artist: Option<ArtistModel>,
    pub image_url: Option<Seq<char>>,
    pub stream_url: Seq<char>,
    pub uri: Seq<char>,
    pub duration: Option<u64>,
}

/// The characters of an optional string.
pub open spec fn opt_str(o: Option<String>) -> Option<Seq<char>> {
    match o {
        Some(s) => Some(s@),
        None => None,
    }
}

impl View for RawTrack {
    type V = RawTrackModel;

    open spec fn view(&self) -> RawTrackModel {
        RawTrackModel {
            path: self.path@,
            title: self.title@,
            album: opt_str(self.album),
            artist: opt_str(self.artist),
        }
    }
}

impl View for Album {
    type V = AlbumModel;

    open spec fn view(&self) -> AlbumModel {
        AlbumModel {
            id: self.id,
            title: self.title@,
            artist_id: self.artist_id,
            image_url: opt_str(self.image_url),
            uri: self.uri@,
        }
    }
}

impl View for Artist {
    type V = ArtistModel;

    open spec fn view(&self) -> ArtistModel {
        ArtistModel {
            id: self.id,
            name: self.name@,
            uri: self.uri@,
            image_url: opt_str(self.image_url),
        }
    }
}

pub open spec fn opt_album(o: Option<Album>) -> Option<AlbumModel> {
    match o {
        Some(a) => Some(a@),
        None => None,
    }
}

pub open spec fn opt_artist(o: Option<Artist>) -> Option<ArtistModel> {
    match o {
        Some(a) => Some(a@),
        None => None,
    }
}

impl View for Track {
    type V = TrackModel;

    open spec fn view(&self) -> TrackModel {
        TrackModel {
            id: self.id,
            title: self.title@,
            album_id: self.album_id,
            album: opt_album(self.album),
            artist_id: self.artist_id,
            artist: opt_artist(self.artist),
            image_url: opt_str(self.image_url),
            stream_url: self.stream_url@,
            uri: self.uri@,
            duration: self.duration,
        }
    }
}

/// The characters of the URI that names a local file: `file://` and the path.
pub open spec fn file_uri_of(path: Seq<char>) -> Seq<char> {
    "file://"@ + path
}

/// Builds the URI that names the file at `path`.
pub fn file_uri(path: &String) -> (r: String)
    ensures
        r@ == file_uri_of(path@),
{
    String::from_str("file://").concat(path.as_str())
}

} // verus!

verus! {

/// The models of a sequence of raw tracks.
pub open spec fn raw_models(v: Seq<RawTrack>) -> Seq<RawTrackModel> {
    v.map_values(|r: RawTrack| r@)
}

/// The models of a sequence of albums.
pub open spec fn album_models(v: Seq<Album>) -> Seq<AlbumModel> {
    v.map_values(|a: Album| a@)
}

/// Copies an optional string.
pub(crate) fn copy_opt_str(o: &Option<String>) -> (r: Option<String>)
    ensures
        opt_str(r) == opt_str(*o),
{
    match o {
        Some(s) => Some(s.clone()),
        None => None,
    }
}

impl Album {
    /// A field-for-field copy.
    pub fn copy(&self) -> (r: Album)
        ensures
            r@ == self@,
    {
        Album {
            id: self.id,
            title: self.title.clone(),
            artist_id: self.artist_id,
            image_url: copy_opt_str(&self.image_url),
            uri: self.uri.clone(),
        }
    }
}

} // verus!
