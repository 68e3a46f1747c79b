use id3::{Tag, TagLike, Version};
use local_provider::{
    dedup_albums, file_uri, inserted_albums, link_tracks, raw_track, raw_track_from_parts, scan,
    sync_result, track_of, Album, Catalog, CatalogError, FilesystemError, LocalProvider,
    ProviderError, RawTrack, SyncResult, TagFields, Track, WalkEntry,
};

/// A catalog that keeps what it is given and numbers albums from 1.
struct FakeCatalog {
    albums: Vec<Album>,
    tracks: Vec<Track>,
    calls: usize,
    refuse_album: Option<String>,
    refuse_tracks: bool,
}

impl FakeCatalog {
    fn new() -> FakeCatalog {
        FakeCatalog { albums: vec![], tracks: vec![], calls: 0, refuse_album: None, refuse_tracks: false }
    }
}

impl Catalog for FakeCatalog {
    fn add_album(&mut self, album: &Album) -> Result<usize, CatalogError> {
        self.calls += 1;
        if self.refuse_album.as_deref() == Some(album.title.as_str()) {
            return Err(CatalogError { message: "constraint violation".to_string() });
        }
        self.albums.push(album.clone());
        Ok(self.albums.len())
    }

    fn add_tracks(&mut self, tracks: &Vec<Track>) -> Result<(), CatalogError> {
        self.calls += 1;
        if self.refuse_tracks {
            return Err(CatalogError { message: "disk full".to_string() });
        }
        self.tracks.extend(tracks.iter().cloned());
        Ok(())
    }
}

fn tagged(title: &str, album: &str, artist: &str) -> Vec<u8> {
    let mut tag = Tag::new();
    tag.set_title(title);
    tag.set_album(album);
    tag.set_artist(artist);
    let mut bytes = Vec::new();
    tag.write_to(&mut bytes, Version::Id3v24).unwrap();
    bytes.extend_from_slice(&[0xff, 0xfb, 0x90, 0x00]);
    bytes
}

fn file(path: &str, contents: Vec<u8>) -> WalkEntry {
    WalkEntry::File { path: path.to_string(), contents: Some(contents) }
}

fn raw(path: &str, title: &str, album: Option<&str>) -> RawTrack {
    RawTrack {
        path: path.to_string(),
        title: title.to_string(),
        album: album.map(String::from),
        artist: None,
    }
}

fn three_files() -> Vec<WalkEntry> {
    vec![
        file("/music/a.mp3", tagged("Song1", "Red", "X")),
        file("/music/b.mp3", tagged("Song2", "Red", "Y")),
        file("/music/c.mp3", b"not an audio file".to_vec()),
    ]
}

#[test]
fn three_files_reconcile_into_one_album() {
    let mut provider = LocalProvider::new("/music".to_string());
    let mut catalog = FakeCatalog::new();
    let result = provider.sync(&mut catalog, Ok(three_files())).unwrap();
    assert_eq!(result, SyncResult { tracks: 3, albums: 1, artists: 0, playlists: 0 });
    assert_eq!(catalog.albums.len(), 1);
    assert_eq!(catalog.albums[0].title, "Red");
    assert_eq!(catalog.tracks.len(), 3);
    let a = &catalog.tracks[0];
    let b = &catalog.tracks[1];
    let c = &catalog.tracks[2];
    assert_eq!(a.title, "Song1");
    assert_eq!(b.title, "Song2");
    assert_eq!(a.album_id, Some(1));
    assert_eq!(b.album_id, Some(1));
    assert_eq!(c.title, "c");
    assert_eq!(c.album_id, None);
    assert!(c.album.is_none());
    assert_eq!(a.artist.as_ref().unwrap().name, "X");
    assert_eq!(b.artist.as_ref().unwrap().name, "Y");
    assert_eq!(a.artist_id, None);
}

#[test]
fn missing_root_fails_without_catalog_calls() {
    let mut provider = LocalProvider::new("/does/not/exist".to_string());
    let mut catalog = FakeCatalog::new();
    let err = FilesystemError { message: "No such file or directory".to_string() };
    let result = provider.sync(&mut catalog, Err(err.clone()));
    assert_eq!(result, Err(ProviderError::Filesystem(err)));
    assert_eq!(catalog.calls, 0);
    assert!(catalog.albums.is_empty());
    assert!(catalog.tracks.is_empty());
}

#[test]
fn scan_yields_one_track_per_file() {
    let mut entries = three_files();
    assert_eq!(scan(&entries).len(), 3);
    entries.insert(1, WalkEntry::Unreadable { reason: "permission denied".to_string() });
    entries.push(WalkEntry::File { path: "/music/d.mp3".to_string(), contents: None });
    let raws = scan(&entries);
    assert_eq!(raws.len(), 4);
    assert_eq!(raws[3].title, "d");
    assert_eq!(raws[3].album, None);
    assert!(scan(&vec![]).is_empty());
}

#[test]
fn first_seen_album_wins() {
    let raws = vec![
        raw("/m/1.mp3", "One", Some("X")),
        raw("/m/2.mp3", "Two", None),
        raw("/m/3.mp3", "Three", Some("Y")),
        raw("/m/4.mp3", "Four", Some("X")),
    ];
    let albums = dedup_albums(&raws);
    assert_eq!(albums.len(), 2);
    assert_eq!(albums[0].title, "X");
    assert_eq!(albums[1].title, "Y");
    assert_eq!(albums[0].id, None);
    assert_eq!(albums[0].uri, "");
}

#[test]
fn dedup_is_case_sensitive() {
    let raws = vec![raw("/m/1.mp3", "One", Some("Red")), raw("/m/2.mp3", "Two", Some("red"))];
    assert_eq!(dedup_albums(&raws).len(), 2);
}

#[test]
fn refused_album_leaves_tracks_unlinked() {
    let raws = vec![
        raw("/m/1.mp3", "One", Some("X")),
        raw("/m/2.mp3", "Two", Some("Y")),
        raw("/m/3.mp3", "Three", Some("X")),
    ];
    let candidates = dedup_albums(&raws);
    let outcomes = vec![Err(CatalogError { message: "taken".to_string() }), Ok(7)];
    let inserted = inserted_albums(&candidates, &outcomes);
    assert_eq!(inserted.len(), 1);
    assert_eq!(inserted[0].title, "Y");
    assert_eq!(inserted[0].id, Some(7));
    let tracks = link_tracks(&raws, &inserted);
    assert_eq!(tracks.len(), 3);
    assert_eq!(tracks[0].album_id, None);
    assert_eq!(tracks[1].album_id, Some(7));
    assert_eq!(tracks[2].album_id, None);
    assert_eq!(tracks[0].album.as_ref().unwrap().title, "X");
}

#[test]
fn sync_drops_refused_album() {
    let mut provider = LocalProvider::new("/music".to_string());
    let mut catalog = FakeCatalog::new();
    catalog.refuse_album = Some("Red".to_string());
    let result = provider.sync(&mut catalog, Ok(three_files())).unwrap();
    assert_eq!(result, SyncResult { tracks: 3, albums: 0, artists: 0, playlists: 0 });
    assert!(catalog.tracks.iter().all(|t| t.album_id.is_none()));
}

#[test]
fn refused_tracks_fail_the_sync() {
    let mut provider = LocalProvider::new("/music".to_string());
    let mut catalog = FakeCatalog::new();
    catalog.refuse_tracks = true;
    let result = provider.sync(&mut catalog, Ok(three_files()));
    assert_eq!(
        result,
        Err(ProviderError::Catalog(CatalogError { message: "disk full".to_string() }))
    );
}

#[test]
fn uri_is_file_scheme_and_path() {
    let path = "/my music/Ünïcode ♫/track 01.mp3".to_string();
    assert_eq!(file_uri(&path), "file:///my music/Ünïcode ♫/track 01.mp3");
    let t = track_of(&raw(&path, "t", None), &vec![]);
    assert_eq!(t.stream_url, format!("file://{}", path));
    assert_eq!(t.uri, format!("file://{}", path));
    assert_eq!(t.duration, None);
    assert_eq!(t.id, None);
}

#[test]
fn summary_reports_no_artists_or_playlists() {
    assert_eq!(
        sync_result(Ok(()), 5, 2),
        Ok(SyncResult { tracks: 5, albums: 2, artists: 0, playlists: 0 })
    );
    let e = CatalogError { message: "x".to_string() };
    assert_eq!(sync_result(Err(e.clone()), 5, 2), Err(ProviderError::Catalog(e)));
}

#[test]
fn title_falls_back_to_stem_then_path() {
    let path = "/m/song.tar.mp3".to_string();
    let r = raw_track_from_parts(&path, &None, Some("song.tar".to_string()));
    assert_eq!(r.title, "song.tar");
    assert_eq!(r.path, path);
    let r = raw_track_from_parts(&path, &None, None);
    assert_eq!(r.title, path);
    let tags = TagFields { title: None, artist: Some("A".to_string()), album: Some("B".to_string()) };
    let r = raw_track_from_parts(&path, &Some(tags), Some("s".to_string()));
    assert_eq!(r.title, "s");
    assert_eq!(r.artist, Some("A".to_string()));
    assert_eq!(r.album, Some("B".to_string()));
    let tags = TagFields { title: Some(String::new()), artist: None, album: None };
    assert_eq!(raw_track_from_parts(&path, &Some(tags), Some("s".to_string())).title, "");
}

#[test]
fn raw_track_reads_tag_and_stem() {
    let r = raw_track(&"/m/x/song.tar.mp3".to_string(), &Some(tagged("T", "Al", "Ar")));
    assert_eq!(r.title, "T");
    assert_eq!(r.album, Some("Al".to_string()));
    assert_eq!(r.artist, Some("Ar".to_string()));
    let r = raw_track(&"/m/x/song.tar.mp3".to_string(), &Some(vec![1, 2, 3]));
    assert_eq!(r.title, "song.tar");
    assert_eq!(r.album, None);
    assert_eq!(r.artist, None);
    let r = raw_track(&"/m/.hidden".to_string(), &None);
    assert_eq!(r.title, ".hidden");
}

#[test]
fn provider_stubs_are_empty() {
    let mut provider = LocalProvider::new("/music".to_string());
    assert_eq!(provider.title(), "Local");
    assert_eq!(provider.uri_scheme(), "file");
    assert_eq!(provider.root_path(), "/music");
    assert!(provider.setup().is_ok());
    let root = provider.root();
    assert!(root.folders.is_empty() && root.items.is_empty());
    let folder = provider.navigate(vec!["a".to_string()]).unwrap();
    assert!(folder.folders.is_empty() && folder.items.is_empty());
    assert!(provider.search("Red".to_string()).unwrap().is_empty());
    assert_eq!(provider.resolve_track("file:///music/a.mp3").unwrap(), None);
}
