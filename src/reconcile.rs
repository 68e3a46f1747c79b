//! Reconciliation: album deduplication by title, the outcome of inserting the
//! albums, and the linking of each track to its inserted album.

use vstd::prelude::*;
use crate::model::{
    file_uri, file_uri_of, album_models, raw_models, Track, opt_album, opt_artist, Album, AlbumModel, Artist, ArtistModel, RawTrack,
    RawTrackModel, TrackModel,
};

verus! {

/// A failure reported by the catalog on an insertion.
#[derive(Clone, Debug, PartialEq, Eq)]
pub struct CatalogError {
    pub message: String,
}

/// The album a track names, before insertion: only its title is known.
pub open spec fn album_model_of(title: Seq<char>) -> AlbumModel {
    AlbumModel { id: None, title, artist_id: None, image_url: None, uri: Seq::empty() }
}

/// The artist a track names: only its name is known.
pub open spec fn artist_model_of(name: Seq<char>) -> ArtistModel {
    ArtistModel { id: None, name, uri: Seq::empty(), image_url: None }
}

/// The album candidate of a raw track, if it names an album.
pub open spec fn album_candidate(r: RawTrackModel) -> Option<AlbumModel> {
    match r.album {
        Some(t) => Some(album_model_of(t)),
        None => None,
    }
}

/// The artist candidate of a raw track, if it names an artist.
pub open spec fn artist_candidate(r: RawTrackModel) -> Option<ArtistModel> {
    match r.artist {
        Some(n) => Some(artist_model_of(n)),
        None => None,
    }
}

/// Whether some album of `s` has the title `t`.
pub open spec fn has_title(s: Seq<AlbumModel>, t: Seq<char>) -> bool {
    exists|k: int| 0 <= k < s.len() && #[trigger] s[k].title == t
}

/// No two albums of `s` share a title.
pub open spec fn titles_unique(s: Seq<AlbumModel>) -> bool {
    forall|i: int, j: int|
        0 <= i < s.len() && 0 <= j < s.len() && #[trigger] s[i].title == #[trigger] s[j].title
            ==> i == j
}

/// The deduplicated albums of a sequence of raw tracks: in encounter order,
/// one album per distinct title, the first track that names it deciding.
pub open spec fn dedup_spec(s: Seq<RawTrackModel>) -> Seq<AlbumModel>
    decreases s.len(),
{
    if s.len() == 0 {
        Seq::empty()
    } else {
        let prev = dedup_spec(s.drop_last());
        match s.last().album {
            Some(t) => if has_title(prev, t) {
                prev
            } else {
                prev.push(album_model_of(t))
            },
            None => prev,
        }
    }
}

/// The albums that were inserted: those whose insertion succeeded, in order,
/// each carrying the identifier the catalog assigned.
pub open spec fn inserted_spec(c: Seq<AlbumModel>, o: Seq<Result<usize, CatalogError>>) -> Seq<
    AlbumModel,
>
    recommends
        c.len() == o.len(),
    decreases c.len(),
{
    if c.len() == 0 || o.len() == 0 {
        Seq::empty()
    } else {
        let prev = inserted_spec(c.drop_last(), o.drop_last());
        match o.last() {
            Ok(id) => prev.push(AlbumModel { id: Some(id), ..c.last() }),
            Err(_) => prev,
        }
    }
}

/// The identifier of the first album of `s` titled `t`, if there is one.
pub open spec fn lookup_id(s: Seq<AlbumModel>, t: Seq<char>) -> Option<usize>
    decreases s.len(),
{
    if s.len() == 0 {
        None
    } else if s[0].title == t {
        s[0].id
    } else {
        lookup_id(s.subrange(1, s.len() as int), t)
    }
}

/// The album reference of a track built from `r`, given the inserted albums.
pub open spec fn album_ref_of(r: RawTrackModel, inserted: Seq<AlbumModel>) -> Option<usize> {
    match r.album {
        Some(t) => lookup_id(inserted, t),
        None => None,
    }
}

/// The track built from `r`, linked against the inserted albums.
pub open spec fn track_model_of(r: RawTrackModel, inserted: Seq<AlbumModel>) -> TrackModel {
    TrackModel {
        id: None,
        title: r.title,
        album_id: album_ref_of(r, inserted),
        album: album_candidate(r),
        artist_id: None,
        artist: artist_candidate(r),
        image_url: None,
        stream_url: file_uri_of(r.path),
        uri: file_uri_of(r.path),
        duration: None,
    }
}

/// Builds the album that `raw` names, if it names one.
pub fn album_of(raw: &RawTrack) -> (r: Option<Album>)
    ensures
        opt_album(r) == album_candidate(raw@),
{
    match &raw.album {
        Some(t) => Some(
            Album {
                id: None,
                title: t.clone(),
                artist_id: None,
                image_url: None,
                uri: String::new(),
            },
        ),
        None => None,
    }
}

/// Builds the artist that `raw` names, if it names one.
pub fn artist_of(raw: &RawTrack) -> (r: Option<Artist>)
    ensures
        opt_artist(r) == artist_candidate(raw@),
{
    match &raw.artist {
        Some(n) => Some(Artist { id: None, name: n.clone(), uri: String::new(), image_url: None }),
        None => None,
    }
}

/// Whether some album of `albums` is titled `title`.
fn find_title(albums: &Vec<Album>, title: &String) -> (r: bool)
    ensures
        r == has_title(album_models(albums@), title@),
{
    let ghost m = album_models(albums@);
    let mut k: usize = 0;
    while k < albums.len()
        invariant
            k <= albums.len(),
            m == album_models(albums@),
            forall|j: int| 0 <= j < k ==> m[j].title != title@,
        decreases albums.len() - k,
    {
        if albums[k].title == *title {
            assert(m[k as int].title == title@);
            return true;
        }
        k = k + 1;
    }
    false
}

/// Deduplicates the albums that `raws` name by exact title: in encounter
/// order, the first track naming a title decides its album.
pub fn dedup_albums(raws: &Vec<RawTrack>) -> (r: Vec<Album>)
    ensures
        album_models(r@) == dedup_spec(raw_models(raws@)),
{
    let ghost s = raw_models(raws@);
    let mut out: Vec<Album> = Vec::new();
    let mut i: usize = 0;
    while i < raws.len()
        invariant
            i <= raws.len(),
            s == raw_models(raws@),
            album_models(out@) == dedup_spec(s.subrange(0, i as int)),
        decreases raws.len() - i,
    {
        assert(s.subrange(0, i + 1).drop_last() =~= s.subrange(0, i as int));
        assert(s.subrange(0, i + 1).last() == raws@[i as int]@);
        match album_of(&raws[i]) {
            Some(a) => {
                if !find_title(&out, &a.title) {
                    out.push(a);
                    assert(album_models(out@) =~= dedup_spec(s.subrange(0, i + 1)));
                }
            },
            None => {},
        }
        i = i + 1;
    }
    assert(s.subrange(0, raws.len() as int) =~= s);
    out
}

/// Keeps the albums whose insertion succeeded, in order, each with the
/// identifier the catalog assigned; `outcomes[i]` is the outcome of inserting
/// `candidates[i]`.
pub fn inserted_albums(candidates: &Vec<Album>, outcomes: &Vec<Result<usize, CatalogError>>) -> (r:
    Vec<Album>)
    requires
        candidates.len() == outcomes.len(),
    ensures
        album_models(r@) == inserted_spec(album_models(candidates@), outcomes@),
{
    let ghost c = album_models(candidates@);
    let mut out: Vec<Album> = Vec::new();
    let mut i: usize = 0;
    while i < candidates.len()
        invariant
            i <= candidates.len(),
            candidates.len() == outcomes.len(),
            c == album_models(candidates@),
            album_models(out@) == inserted_spec(c.subrange(0, i as int), outcomes@.subrange(0, i as int)),
        decreases candidates.len() - i,
    {
        assert(c.subrange(0, i + 1).drop_last() =~= c.subrange(0, i as int));
        assert(outcomes@.subrange(0, i + 1).drop_last() =~= outcomes@.subrange(0, i as int));
        match &outcomes[i] {
            Ok(id) => {
                let mut a = candidates[i].copy();
                a.id = Some(*id);
                out.push(a);
                assert(album_models(out@) =~= inserted_spec(c.subrange(0, i + 1), outcomes@.subrange(0, i + 1)));
            },
            Err(_) => {
                assert(album_models(out@) =~= inserted_spec(c.subrange(0, i + 1), outcomes@.subrange(0, i + 1)));
            },
        }
        i = i + 1;
    }
    assert(c.subrange(0, candidates.len() as int) =~= c);
    assert(outcomes@.subrange(0, candidates.len() as int) =~= outcomes@);
    out
}

/// The identifier of the first album of `albums` titled `title`, if any.
fn lookup_album_id(albums: &Vec<Album>, title: &String) -> (r: Option<usize>)
    ensures
        r == lookup_id(album_models(albums@), title@),
{
    let ghost m = album_models(albums@);
    assert(m.subrange(0, m.len() as int) =~= m);
    let mut k: usize = 0;
    while k < albums.len()
        invariant
            k <= albums.len(),
            m == album_models(albums@),
            lookup_id(m, title@) == lookup_id(m.subrange(k as int, m.len() as int), title@),
        decreases albums.len() - k,
    {
        let ghost rest = m.subrange(k as int, m.len() as int);
        assert(rest.subrange(1, rest.len() as int) =~= m.subrange(k + 1, m.len() as int));
        assert(rest[0] == albums@[k as int]@);
        if albums[k].title == *title {
            return albums[k].id;
        }
        k = k + 1;
    }
    None
}

/// Builds the catalog track for `raw`, linking it to the inserted album of
/// the same title where there is one.
pub fn track_of(raw: &RawTrack, inserted: &Vec<Album>) -> (r: Track)
    ensures
        r@ == track_model_of(raw@, album_models(inserted@)),
{
    let album_id = match &raw.album {
        Some(t) => lookup_album_id(inserted, t),
        None => None,
    };
    Track {
        id: None,
        title: raw.title.clone(),
        album_id,
        album: album_of(raw),
        artist_id: None,
        artist: artist_of(raw),
        image_url: None,
        stream_url: file_uri(&raw.path),
        uri: file_uri(&raw.path),
        duration: None,
    }
}

/// Builds the catalog track of every raw track, in order.
pub fn link_tracks(raws: &Vec<RawTrack>, inserted: &Vec<Album>) -> (r: Vec<Track>)
    ensures
        r.len() == raws.len(),
        forall|i: int|
            0 <= i < raws.len() ==> #[trigger] r@[i]@ == track_model_of(
                raws@[i]@,
                album_models(inserted@),
            ),
{
    let mut out: Vec<Track> = Vec::new();
    let mut i: usize = 0;
    while i < raws.len()
        invariant
            i <= raws.len(),
            out.len() == i,
            forall|j: int|
                0 <= j < i ==> #[trigger] out@[j]@ == track_model_of(
                    raws@[j]@,
                    album_models(inserted@),
                ),
        decreases raws.len() - i,
    {
        out.push(track_of(&raws[i], inserted));
        i = i + 1;
    }
    out
}

/// Facts about the deduplicated albums of `s`: their titles are unique, each
/// is the album its title names, and every album title a track names is among
/// them.
proof fn lemma_dedup_shape(s: Seq<RawTrackModel>)
    ensures
        titles_unique(dedup_spec(s)),
        forall|k: int|
            0 <= k < dedup_spec(s).len() ==> #[trigger] dedup_spec(s)[k] == album_model_of(
                dedup_spec(s)[k].title,
            ),
        forall|i: int|
            0 <= i < s.len() && (#[trigger] s[i]).album is Some ==> has_title(
                dedup_spec(s),
                s[i].album->Some_0,
            ),
    decreases s.len(),
{
    if s.len() > 0 {
        let prev = dedup_spec(s.drop_last());
        lemma_dedup_shape(s.drop_last());
        let d = dedup_spec(s);
        assert forall|i: int| 0 <= i < s.len() && (#[trigger] s[i]).album is Some implies has_title(
            d,
            s[i].album->Some_0,
        ) by {
            let t = s[i].album->Some_0;
            if i < s.len() - 1 {
                assert(s.drop_last()[i] == s[i]);
                let k = choose|k: int| 0 <= k < prev.len() && #[trigger] prev[k].title == t;
                assert(d[k] == prev[k]);
            } else {
                if !has_title(prev, t) {
                    assert(d[prev.len() as int].title == t);
                }
            }
        }
    }
}

/// First seen wins: where tracks `i` and `j > i` name the same album title,
/// the deduplicated albums hold exactly one album of that title, and it is the
/// album that track `i` names.
pub proof fn lemma_first_seen_wins(s: Seq<RawTrackModel>, i: int, j: int, title: Seq<char>)
    requires
        0 <= i < j < s.len(),
        s[i].album == Some(title),
        s[j].album == Some(title),
    ensures
        exists|k: int|
            0 <= k < dedup_spec(s).len() && #[trigger] dedup_spec(s)[k] == album_candidate(
                s[i],
            )->Some_0,
        forall|k: int|
            0 <= k < dedup_spec(s).len() && #[trigger] dedup_spec(s)[k].title == title
                ==> dedup_spec(s)[k] == album_candidate(s[i])->Some_0,
{
    lemma_dedup_shape(s);
    assert(has_title(dedup_spec(s), title));
    let k = choose|k: int| 0 <= k < dedup_spec(s).len() && #[trigger] dedup_spec(s)[k].title == title;
    assert(dedup_spec(s)[k] == album_model_of(title));
}

/// Every inserted album is one of the offered albums with an identifier, and
/// the inserted titles are unique where the offered ones are.
proof fn lemma_inserted_shape(c: Seq<AlbumModel>, o: Seq<Result<usize, CatalogError>>)
    requires
        c.len() == o.len(),
    ensures
        forall|k: int|
            0 <= k < inserted_spec(c, o).len() ==> exists|m: int|
                0 <= m < c.len() && #[trigger] inserted_spec(c, o)[k].title == #[trigger] c[m].title,
        titles_unique(c) ==> titles_unique(inserted_spec(c, o)),
    decreases c.len(),
{
    if c.len() > 0 {
        let cp = c.drop_last();
        let op = o.drop_last();
        lemma_inserted_shape(cp, op);
        let prev = inserted_spec(cp, op);
        let ins = inserted_spec(c, o);
        assert forall|k: int| 0 <= k < ins.len() implies exists|m: int|
            0 <= m < c.len() && #[trigger] ins[k].title == #[trigger] c[m].title by {
            if k < prev.len() {
                let m = choose|m: int| 0 <= m < cp.len() && #[trigger] prev[k].title == #[trigger] cp[m].title;
                assert(c[m] == cp[m]);
            } else {
                assert(ins[k].title == c[c.len() - 1].title);
            }
        }
        if titles_unique(c) {
            assert(titles_unique(cp)) by {
                assert forall|a: int, b: int|
                    0 <= a < cp.len() && 0 <= b < cp.len() && #[trigger] cp[a].title == #[trigger] cp[b].title
                    implies a == b by {
                    assert(c[a] == cp[a] && c[b] == cp[b]);
                }
            }
            assert forall|a: int, b: int|
                0 <= a < ins.len() && 0 <= b < ins.len() && #[trigger] ins[a].title == #[trigger] ins[b].title
                implies a == b by {
                if a < prev.len() && b < prev.len() {
                    assert(ins[a] == prev[a] && ins[b] == prev[b]);
                } else if a < prev.len() || b < prev.len() {
                    let x = if a < prev.len() { a } else { b };
                    assert(ins[x] == prev[x]);
                    let m = choose|m: int| 0 <= m < cp.len() && #[trigger] prev[x].title == #[trigger] cp[m].title;
                    assert(c[m] == cp[m]);
                    assert(c[m].title == c[c.len() - 1].title);
                }
            }
        }
    }
}

/// The identifier found for a title is that of the album bearing it, where
/// titles are unique, and absent where no album bears it.
proof fn lemma_lookup(s: Seq<AlbumModel>, t: Seq<char>)
    ensures
        !has_title(s, t) ==> lookup_id(s, t) is None,
        titles_unique(s) ==> forall|k: int|
            0 <= k < s.len() && #[trigger] s[k].title == t ==> lookup_id(s, t) == s[k].id,
    decreases s.len(),
{
    if s.len() > 0 {
        let rest = s.subrange(1, s.len() as int);
        lemma_lookup(rest, t);
        if !has_title(s, t) {
            if has_title(rest, t) {
                let k = choose|k: int| 0 <= k < rest.len() && #[trigger] rest[k].title == t;
                assert(s[k + 1].title == t);
            }
        }
        if titles_unique(s) {
            assert(titles_unique(rest)) by {
                assert forall|a: int, b: int|
                    0 <= a < rest.len() && 0 <= b < rest.len() && #[trigger] rest[a].title == #[trigger] rest[b].title
                    implies a == b by {
                    assert(s[a + 1] == rest[a] && s[b + 1] == rest[b]);
                }
            }
            assert forall|k: int| 0 <= k < s.len() && #[trigger] s[k].title == t implies lookup_id(s, t) == s[k].id by {
                if k > 0 {
                    assert(rest[k - 1] == s[k]);
                    assert(s[0].title != t);
                }
            }
        }
    }
}

/// Linking: a track whose raw track names album title `title` refers to the
/// inserted album of that title where one was inserted, and to none where
/// none was; the inserted albums are the deduplicated albums of the scan
/// whose insertion succeeded.
pub proof fn lemma_track_links_inserted_album(
    s: Seq<RawTrackModel>,
    outcomes: Seq<Result<usize, CatalogError>>,
    i: int,
    title: Seq<char>,
)
    requires
        dedup_spec(s).len() == outcomes.len(),
        0 <= i < s.len(),
        s[i].album == Some(title),
    ensures
        forall|k: int|
            0 <= k < inserted_spec(dedup_spec(s), outcomes).len() && #[trigger] inserted_spec(
                dedup_spec(s),
                outcomes,
            )[k].title == title ==> track_model_of(
                s[i],
                inserted_spec(dedup_spec(s), outcomes),
            ).album_id == inserted_spec(dedup_spec(s), outcomes)[k].id,
        !has_title(inserted_spec(dedup_spec(s), outcomes), title) ==> track_model_of(
            s[i],
            inserted_spec(dedup_spec(s), outcomes),
        ).album_id is None,
{
    lemma_dedup_shape(s);
    lemma_inserted_shape(dedup_spec(s), outcomes);
    lemma_lookup(inserted_spec(dedup_spec(s), outcomes), title);
}

/// A track's stream and content URIs are `file://` followed by its path.
pub proof fn lemma_track_uri(r: RawTrackModel, inserted: Seq<AlbumModel>)
    ensures
        track_model_of(r, inserted).stream_url == "file://"@ + r.path,
        track_model_of(r, inserted).uri == "file://"@ + r.path,
{
}

} // verus!
