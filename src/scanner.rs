//! The scanner: one raw track for every file the tree walk yields, with the
//! tags its contents hold and the file name's stem as the fallback title.

use vstd::prelude::*;
use crate::model::{copy_opt_str, opt_str, raw_models, RawTrack, RawTrackModel};
use crate::tags::{
    file_stem_of, opt_tags, path_stem, read_id3, tags_of_contents, TagFields, TagModel,
};

verus! {

/// One entry of a walk over the root directory.
#[derive(Clone, Debug, PartialEq, Eq)]
pub enum WalkEntry {
    /// A file, with its contents, or `None` where they could not be read.
    File { path: String, contents: Option<Vec<u8>> },
    /// An entry the walk could not read (a permission denied, a broken link).
    Unreadable { reason: String },
}

/// The title of a track: the tag's title where it has one, else the file
/// name's stem, else the whole path.
pub open spec fn title_of(
    path: Seq<char>,
    tags: Option<TagModel>,
    stem: Option<Seq<char>>,
) -> Seq<char> {
    let tag_title = match tags {
        Some(t) => t.0,
        None => None,
    };
    match tag_title {
        Some(t) => t,
        None => match stem {
            Some(s) => s,
            None => path,
        },
    }
}

/// The raw track of the file at `path`, given its tag and its stem.
pub open spec fn raw_model_of(
    path: Seq<char>,
    tags: Option<TagModel>,
    stem: Option<Seq<char>>,
) -> RawTrackModel {
    RawTrackModel {
        path,
        title: title_of(path, tags, stem),
        album: match tags {
            Some(t) => t.2,
            None => None,
        },
        artist: match tags {
            Some(t) => t.1,
            None => None,
        },
    }
}

/// The contents of a file entry, as bytes.
pub open spec fn contents_view(c: Option<Vec<u8>>) -> Option<Seq<u8>> {
    match c {
        Some(b) => Some(b@),
        None => None,
    }
}

/// The raw track that a file entry gives.
pub open spec fn file_track(path: Seq<char>, contents: Option<Seq<u8>>) -> RawTrackModel {
    raw_model_of(path, tags_of_contents(contents), file_stem_of(path))
}

/// The raw tracks of a walk: one for each file, in walk order.
pub open spec fn scan_spec(entries: Seq<WalkEntry>) -> Seq<RawTrackModel>
    decreases entries.len(),
{
    if entries.len() == 0 {
        Seq::empty()
    } else {
        let prev = scan_spec(entries.drop_last());
        match entries.last() {
            WalkEntry::File { path, contents } => prev.push(
                file_track(path@, contents_view(contents)),
            ),
            WalkEntry::Unreadable { .. } => prev,
        }
    }
}

/// The number of files in a walk.
pub open spec fn file_count(entries: Seq<WalkEntry>) -> nat
    decreases entries.len(),
{
    if entries.len() == 0 {
        0
    } else {
        file_count(entries.drop_last()) + match entries.last() {
            WalkEntry::File { .. } => 1nat,
            WalkEntry::Unreadable { .. } => 0nat,
        }
    }
}

/// Builds the raw track of the file at `path` from its tag and its stem.
pub fn raw_track_from_parts(path: &String, tags: &Option<TagFields>, stem: Option<String>) -> (r:
    RawTrack)
    ensures
        r@ == raw_model_of(path@, opt_tags(*tags), opt_str(stem)),
{
    let (title, artist, album) = match tags {
        Some(t) => (copy_opt_str(&t.title), copy_opt_str(&t.artist), copy_opt_str(&t.album)),
        None => (None, None, None),
    };
    let title = match title {
        Some(t) => t,
        None => match stem {
            Some(s) => s,
            None => path.clone(),
        },
    };
    RawTrack { path: path.clone(), title, album, artist }
}

/// Builds the raw track of a file entry: reads its tag where its contents
/// could be read, and falls back to the file name's stem for the title.
pub fn raw_track(path: &String, contents: &Option<Vec<u8>>) -> (r: RawTrack)
    ensures
        r@ == file_track(path@, contents_view(*contents)),
{
    let tags = match contents {
        Some(b) => read_id3(b),
        None => None,
    };
    let stem = path_stem(path);
    raw_track_from_parts(path, &tags, stem)
}

/// Scans the entries of a walk: a raw track for every file, in walk order;
/// unreadable entries are skipped.
pub fn scan(entries: &Vec<WalkEntry>) -> (r: Vec<RawTrack>)
    ensures
        raw_models(r@) == scan_spec(entries@),
        r.len() == file_count(entries@),
{
    let mut out: Vec<RawTrack> = Vec::new();
    let mut i: usize = 0;
    while i < entries.len()
        invariant
            i <= entries.len(),
            raw_models(out@) == scan_spec(entries@.subrange(0, i as int)),
            out.len() == file_count(entries@.subrange(0, i as int)),
        decreases entries.len() - i,
    {
        let ghost pre = entries@.subrange(0, i + 1);
        assert(pre.drop_last() =~= entries@.subrange(0, i as int));
        match &entries[i] {
            WalkEntry::File { path, contents } => {
                out.push(raw_track(path, contents));
                assert(raw_models(out@) =~= scan_spec(pre));
            },
            WalkEntry::Unreadable { .. } => {},
        }
        i = i + 1;
    }
    assert(entries@.subrange(0, entries.len() as int) =~= entries@);
    out
}

/// A walk of `n` files yields exactly `n` raw tracks, whatever it holds
/// besides; a walk with no unreadable entry yields one per entry.
pub proof fn lemma_one_track_per_file(entries: Seq<WalkEntry>)
    ensures
        scan_spec(entries).len() == file_count(entries),
        (forall|i: int| 0 <= i < entries.len() ==> (#[trigger] entries[i]) is File)
            ==> scan_spec(entries).len() == entries.len(),
    decreases entries.len(),
{
    if entries.len() > 0 {
        lemma_one_track_per_file(entries.drop_last());
        if forall|i: int| 0 <= i < entries.len() ==> (#[trigger] entries[i]) is File {
            assert forall|i: int| 0 <= i < entries.drop_last().len() implies (
            #[trigger] entries.drop_last()[i]) is File by {
                assert(entries.drop_last()[i] == entries[i]);
            }
            assert(entries[entries.len() - 1] is File);
        }
    }
}

} // verus!
