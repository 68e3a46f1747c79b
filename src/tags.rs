//! Tag extraction: the title, artist and album that an audio file's embedded
//! ID3 tag holds, and the file name's stem used where a tag gives no title.

use vstd::prelude::*;
use id3::TagLike;
use crate::model::opt_str;

verus! {

/// The fields of an embedded tag that a scan reads; each may be absent.
#[derive(Clone, Debug, PartialEq, Eq)]
pub struct TagFields {
    pub title: Option<String>,
    pub artist: Option<String>,
    pub album: Option<String>,
}

/// Title, artist and album of a tag, as characters.
pub type TagModel = (Option<Seq<char>>, Option<Seq<char>>, Option<Seq<char>>);

impl View for TagFields {
    type V = TagModel;

    open spec fn view(&self) -> TagModel {
        (opt_str(self.title), opt_str(self.artist), opt_str(self.album))
    }
}

/// The model of an optional tag.
pub open spec fn opt_tags(o: Option<TagFields>) -> Option<TagModel> {
    match o {
        Some(t) => Some(t@),
        None => None,
    }
}

/// The title, artist and album that the ID3 tag held by `bytes` gives, or
/// `None` where no tag can be read from them.
pub uninterp spec fn id3_tag_of(bytes: Seq<u8>) -> Option<(Option<Seq<char>>, Option<Seq<char>>, Option<Seq<char>>)>;

/// The stem of the last component of `path`, where it has one.
pub uninterp spec fn file_stem_of(path: Seq<char>) -> Option<Seq<char>>;

/// Relies on id3's `Tag::read_from2` to decode the tag at the head of the
/// bytes (or in a WAV or AIFF chunk), and on `TagLike::title`, `artist` and
/// `album` to read its TIT2, TPE1 and TALB frames.
#[verifier::external_body]
pub(crate) fn read_id3(bytes: &Vec<u8>) -> (r: Option<TagFields>)
    ensures
        opt_tags(r) == id3_tag_of(bytes@),
{
    match id3::Tag::read_from2(std::io::Cursor::new(bytes.as_slice())) {
        Ok(tag) => Some(TagFields {
            title: tag.title().map(String::from),
            artist: tag.artist().map(String::from),
            album: tag.album().map(String::from),
        }),
        Err(_) => None,
    }
}

/// Relies on std's `Path::file_stem`: the final component of the path without
/// its last extension.
#[verifier::external_body]
pub(crate) fn path_stem(path: &String) -> (r: Option<String>)
    ensures
        opt_str(r) == file_stem_of(path@),
{
    std::path::Path::new(path.as_str()).file_stem().and_then(|s| s.to_str()).map(String::from)
}

/// The tag of a file's contents; a file that could not be read has none.
pub open spec fn tags_of_contents(contents: Option<Seq<u8>>) -> Option<TagModel> {
    match contents {
        Some(b) => id3_tag_of(b),
        None => None,
    }
}

} // verus!
