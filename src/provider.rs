//! The local-media provider: a scan of its root directory reconciled into
//! the catalog that the host supplies.

use vstd::prelude::*;
use crate::model::{album_models, Album, AlbumModel, Track};
use crate::reconcile::{
    dedup_albums, dedup_spec, inserted_albums, inserted_spec, link_tracks, CatalogError,
};
use crate::scanner::{file_count, scan, scan_spec, WalkEntry};

verus! {

/// The catalog that a host supplies: it stores albums and tracks and assigns
/// their identifiers.
pub trait Catalog {
    /// Inserts one album and returns the identifier assigned to it.
    fn add_album(&mut self, album: &Album) -> Result<usize, CatalogError>;

    /// Inserts all tracks of a scan at once.
    fn add_tracks(&mut self, tracks: &Vec<Track>) -> Result<(), CatalogError>;
}

/// The root directory could not be walked.
#[derive(Clone, Debug, PartialEq, Eq)]
pub struct FilesystemError {
    pub message: String,
}

/// Why a sync failed.
#[derive(Clone, Debug, PartialEq, Eq)]
pub enum ProviderError {
    /// The root directory could not be walked; nothing was inserted.
    Filesystem(FilesystemError),
    /// The catalog refused the tracks.
    Catalog(CatalogError),
}

/// What a sync inserted.
#[derive(Clone, Copy, Debug, PartialEq, Eq)]
pub struct SyncResult {
    pub tracks: usize,
    pub albums: usize,
    pub artists: usize,
    pub playlists: usize,
}

/// The outcome of a sync, once the catalog has answered the insertion of
/// `tracks` tracks after `albums` albums were inserted.
pub fn sync_result(outcome: Result<(), CatalogError>, tracks: usize, albums: usize) -> (r: Result<
    SyncResult,
    ProviderError,
>)
    ensures
        match outcome {
            Ok(()) => r == Ok::<SyncResult, ProviderError>(
                SyncResult { tracks, albums, artists: 0, playlists: 0 },
            ),
            Err(e) => r == Err::<SyncResult, ProviderError>(ProviderError::Catalog(e)),
        },
{
    match outcome {
        Ok(()) => Ok(SyncResult { tracks, albums, artists: 0, playlists: 0 }),
        Err(e) => Err(ProviderError::Catalog(e)),
    }
}

/// Inserting albums keeps at most as many as were offered.
proof fn lemma_inserted_len(c: Seq<AlbumModel>, o: Seq<Result<usize, CatalogError>>)
    ensures
        inserted_spec(c, o).len() <= c.len(),
    decreases c.len(),
{
    if c.len() != 0 && o.len() != 0 {
        lemma_inserted_len(c.drop_last(), o.drop_last());
    }
}

/// A folder of the provider's browsable tree.
#[derive(Clone, Debug, PartialEq, Eq)]
pub struct ProviderFolder {
    pub folders: Vec<String>,
    pub items: Vec<ProviderItem>,
}

/// An entry of a folder or of search results.
#[derive(Clone, Debug, PartialEq, Eq)]
pub struct ProviderItem {
    pub label: String,
}

/// The provider of the audio files under one root directory.
#[derive(Clone, Debug, PartialEq, Eq)]
pub struct LocalProvider {
    path: String,
}

impl LocalProvider {
    /// A provider of the files under `path`.
    pub fn new(path: String) -> (r: LocalProvider)
        ensures
            r.path() == path,
    {
        LocalProvider { path }
    }

    /// The root directory that this provider scans.
    pub closed spec fn path(&self) -> String {
        self.path
    }

    /// The root directory that this provider scans.
    pub fn root_path(&self) -> (r: &String)
        ensures
            *r == self.path(),
    {
        &self.path
    }

    /// The provider's display name.
    pub fn title(&self) -> (r: &'static str)
        ensures
            r@ == "Local"@,
    {
        "Local"
    }

    /// The URI scheme of the tracks this provider yields.
    pub fn uri_scheme(&self) -> (r: &'static str)
        ensures
            r@ == "file"@,
    {
        "file"
    }

    /// Prepares the provider; there is nothing to prepare.
    pub fn setup(&mut self) -> (r: Result<(), ProviderError>)
        ensures
            r is Ok,
            *final(self) == *old(self),
    {
        Ok(())
    }

    /// Reconciles a walk of the root directory into `catalog`: inserts each
    /// deduplicated album, keeping those the catalog accepts, then inserts a
    /// track for every file, linked to the inserted album of its tag's album
    /// title. A walk that failed is reported without touching the catalog.
    pub fn sync<C: Catalog>(
        &mut self,
        catalog: &mut C,
        walk: Result<Vec<WalkEntry>, FilesystemError>,
    ) -> (r: Result<SyncResult, ProviderError>)
        ensures
            *final(self) == *old(self),
            match walk {
                Err(e) => r == Err::<SyncResult, ProviderError>(ProviderError::Filesystem(e))
                    && *final(catalog) == *old(catalog),
                Ok(entries) => match r {
                    Ok(s) => s.tracks == file_count(entries@) && s.albums <= dedup_spec(
                        scan_spec(entries@),
                    ).len() && s.artists == 0 && s.playlists == 0,
                    Err(e) => e is Catalog,
                },
            },
    {
        let entries = match walk {
            Err(e) => {
                return Err(ProviderError::Filesystem(e));
            },
            Ok(entries) => entries,
        };
        let raws = scan(&entries);
        let candidates = dedup_albums(&raws);
        let mut outcomes: Vec<Result<usize, CatalogError>> = Vec::new();
        let mut i: usize = 0;
        while i < candidates.len()
            invariant
                i <= candidates.len(),
                outcomes.len() == i,
            decreases candidates.len() - i,
        {
            let outcome = catalog.add_album(&candidates[i]);
            outcomes.push(outcome);
            i = i + 1;
        }
        let inserted = inserted_albums(&candidates, &outcomes);
        proof {
            lemma_inserted_len(album_models(candidates@), outcomes@);
        }
        let tracks = link_tracks(&raws, &inserted);
        let outcome = catalog.add_tracks(&tracks);
        sync_result(outcome, tracks.len(), inserted.len())
    }

    /// The root folder: this provider offers no browsing, so it is empty.
    pub fn root(&self) -> (r: ProviderFolder)
        ensures
            r.folders.len() == 0,
            r.items.len() == 0,
    {
        ProviderFolder { folders: Vec::new(), items: Vec::new() }
    }

    /// Navigates to a folder: every path leads to the empty root folder.
    pub fn navigate(&self, path: Vec<String>) -> (r: Result<ProviderFolder, ProviderError>)
        ensures
            r is Ok,
            r->Ok_0.folders.len() == 0,
            r->Ok_0.items.len() == 0,
    {
        Ok(self.root())
    }

    /// Searches the provider: there are never any results.
    pub fn search(&self, query: String) -> (r: Result<Vec<ProviderItem>, ProviderError>)
        ensures
            r is Ok,
            r->Ok_0.len() == 0,
    {
        Ok(Vec::new())
    }

    /// Resolves a track by its URI: this provider resolves none.
    pub fn resolve_track(&self, uri: &str) -> (r: Result<Option<Track>, ProviderError>)
        ensures
            r == Ok::<Option<Track>, ProviderError>(None),
    {
        Ok(None)
    }
}

} // verus!
