//! A local-media provider: scans a directory tree of audio files, reads their
//! embedded tags and reconciles the result into a catalog of tracks and
//! deduplicated albums.

pub mod model;
pub mod provider;
pub mod reconcile;
pub mod scanner;
pub mod tags;

pub use model::{file_uri, Album, Artist, RawTrack, Track};
pub use provider::{
    sync_result, Catalog, FilesystemError, LocalProvider, ProviderError, ProviderFolder,
    ProviderItem, SyncResult,
};
pub use reconcile::{
    album_of, artist_of, dedup_albums, inserted_albums, link_tracks, track_of, CatalogError,
};
pub use scanner::{raw_track, raw_track_from_parts, scan, WalkEntry};
pub use tags::TagFields;
