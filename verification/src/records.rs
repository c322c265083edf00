//! Records exchanged with the gallery index, the plugin registry and
//! the upload collaborators. The library produces and consumes these
//! as plain values; persistence and transport live outside it.

use vstd::prelude::*;

verus! {

/// One stored gallery row.
#[derive(Debug, Clone)]
pub struct GalleryItem {
    pub id: i64,
    pub file_name: String,
    pub url: String,
    pub host: String,
    pub delete_marker: Option<String>,
    pub inserted_at: String,
    pub filesize: Option<i64>,
}

/// A gallery row to insert; the timestamp and size are optional.
#[derive(Debug, Clone)]
pub struct NewGalleryItem {
    pub file_name: String,
    pub url: String,
    pub host: String,
    pub delete_marker: Option<String>,
    pub inserted_at: Option<String>,
    pub filesize: Option<i64>,
}

/// The filters of a gallery query; every field is optional.
#[derive(Debug, Clone)]
pub struct GalleryQuery {
    pub file_name: Option<String>,
    pub host: Option<String>,
    pub start_utc: Option<String>,
    pub end_utc: Option<String>,
    pub min_filesize: Option<i64>,
    pub max_filesize: Option<i64>,
}

impl Default for GalleryQuery {
    fn default() -> (r: Self)
        ensures
            r.file_name is None,
            r.host is None,
            r.start_utc is None,
            r.end_utc is None,
            r.min_filesize is None,
            r.max_filesize is None,
    {
        GalleryQuery {
            file_name: None,
            host: None,
            start_utc: None,
            end_utc: None,
            min_filesize: None,
            max_filesize: None,
        }
    }
}

/// One discovered image-host plugin: its identifier and script path.
#[derive(Debug, Clone)]
pub struct PluginEntryPayload {
    pub id: String,
    pub script: String,
}

/// The outcome of an object-storage delete.
#[derive(Debug, Clone)]
pub struct S3DeleteResult {
    pub success: bool,
    pub message: Option<String>,
}

/// How a file travels in an upload request.
#[derive(Debug, Clone, Copy, PartialEq, Eq, Structural)]
pub enum UploadFormat {
    Binary,
    Form,
    Base64,
}

} // verus!
