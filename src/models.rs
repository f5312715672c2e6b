use vstd::prelude::*;

verus! {

/// What a successful upload reports.
#[derive(Debug, Clone, PartialEq, Eq)]
pub struct UploadResponse {
    /// The public address of the stored file.
    pub full_url: String,
    /// The name the file is stored under.
    pub filename: String,
    /// The file's path relative to the upload root, with a leading `/`.
    pub path: String,
}

/// The query string of an upload request.
#[derive(Debug, Clone, PartialEq, Eq)]
pub struct DirectoryQuery {
    /// The logical directory to store the upload in, if any.
    pub directory: Option<String>,
}

/// What a successful delete reports.
#[derive(Debug, Clone, PartialEq, Eq)]
pub struct DeleteResponse {
    /// A confirmation for the client.
    pub message: String,
}

} // verus!
