use vstd::prelude::*;

verus! {

/// Every way an upload or a delete request can fail.
#[derive(Debug, Clone, Copy, PartialEq, Eq, Structural)]
pub enum CdnError {
    /// The shared secret is not configured.
    ConfigMissing,
    /// The presented bearer token does not match the shared secret.
    Unauthorized,
    /// The multipart body holds no field.
    MissingField,
    /// The field's bytes could not be read.
    ImproperBytes,
    /// A directory or file name would leave the upload root.
    InvalidPath,
    /// The payload is larger than the configured maximum.
    PayloadTooLarge,
    /// The target's parent directory could not be created.
    DirectoryFailed,
    /// The file could not be written.
    WriteFailed,
    /// The file to delete does not exist.
    NotFound,
    /// The file could not be deleted for another reason.
    DeleteFailed,
}

/// The HTTP status code that reports `e`.
pub open spec fn status_of(e: CdnError) -> u16 {
    match e {
        CdnError::ConfigMissing => 500,
        CdnError::Unauthorized => 401,
        CdnError::MissingField => 400,
        CdnError::ImproperBytes => 400,
        CdnError::InvalidPath => 400,
        CdnError::PayloadTooLarge => 413,
        CdnError::DirectoryFailed => 500,
        CdnError::WriteFailed => 500,
        CdnError::NotFound => 404,
        CdnError::DeleteFailed => 500,
    }
}

/// The human-readable text that reports `e`.
pub open spec fn message_of(e: CdnError) -> Seq<char> {
    match e {
        CdnError::ConfigMissing => "Failed to get auth token from env"@,
        CdnError::Unauthorized => "Incorrect authorization token"@,
        CdnError::MissingField => "Missing image field in the multipart form"@,
        CdnError::ImproperBytes => "Improper bytes sent"@,
        CdnError::InvalidPath => "Directory and file names may not contain '..' segments"@,
        CdnError::PayloadTooLarge => "uploaded files cannot exceed the limit of 30000000 bytes"@,
        CdnError::DirectoryFailed => "Creating the directory failed"@,
        CdnError::WriteFailed => "Writing to file system failed"@,
        CdnError::NotFound => "The requested file was not found on the CDN"@,
        CdnError::DeleteFailed => "Something went wrong when deleting the file"@,
    }
}

impl CdnError {
    /// The HTTP status code of this error.
    pub fn status(&self) -> (r: u16)
        ensures
            r == status_of(*self),
    {
        match self {
            CdnError::ConfigMissing => 500,
            CdnError::Unauthorized => 401,
            CdnError::MissingField => 400,
            CdnError::ImproperBytes => 400,
            CdnError::InvalidPath => 400,
            CdnError::PayloadTooLarge => 413,
            CdnError::DirectoryFailed => 500,
            CdnError::WriteFailed => 500,
            CdnError::NotFound => 404,
            CdnError::DeleteFailed => 500,
        }
    }

    /// The message sent back with this error.
    pub fn message(&self) -> (r: &'static str)
        ensures
            r@ == message_of(*self),
    {
        match self {
            CdnError::ConfigMissing => "Failed to get auth token from env",
            CdnError::Unauthorized => "Incorrect authorization token",
            CdnError::MissingField => "Missing image field in the multipart form",
            CdnError::ImproperBytes => "Improper bytes sent",
            CdnError::InvalidPath => "Directory and file names may not contain '..' segments",
            CdnError::PayloadTooLarge => "uploaded files cannot exceed the limit of 30000000 bytes",
            CdnError::DirectoryFailed => "Creating the directory failed",
            CdnError::WriteFailed => "Writing to file system failed",
            CdnError::NotFound => "The requested file was not found on the CDN",
            CdnError::DeleteFailed => "Something went wrong when deleting the file",
        }
    }
}

} // verus!
