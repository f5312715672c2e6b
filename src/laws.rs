use vstd::prelude::*;

use crate::errors::{status_of, CdnError};
use crate::handler::{
    authorization, delete_result, delete_start, ends_with_error, upload_accepts, upload_start,
    upload_transition, CdnConfig, IoOutcome, UploadAction, UploadEvent, UploadState, MAX_FILE_SIZE,
};
use crate::paths::{has_parent_segment, logical_directory, trim_slashes, upload_root, ResolvedPath};

verus! {

/// A successful upload reports a `path` that ends its `full_url`.
pub proof fn lemma_reply_path_ends_url(
    config: CdnConfig,
    state: UploadState,
    event: UploadEvent,
    next: UploadState,
    action: UploadAction,
)
    requires
        upload_transition(config, state, event, next, action),
        action matches UploadAction::Reply { result } && result is Ok,
    ensures
        ({
            let resp = action->result->Ok_0;
            &&& resp.path@.len() <= resp.full_url@.len()
            &&& resp.full_url@.subrange(
                resp.full_url@.len() - resp.path@.len(),
                resp.full_url@.len() as int,
            ) == resp.path@
        }),
{
    let resp = action->result->Ok_0;
    let base = config.public_url@;
    assert(resp.full_url@.subrange(base.len() as int, resp.full_url@.len() as int) =~= resp.path@);
}

/// The file that an upload writes holds exactly the bytes that the field carried,
/// at the target path below the upload root.
pub proof fn lemma_write_holds_body(
    config: CdnConfig,
    dir: Seq<char>,
    target: ResolvedPath,
    filename: String,
    bytes: Vec<u8>,
    next: UploadState,
    action: UploadAction,
)
    requires
        target.describes(dir, filename@),
        bytes@.len() <= MAX_FILE_SIZE,
        upload_transition(
            config,
            UploadState::AwaitingBody { target, filename },
            UploadEvent::Body { bytes },
            next,
            action,
        ),
    ensures
        action is WriteFile,
        action->WriteFile_bytes@ == bytes@,
        action->WriteFile_path == target.file,
        action->WriteFile_path@.subrange(0, upload_root().len() as int) == upload_root(),
{
    assert(target.file@.subrange(0, upload_root().len() as int) =~= upload_root());
}

/// A request whose token differs from the configured secret is answered 401
/// before anything touches the filesystem, for uploads and deletes alike.
pub proof fn lemma_wrong_token_is_refused(
    config: CdnConfig,
    token: Seq<char>,
    directory: Option<String>,
    path: Seq<char>,
)
    requires
        config.auth_token is Some,
        config.auth_token->Some_0@ != token,
    ensures
        upload_start(config, token, directory).0 is Finished,
        upload_start(config, token, directory).1 == (UploadAction::Reply {
            result: Err(CdnError::Unauthorized),
        }),
        forall|e: UploadEvent| !upload_accepts(upload_start(config, token, directory).0, e),
        delete_start(config, token, path) == Err::<Seq<char>, CdnError>(CdnError::Unauthorized),
        status_of(CdnError::Unauthorized) == 401,
{
}

/// An upload whose payload exceeds the maximum is answered 413, and no write follows.
pub proof fn lemma_oversized_body_is_refused(
    config: CdnConfig,
    target: ResolvedPath,
    filename: String,
    bytes: Vec<u8>,
    next: UploadState,
    action: UploadAction,
)
    requires
        bytes@.len() > MAX_FILE_SIZE,
        upload_transition(
            config,
            UploadState::AwaitingBody { target, filename },
            UploadEvent::Body { bytes },
            next,
            action,
        ),
    ensures
        ends_with_error(next, action, CdnError::PayloadTooLarge),
        !(action is WriteFile),
        forall|e: UploadEvent| !upload_accepts(next, e),
        status_of(CdnError::PayloadTooLarge) == 413,
{
}

/// The files of a store after `target` is removed, and how the removal ends:
/// removal succeeds exactly on a file that is there.
pub open spec fn remove_from(files: Set<Seq<char>>, target: Seq<char>) -> (
    Set<Seq<char>>,
    IoOutcome,
) {
    if files.contains(target) {
        (files.remove(target), IoOutcome::Done)
    } else {
        (files, IoOutcome::NotFound)
    }
}

/// Deleting the same stored file twice succeeds and then answers 404.
pub proof fn lemma_delete_twice(files: Set<Seq<char>>, target: Seq<char>)
    requires
        files.contains(target),
    ensures
        ({
            let (after, first) = remove_from(files, target);
            let (_, second) = remove_from(after, target);
            &&& delete_result(first) is Ok
            &&& delete_result(second) == Err::<Seq<char>, CdnError>(CdnError::NotFound)
            &&& status_of(CdnError::NotFound) == 404
        }),
{
}

/// A parent directory that already exists does not stop an upload: the body is read next.
pub proof fn lemma_existing_directory_is_reused(
    config: CdnConfig,
    target: ResolvedPath,
    filename: String,
    next: UploadState,
    action: UploadAction,
)
    requires
        upload_transition(
            config,
            UploadState::AwaitingDirectory { target, filename },
            UploadEvent::DirectoryCreated { outcome: IoOutcome::AlreadyExists },
            next,
            action,
        ),
    ensures
        next == (UploadState::AwaitingBody { target, filename }),
        action == UploadAction::ReadBody,
{
}

/// A directory or declared file name with a `..` segment is answered 400 and
/// nothing is created; so is a delete path with one.
pub proof fn lemma_traversal_is_refused(
    config: CdnConfig,
    directory: Option<String>,
    declared_filename: Option<String>,
    next: UploadState,
    action: UploadAction,
    token: Seq<char>,
    path: Seq<char>,
)
    requires
        upload_transition(
            config,
            UploadState::AwaitingField { directory },
            UploadEvent::Field { declared_filename },
            next,
            action,
        ),
        has_parent_segment(logical_directory(directory)) || (declared_filename is Some
            && has_parent_segment(declared_filename->Some_0@)),
    ensures
        ends_with_error(next, action, CdnError::InvalidPath),
        status_of(CdnError::InvalidPath) == 400,
        authorization(config.auth_token, token) is Ok && has_parent_segment(trim_slashes(path))
            ==> delete_start(config, token, path) == Err::<Seq<char>, CdnError>(
            CdnError::InvalidPath,
        ),
{
}

} // verus!
