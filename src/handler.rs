use vstd::prelude::*;
use vstd::string::*;

use crate::errors::CdnError;
use crate::models::{DeleteResponse, UploadResponse};
use crate::naming::{choose_filename, is_generated_name};
use crate::paths::{
    delete_target, has_parent_segment, logical_directory, resolve_delete_path, resolve_path,
    trim_slashes, valid_filename, ResolvedPath,
};

verus! {

/// The largest payload, in bytes, that an upload may carry.
pub const MAX_FILE_SIZE: usize = 30000000;

/// The settings that both handlers share.
#[derive(Debug)]
pub struct CdnConfig {
    /// The shared secret that bearer tokens are compared with, if configured.
    pub auth_token: Option<String>,
    /// The public address that relative paths are appended to.
    pub public_url: String,
}

/// How a filesystem call ended, as far as the handlers tell outcomes apart.
#[derive(Debug, Clone, Copy, PartialEq, Eq, Structural)]
pub enum IoOutcome {
    Done,
    AlreadyExists,
    NotFound,
    Failed,
}

/// What checking `token` against the configured secret `secret` gives.
pub open spec fn authorization(secret: Option<String>, token: Seq<char>) -> Result<(), CdnError> {
    match secret {
        None => Err(CdnError::ConfigMissing),
        Some(s) => if s@ == token {
            Ok(())
        } else {
            Err(CdnError::Unauthorized)
        },
    }
}

/// Compares the presented bearer token with the configured shared secret.
pub fn authorize(config: &CdnConfig, token: &String) -> (r: Result<(), CdnError>)
    ensures
        r == authorization(config.auth_token, token@),
{
    match &config.auth_token {
        None => Err(CdnError::ConfigMissing),
        Some(secret) => if secret.eq(token) {
            Ok(())
        } else {
            Err(CdnError::Unauthorized)
        },
    }
}

/// Where an upload request stands between two calls to the outside world.
#[derive(Debug)]
pub enum UploadState {
    /// Authorized; the first multipart field is to be read.
    AwaitingField { directory: Option<String> },
    /// The target is known; its parent directory is to be created.
    AwaitingDirectory { target: ResolvedPath, filename: String },
    /// The directory exists; the field's bytes are to be read.
    AwaitingBody { target: ResolvedPath, filename: String },
    /// The bytes are accepted; the file is to be written.
    AwaitingWrite { target: ResolvedPath, filename: String },
    /// A reply has been decided; nothing more happens.
    Finished,
}

/// What the outside world reports back after an action.
#[derive(Debug)]
pub enum UploadEvent {
    /// The multipart body held no field.
    NoField,
    /// The first field, with the file name it declares, if any.
    Field { declared_filename: Option<String> },
    /// How creating the parent directory ended.
    DirectoryCreated { outcome: IoOutcome },
    /// The field's bytes could not be read.
    BodyUnreadable,
    /// The field's bytes.
    Body { bytes: Vec<u8> },
    /// How writing the file ended.
    Written { outcome: IoOutcome },
}

/// What the outside world is to do next.
#[derive(Debug)]
pub enum UploadAction {
    ReadField,
    /// Create `path` and every missing directory above it.
    CreateDirectory { path: String },
    ReadBody,
    /// Create or truncate the file at `path` and write `bytes` to it.
    WriteFile { path: String, bytes: Vec<u8> },
    /// Send the reply; the request is over.
    Reply { result: Result<UploadResponse, CdnError> },
}

/// `state` can take `event`: the event answers the action that led to the state.
pub open spec fn upload_accepts(state: UploadState, event: UploadEvent) -> bool {
    match state {
        UploadState::AwaitingField { .. } => event is NoField || event is Field,
        UploadState::AwaitingDirectory { .. } => event is DirectoryCreated,
        UploadState::AwaitingBody { .. } => event is BodyUnreadable || event is Body,
        UploadState::AwaitingWrite { .. } => event is Written,
        UploadState::Finished => false,
    }
}

/// The request ends with the error `e`.
pub open spec fn ends_with_error(next: UploadState, action: UploadAction, e: CdnError) -> bool {
    next is Finished && action == (UploadAction::Reply { result: Err(e) })
}

/// `r` reports a file stored as `filename` at `relative` under the public address `public_url`.
pub open spec fn response_matches(
    r: UploadResponse,
    public_url: Seq<char>,
    relative: Seq<char>,
    filename: Seq<char>,
) -> bool {
    &&& r.full_url@ == public_url + relative
    &&& r.path@ == relative
    &&& r.filename@ == filename
}

/// The first state and action of an upload request that presents `token`.
pub open spec fn upload_start(config: CdnConfig, token: Seq<char>, directory: Option<String>) -> (
    UploadState,
    UploadAction,
) {
    match authorization(config.auth_token, token) {
        Err(e) => (UploadState::Finished, UploadAction::Reply { result: Err(e) }),
        Ok(_) => (UploadState::AwaitingField { directory }, UploadAction::ReadField),
    }
}

/// Taking `event` in `state` may lead to `next`, with `action` to perform.
pub open spec fn upload_transition(
    config: CdnConfig,
    state: UploadState,
    event: UploadEvent,
    next: UploadState,
    action: UploadAction,
) -> bool {
    match state {
        UploadState::AwaitingField { directory } => match event {
            UploadEvent::NoField => ends_with_error(next, action, CdnError::MissingField),
            UploadEvent::Field { declared_filename } => {
                let dir = logical_directory(directory);
                if !has_parent_segment(dir) && (declared_filename is Some ==> valid_filename(
                    declared_filename->Some_0@,
                )) {
                    &&& next matches UploadState::AwaitingDirectory { target, filename }
                    &&& declared_filename is Some ==> filename == declared_filename->Some_0
                    &&& declared_filename is None ==> is_generated_name(filename@)
                    &&& target.describes(dir, filename@)
                    &&& action == (UploadAction::CreateDirectory { path: target.parent })
                } else {
                    ends_with_error(next, action, CdnError::InvalidPath)
                }
            },
            _ => false,
        },
        UploadState::AwaitingDirectory { target, filename } => match event {
            UploadEvent::DirectoryCreated { outcome } => if outcome == IoOutcome::Done || outcome
                == IoOutcome::AlreadyExists {
                next == (UploadState::AwaitingBody { target, filename }) && action
                    == UploadAction::ReadBody
            } else {
                ends_with_error(next, action, CdnError::DirectoryFailed)
            },
            _ => false,
        },
        UploadState::AwaitingBody { target, filename } => match event {
            UploadEvent::BodyUnreadable => ends_with_error(next, action, CdnError::ImproperBytes),
            UploadEvent::Body { bytes } => if bytes@.len() > MAX_FILE_SIZE {
                ends_with_error(next, action, CdnError::PayloadTooLarge)
            } else {
                next == (UploadState::AwaitingWrite { target, filename }) && action == (
                UploadAction::WriteFile { path: target.file, bytes })
            },
            _ => false,
        },
        UploadState::AwaitingWrite { target, filename } => match event {
            UploadEvent::Written { outcome } => if outcome == IoOutcome::Done {
                &&& next is Finished
                &&& action matches UploadAction::Reply { result }
                &&& result matches Ok(resp)
                &&& response_matches(resp, config.public_url@, target.relative@, filename@)
            } else {
                ends_with_error(next, action, CdnError::WriteFailed)
            },
            _ => false,
        },
        UploadState::Finished => false,
    }
}

impl UploadState {
    /// Tells whether this state can take `event`.
    pub fn accepts(&self, event: &UploadEvent) -> (r: bool)
        ensures
            r == upload_accepts(*self, *event),
    {
        match self {
            UploadState::AwaitingField { .. } => match event {
                UploadEvent::NoField => true,
                UploadEvent::Field { .. } => true,
                _ => false,
            },
            UploadState::AwaitingDirectory { .. } => match event {
                UploadEvent::DirectoryCreated { .. } => true,
                _ => false,
            },
            UploadState::AwaitingBody { .. } => match event {
                UploadEvent::BodyUnreadable => true,
                UploadEvent::Body { .. } => true,
                _ => false,
            },
            UploadState::AwaitingWrite { .. } => match event {
                UploadEvent::Written { .. } => true,
                _ => false,
            },
            UploadState::Finished => false,
        }
    }
}

proof fn lemma_generated_name_is_valid(s: Seq<char>)
    requires
        is_generated_name(s),
    ensures
        valid_filename(s),
{
    assert forall|i: int| 0 <= i < s.len() implies s[i] != '/' by {
        assert(crate::naming::is_alphanumeric(s[i]));
    }
    assert forall|i: int| !crate::paths::parent_segment_at(s, i) by {
        if 0 <= i < s.len() {
            assert(crate::naming::is_alphanumeric(s[i]));
        }
    }
}

/// The reply to a stored file: its public address, relative path and name.
pub fn upload_response(config: &CdnConfig, target: &ResolvedPath, filename: String) -> (r:
    UploadResponse)
    ensures
        response_matches(r, config.public_url@, target.relative@, filename@),
{
    let mut full_url = config.public_url.clone();
    full_url.append(target.relative.as_str());
    UploadResponse { full_url, filename, path: target.relative.clone() }
}

/// Opens an upload request: checks the bearer token, then asks for the first field.
pub fn start_upload(config: &CdnConfig, token: &String, directory: Option<String>) -> (r: (
    UploadState,
    UploadAction,
))
    ensures
        r == upload_start(*config, token@, directory),
{
    match authorize(config, token) {
        Err(e) => (UploadState::Finished, UploadAction::Reply { result: Err(e) }),
        Ok(()) => (UploadState::AwaitingField { directory }, UploadAction::ReadField),
    }
}

/// Decides what follows when `event` comes back in `state`.
pub fn upload_step(config: &CdnConfig, state: UploadState, event: UploadEvent) -> (r: (
    UploadState,
    UploadAction,
))
    requires
        upload_accepts(state, event),
    ensures
        upload_transition(*config, state, event, r.0, r.1),
{
    // The arms that end in `ReadField` pair a state with an event it does not accept.
    match state {
        UploadState::AwaitingField { directory } => match event {
            UploadEvent::Field { declared_filename } => {
                let ghost declared = declared_filename;
                let filename = choose_filename(declared_filename);
                proof {
                    if declared is None {
                        lemma_generated_name_is_valid(filename@);
                    }
                }
                match resolve_path(&directory, filename.as_str()) {
                    Ok(target) => {
                        let path = target.parent.clone();
                        (
                            UploadState::AwaitingDirectory { target, filename },
                            UploadAction::CreateDirectory { path },
                        )
                    },
                    Err(e) => (UploadState::Finished, UploadAction::Reply { result: Err(e) }),
                }
            },
            _ => (
                UploadState::Finished,
                UploadAction::Reply { result: Err(CdnError::MissingField) },
            ),
        },
        UploadState::AwaitingDirectory { target, filename } => match event {
            UploadEvent::DirectoryCreated { outcome } => match outcome {
                IoOutcome::Done | IoOutcome::AlreadyExists => (
                    UploadState::AwaitingBody { target, filename },
                    UploadAction::ReadBody,
                ),
                _ => (
                    UploadState::Finished,
                    UploadAction::Reply { result: Err(CdnError::DirectoryFailed) },
                ),
            },
            _ => (UploadState::Finished, UploadAction::ReadField),
        },
        UploadState::AwaitingBody { target, filename } => match event {
            UploadEvent::Body { bytes } => if bytes.len() > MAX_FILE_SIZE {
                (
                    UploadState::Finished,
                    UploadAction::Reply { result: Err(CdnError::PayloadTooLarge) },
                )
            } else {
                let path = target.file.clone();
                (UploadState::AwaitingWrite { target, filename }, UploadAction::WriteFile { path, bytes })
            },
            _ => (
                UploadState::Finished,
                UploadAction::Reply { result: Err(CdnError::ImproperBytes) },
            ),
        },
        UploadState::AwaitingWrite { target, filename } => match event {
            UploadEvent::Written { outcome } => match outcome {
                IoOutcome::Done => {
                    let resp = upload_response(config, &target, filename);
                    (UploadState::Finished, UploadAction::Reply { result: Ok(resp) })
                },
                _ => (
                    UploadState::Finished,
                    UploadAction::Reply { result: Err(CdnError::WriteFailed) },
                ),
            },
            _ => (UploadState::Finished, UploadAction::ReadField),
        },
        UploadState::Finished => (UploadState::Finished, UploadAction::ReadField),
    }
}

/// The file that a delete request presenting `token` for `path` removes, or why it is refused.
pub open spec fn delete_start(config: CdnConfig, token: Seq<char>, path: Seq<char>) -> Result<
    Seq<char>,
    CdnError,
> {
    match authorization(config.auth_token, token) {
        Err(e) => Err(e),
        Ok(_) => if !has_parent_segment(trim_slashes(path)) && trim_slashes(path).len() > 0 {
            Ok(delete_target(path))
        } else {
            Err(CdnError::InvalidPath)
        },
    }
}

/// Opens a delete request: checks the bearer token, then names the file to remove.
pub fn start_delete(config: &CdnConfig, token: &String, path: &str) -> (r: Result<String, CdnError>)
    ensures
        r is Ok <==> delete_start(*config, token@, path@) is Ok,
        r is Ok ==> r->Ok_0@ == delete_start(*config, token@, path@)->Ok_0,
        r is Err ==> r->Err_0 == delete_start(*config, token@, path@)->Err_0,
{
    match authorize(config, token) {
        Err(e) => Err(e),
        Ok(()) => resolve_delete_path(path),
    }
}

/// The reply to a delete request whose removal ended with `outcome`.
pub open spec fn delete_result(outcome: IoOutcome) -> Result<Seq<char>, CdnError> {
    match outcome {
        IoOutcome::Done => Ok("File successfully deleted"@),
        IoOutcome::NotFound => Err(CdnError::NotFound),
        _ => Err(CdnError::DeleteFailed),
    }
}

/// Closes a delete request once the removal has ended with `outcome`.
pub fn finish_delete(outcome: IoOutcome) -> (r: Result<DeleteResponse, CdnError>)
    ensures
        r is Ok <==> delete_result(outcome) is Ok,
        r is Ok ==> r->Ok_0.message@ == delete_result(outcome)->Ok_0,
        r is Err ==> r->Err_0 == delete_result(outcome)->Err_0,
{
    match outcome {
        IoOutcome::Done => {
            let message = String::from_str("File successfully deleted");
            proof {
                reveal_strlit("File successfully deleted");
            }
            Ok(DeleteResponse { message })
        },
        IoOutcome::NotFound => Err(CdnError::NotFound),
        _ => Err(CdnError::DeleteFailed),
    }
}

} // verus!
