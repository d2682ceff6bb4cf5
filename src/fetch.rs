//! The decisions of one fetch: check for an existing file, request, store.
//!
//! The caller performs each action and hands its result to the next
//! decision: first whether the destination exists, then the reply to the
//! request, then whether the write succeeded.
use vstd::prelude::*;

use crate::task::{ArtifactKind, DownloadTask};

verus! {

/// Why one task failed. None of these stops the other tasks of a batch.
#[derive(Clone, Copy, Debug, PartialEq, Eq, Structural)]
pub enum FetchError {
    /// A file already stands at the destination; nothing was requested.
    AlreadyExists { existing_size: u64 },
    /// The server answered with a status outside 200..=299.
    HttpStatus { code: u16 },
    /// The request could not be made or its body could not be read.
    Network,
    /// The body could not be written to the destination.
    Io,
}

/// The reply to a GET request.
#[derive(Clone, Debug)]
pub enum Reply {
    Received { status: u16, body: Vec<u8> },
    Failed,
}

/// What the caller does next for a task.
#[derive(Debug)]
pub enum Action {
    /// Send one GET request to `url`, asking for JSON where `accept_json` holds.
    Get { url: String, accept_json: bool },
    /// Write exactly `body` to `path`.
    Write { path: String, body: Vec<u8> },
    /// The task is over with this outcome.
    Finish(Result<(), FetchError>),
}

pub open spec fn is_success_status(status: u16) -> bool {
    200 <= status <= 299
}

/// Whether an HTTP status is a success (2xx).
pub fn is_success(status: u16) -> (r: bool)
    ensures
        r == is_success_status(status),
{
    200 <= status && status <= 299
}

/// The first decision, once it is known whether a file stands at the task's
/// destination (`Some` with its size) or not. An existing file ends the task
/// with `AlreadyExists` and no request; otherwise one GET is sent, asking for
/// JSON for a transcript.
pub fn on_existing(task: &DownloadTask, existing: Option<u64>) -> (r: Action)
    ensures
        match existing {
            Some(size) => r == Action::Finish(Err(FetchError::AlreadyExists { existing_size: size })),
            None => r matches Action::Get { url, accept_json } && url@ == task.request_url@
                && accept_json == (task.kind == ArtifactKind::Transcript),
        },
{
    match existing {
        Some(size) => Action::Finish(Err(FetchError::AlreadyExists { existing_size: size })),
        None => Action::Get {
            url: task.request_url.clone(),
            accept_json: task.kind == ArtifactKind::Transcript,
        },
    }
}

/// The decision on the reply to the request. A 2xx reply has its body,
/// unchanged, written to the destination; any other status ends the task
/// with `HttpStatus` and writes nothing; a failed request ends it with
/// `Network`.
pub fn on_reply(task: &DownloadTask, reply: Reply) -> (r: Action)
    ensures
        match reply {
            Reply::Failed => r == Action::Finish(Err(FetchError::Network)),
            Reply::Received { status, body } => if is_success_status(status) {
                r matches Action::Write { path, body: written } && path@ == task.destination@
                    && written@ == body@
            } else {
                r == Action::Finish(Err(FetchError::HttpStatus { code: status }))
            },
        },
{
    match reply {
        Reply::Failed => Action::Finish(Err(FetchError::Network)),
        Reply::Received { status, body } => {
            if is_success(status) {
                Action::Write { path: task.destination.clone(), body }
            } else {
                Action::Finish(Err(FetchError::HttpStatus { code: status }))
            }
        },
    }
}

/// The outcome once the write was attempted.
pub fn on_written(written: bool) -> (r: Result<(), FetchError>)
    ensures
        r == if written {
            Ok::<(), FetchError>(())
        } else {
            Err(FetchError::Io)
        },
{
    if written {
        Ok(())
    } else {
        Err(FetchError::Io)
    }
}

} // verus!
