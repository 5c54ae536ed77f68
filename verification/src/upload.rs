//! The upload machine: what to do next with one request, given what just
//! happened.
//!
//! The machine never reads or writes anything. It is handed one event at a
//! time and answers with its next state and one action for the caller to
//! perform. Parts are worked through one after another, chunks in the order
//! they arrive, and the first failure ends the request.

use vstd::prelude::*;
use crate::path::{candidate, candidate_path, destination, destination_path};
use crate::response::{
    missing_filename,
    server_error,
    uploaded,
    Response,
    ResponseModel,
};

verus! {

/// Where the work on one request stands.
#[derive(Debug, Clone, PartialEq, Eq)]
pub enum UploadState {
    /// Nothing was asked of the request yet.
    Idle,
    /// Waiting for the next part. `last_path` is where the part before it was
    /// written, empty before the first part.
    ReadingPart { last_path: String },
    /// Waiting to learn whether the candidate path of `filename` is taken.
    ResolvingPath { filename: String },
    /// Waiting for the file at `path` to be created.
    OpeningFile { path: String },
    /// Waiting for the next chunk of the part that goes to `path`.
    Streaming { path: String },
    /// Waiting for a chunk to be written to the file at `path`.
    Writing { path: String },
    /// The request was answered with a failure.
    Aborted,
    /// The request was answered with success.
    Succeeded,
}

/// What happened since the machine last asked for something.
#[derive(Debug, Clone, PartialEq, Eq)]
pub enum UploadEvent {
    /// A request arrived.
    Begin,
    /// The next part arrived, with the file name it declares, if any.
    Part { filename: Option<String> },
    /// The request holds no further part.
    NoMoreParts,
    /// The request's body could not be decoded.
    PartFailed { message: String },
    /// The candidate path was looked up.
    PathProbed { occupied: bool },
    /// The file was created.
    FileOpened,
    /// The file could not be created.
    FileOpenFailed { message: String },
    /// The next chunk of the part arrived.
    Chunk { data: Vec<u8> },
    /// The part holds no further chunk.
    NoMoreChunks,
    /// The part's next chunk could not be read.
    ChunkFailed { message: String },
    /// The chunk was written.
    ChunkWritten,
    /// The chunk could not be written.
    WriteFailed { message: String },
}

/// What the caller is to do next.
#[derive(Debug, Clone, PartialEq, Eq)]
pub enum UploadAction {
    /// Read the next part of the request.
    ReadPart,
    /// Look up whether an entry stands at `path`.
    ProbePath { path: String },
    /// Create the file at `path`, empty, replacing what may stand there.
    OpenFile { path: String },
    /// Read the next chunk of the current part.
    ReadChunk,
    /// Append `data` to the open file.
    WriteChunk { data: Vec<u8> },
    /// Close the file at `path`, report it, and read the next part.
    FinishPart { path: String },
    /// Answer the request. Nothing follows.
    Respond { response: Response },
}

/// A state as contracts see it.
pub enum StateModel {
    Idle,
    ReadingPart { last_path: Seq<char> },
    ResolvingPath { filename: Seq<char> },
    OpeningFile { path: Seq<char> },
    Streaming { path: Seq<char> },
    Writing { path: Seq<char> },
    Aborted,
    Succeeded,
}

/// An event as contracts see it.
pub enum EventModel {
    Begin,
    Part { filename: Option<Seq<char>> },
    NoMoreParts,
    PartFailed { message: Seq<char> },
    PathProbed { occupied: bool },
    FileOpened,
    FileOpenFailed { message: Seq<char> },
    Chunk { data: Seq<u8> },
    NoMoreChunks,
    ChunkFailed { message: Seq<char> },
    ChunkWritten,
    WriteFailed { message: Seq<char> },
}

/// An action as contracts see it.
pub enum ActionModel {
    ReadPart,
    ProbePath { path: Seq<char> },
    OpenFile { path: Seq<char> },
    ReadChunk,
    WriteChunk { data: Seq<u8> },
    FinishPart { path: Seq<char> },
    Respond { response: ResponseModel },
}

impl View for UploadState {
    type V = StateModel;

    open spec fn view(&self) -> StateModel {
        match self {
            UploadState::Idle => StateModel::Idle,
            UploadState::ReadingPart { last_path } => StateModel::ReadingPart {
                last_path: last_path@,
            },
            UploadState::ResolvingPath { filename } => StateModel::ResolvingPath {
                filename: filename@,
            },
            UploadState::OpeningFile { path } => StateModel::OpeningFile { path: path@ },
            UploadState::Streaming { path } => StateModel::Streaming { path: path@ },
            UploadState::Writing { path } => StateModel::Writing { path: path@ },
            UploadState::Aborted => StateModel::Aborted,
            UploadState::Succeeded => StateModel::Succeeded,
        }
    }
}

impl View for UploadEvent {
    type V = EventModel;

    open spec fn view(&self) -> EventModel {
        match self {
            UploadEvent::Begin => EventModel::Begin,
            UploadEvent::Part { filename } => EventModel::Part {
                filename: match filename {
                    Some(name) => Some(name@),
                    None => None,
                },
            },
            UploadEvent::NoMoreParts => EventModel::NoMoreParts,
            UploadEvent::PartFailed { message } => EventModel::PartFailed { message: message@ },
            UploadEvent::PathProbed { occupied } => EventModel::PathProbed { occupied: *occupied },
            UploadEvent::FileOpened => EventModel::FileOpened,
            UploadEvent::FileOpenFailed { message } => EventModel::FileOpenFailed {
                message: message@,
            },
            UploadEvent::Chunk { data } => EventModel::Chunk { data: data@ },
            UploadEvent::NoMoreChunks => EventModel::NoMoreChunks,
            UploadEvent::ChunkFailed { message } => EventModel::ChunkFailed { message: message@ },
            UploadEvent::ChunkWritten => EventModel::ChunkWritten,
            UploadEvent::WriteFailed { message } => EventModel::WriteFailed { message: message@ },
        }
    }
}

impl View for UploadAction {
    type V = ActionModel;

    open spec fn view(&self) -> ActionModel {
        match self {
            UploadAction::ReadPart => ActionModel::ReadPart,
            UploadAction::ProbePath { path } => ActionModel::ProbePath { path: path@ },
            UploadAction::OpenFile { path } => ActionModel::OpenFile { path: path@ },
            UploadAction::ReadChunk => ActionModel::ReadChunk,
            UploadAction::WriteChunk { data } => ActionModel::WriteChunk { data: data@ },
            UploadAction::FinishPart { path } => ActionModel::FinishPart { path: path@ },
            UploadAction::Respond { response } => ActionModel::Respond { response: response@ },
        }
    }
}

/// The state and action with which a failure is answered.
pub open spec fn abort_with(response: ResponseModel) -> Option<(StateModel, ActionModel)> {
    Some((StateModel::Aborted, ActionModel::Respond { response }))
}

/// The machine's rule: the next state and the action, for each event that the
/// state waits for; `None` for an event that it does not wait for.
pub open spec fn next(state: StateModel, event: EventModel) -> Option<(StateModel, ActionModel)> {
    match state {
        StateModel::Idle => match event {
            EventModel::Begin => Some(
                (StateModel::ReadingPart { last_path: Seq::empty() }, ActionModel::ReadPart),
            ),
            _ => None,
        },
        StateModel::ReadingPart { last_path } => match event {
            EventModel::Part { filename: Some(name) } => Some(
                (
                    StateModel::ResolvingPath { filename: name },
                    ActionModel::ProbePath { path: candidate(name) },
                ),
            ),
            EventModel::Part { filename: None } => abort_with(missing_filename()),
            EventModel::NoMoreParts => Some(
                (StateModel::Succeeded, ActionModel::Respond { response: uploaded(last_path) }),
            ),
            EventModel::PartFailed { message } => abort_with(server_error(message)),
            _ => None,
        },
        StateModel::ResolvingPath { filename } => match event {
            EventModel::PathProbed { occupied } => Some(
                (
                    StateModel::OpeningFile { path: destination(filename, occupied) },
                    ActionModel::OpenFile { path: destination(filename, occupied) },
                ),
            ),
            _ => None,
        },
        StateModel::OpeningFile { path } => match event {
            EventModel::FileOpened => Some((StateModel::Streaming { path }, ActionModel::ReadChunk)),
            EventModel::FileOpenFailed { message } => abort_with(server_error(message)),
            _ => None,
        },
        StateModel::Streaming { path } => match event {
            EventModel::Chunk { data } => Some(
                (StateModel::Writing { path }, ActionModel::WriteChunk { data }),
            ),
            EventModel::NoMoreChunks => Some(
                (StateModel::ReadingPart { last_path: path }, ActionModel::FinishPart { path }),
            ),
            EventModel::ChunkFailed { message } => abort_with(server_error(message)),
            _ => None,
        },
        StateModel::Writing { path } => match event {
            EventModel::ChunkWritten => Some((StateModel::Streaming { path }, ActionModel::ReadChunk)),
            EventModel::WriteFailed { message } => abort_with(server_error(message)),
            _ => None,
        },
        StateModel::Aborted => None,
        StateModel::Succeeded => None,
    }
}

/// Whether the request was answered: nothing is accepted after that.
pub open spec fn is_terminal(state: StateModel) -> bool {
    state is Aborted || state is Succeeded
}

fn abort(response: Response) -> (r: Option<(UploadState, UploadAction)>)
    ensures
        match r {
            Some((state, action)) => abort_with(response@) == Some((state@, action@)),
            None => false,
        },
{
    Some((UploadState::Aborted, UploadAction::Respond { response }))
}

impl UploadState {
    /// The state of a request that nothing was asked of yet.
    pub fn new() -> (state: UploadState)
        ensures
            state@ == StateModel::Idle,
    {
        UploadState::Idle
    }

    /// Whether the request was answered.
    pub fn is_finished(&self) -> (done: bool)
        ensures
            done == is_terminal(self@),
    {
        match self {
            UploadState::Aborted => true,
            UploadState::Succeeded => true,
            _ => false,
        }
    }

    /// Takes one event and gives the next state with the action to perform,
    /// or `None` where the state does not wait for that event.
    pub fn step(self, event: UploadEvent) -> (r: Option<(UploadState, UploadAction)>)
        ensures
            match r {
                Some((state, action)) => next(self@, event@) == Some((state@, action@)),
                None => next(self@, event@) is None,
            },
    {
        match self {
            UploadState::Idle => match event {
                UploadEvent::Begin => Some(
                    (UploadState::ReadingPart { last_path: String::new() }, UploadAction::ReadPart),
                ),
                _ => None,
            },
            UploadState::ReadingPart { last_path } => match event {
                UploadEvent::Part { filename: Some(name) } => {
                    let path = candidate_path(name.as_str());
                    Some(
                        (
                            UploadState::ResolvingPath { filename: name },
                            UploadAction::ProbePath { path },
                        ),
                    )
                },
                UploadEvent::Part { filename: None } => abort(Response::missing_filename()),
                UploadEvent::NoMoreParts => Some(
                    (
                        UploadState::Succeeded,
                        UploadAction::Respond { response: Response::uploaded(last_path.as_str()) },
                    ),
                ),
                UploadEvent::PartFailed { message } => abort(
                    Response::server_error(message.as_str()),
                ),
                _ => None,
            },
            UploadState::ResolvingPath { filename } => match event {
                UploadEvent::PathProbed { occupied } => {
                    let path = destination_path(filename.as_str(), occupied);
                    let opened = path.clone();
                    Some(
                        (UploadState::OpeningFile { path }, UploadAction::OpenFile { path: opened }),
                    )
                },
                _ => None,
            },
            UploadState::OpeningFile { path } => match event {
                UploadEvent::FileOpened => Some(
                    (UploadState::Streaming { path }, UploadAction::ReadChunk),
                ),
                UploadEvent::FileOpenFailed { message } => abort(
                    Response::server_error(message.as_str()),
                ),
                _ => None,
            },
            UploadState::Streaming { path } => match event {
                UploadEvent::Chunk { data } => Some(
                    (UploadState::Writing { path }, UploadAction::WriteChunk { data }),
                ),
                UploadEvent::NoMoreChunks => {
                    let closed = path.clone();
                    Some(
                        (
                            UploadState::ReadingPart { last_path: path },
                            UploadAction::FinishPart { path: closed },
                        ),
                    )
                },
                UploadEvent::ChunkFailed { message } => abort(
                    Response::server_error(message.as_str()),
                ),
                _ => None,
            },
            UploadState::Writing { path } => match event {
                UploadEvent::ChunkWritten => Some(
                    (UploadState::Streaming { path }, UploadAction::ReadChunk),
                ),
                UploadEvent::WriteFailed { message } => abort(
                    Response::server_error(message.as_str()),
                ),
                _ => None,
            },
            UploadState::Aborted => None,
            UploadState::Succeeded => None,
        }
    }
}

} // verus!
