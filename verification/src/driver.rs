//! The driver as a state machine.
//!
//! The driver itself touches neither the file system nor the transport. It
//! is told what happened, as an [`Event`], and says what is to be done next,
//! as an [`Action`]; whoever runs it performs the action and comes back with
//! the event that the action ended in. One effect is handled from fetch to
//! emission before the next is fetched, so no two file operations overlap.
//!
//! ```text
//! AwaitingEffect --effect: read---------------> Reading       [Read]
//! AwaitingEffect --effect: write, has parent--> EnsuringDirs  [CreateDirs]
//! AwaitingEffect --effect: write, no parent---> Writing       [Write]
//! AwaitingEffect --effect: anything else------> AwaitingEffect [Fetch]
//! AwaitingEffect --fetch failed---------------> AwaitingEffect [Fetch]
//! Reading -------read done--------------------> Emitting      [Emit]
//! EnsuringDirs --directories made-------------> Writing       [Write]
//! EnsuringDirs --directories not made---------> Emitting      [Emit]
//! Writing -------write done-------------------> Emitting      [Emit]
//! Emitting ------emitted----------------------> AwaitingEffect [Fetch]
//! ```
//!
//! A path that is not UTF-8, a response that cannot be emitted and an event
//! that the machine does not await stop it; whoever supervises the driver
//! starts a new one.

use crate::codec::{
    decode,
    decode_spec,
    encode,
    encode_spec,
    is_addressed_to_driver,
    DecodeError,
    FileRequest,
    FileResponse,
    Request,
    Response,
};
use crate::path::parent_dir;
use crate::tree::{Tree, TreeValue};
use crate::wire::{Label, WireRepr};
use vstd::prelude::*;

verus! {

/// Why the driver stopped.
#[derive(Clone, Copy, Debug, PartialEq, Eq, Structural)]
pub enum DriverError {
    /// A request was of the right shape and could not be decoded.
    Decode(DecodeError),
    /// The transport did not take a response.
    EmitFailed,
    /// An event came that the driver was not waiting for.
    UnexpectedEvent,
}

/// The mathematical value of the driver's state.
#[verifier::ext_equal]
pub enum Phase {
    AwaitingEffect,
    Reading,
    EnsuringDirs { path: Seq<char>, contents: Seq<u8> },
    Writing { path: Seq<char>, contents: Seq<u8> },
    Emitting,
    Stopped { error: DriverError },
}

/// The state of the driver: what it is waiting for.
#[derive(Debug, PartialEq, Eq)]
pub enum FileDriver {
    /// Waiting for the next effect. This is where the driver rests.
    AwaitingEffect,
    /// Waiting for a file to be read.
    Reading,
    /// Waiting for the directories above `path` to be made.
    EnsuringDirs { path: String, contents: Vec<u8> },
    /// Waiting for `contents` to be written to `path`.
    Writing { path: String, contents: Vec<u8> },
    /// Waiting for the transport to take a response.
    Emitting,
    /// Stopped for good.
    Stopped { error: DriverError },
}

impl View for FileDriver {
    type V = Phase;

    open spec fn view(&self) -> Phase {
        match self {
            FileDriver::AwaitingEffect => Phase::AwaitingEffect,
            FileDriver::Reading => Phase::Reading,
            FileDriver::EnsuringDirs { path, contents } => Phase::EnsuringDirs {
                path: path@,
                contents: contents@,
            },
            FileDriver::Writing { path, contents } => Phase::Writing {
                path: path@,
                contents: contents@,
            },
            FileDriver::Emitting => Phase::Emitting,
            FileDriver::Stopped { error } => Phase::Stopped { error: *error },
        }
    }
}

/// The mathematical value of an event.
#[verifier::ext_equal]
pub enum EventModel {
    Effect(Tree),
    FetchFailed,
    ReadDone(Option<Seq<u8>>),
    DirsDone(bool),
    WriteDone(bool),
    EmitDone(bool),
}

/// What happened since the driver's last action.
#[derive(Debug, PartialEq, Eq)]
pub enum Event {
    /// The next effect arrived.
    Effect(TreeValue),
    /// The source of effects failed to deliver one.
    FetchFailed,
    /// The file was read, with these bytes, or could not be read.
    ReadDone(Option<Vec<u8>>),
    /// The directories were made, or could not be made.
    DirsDone(bool),
    /// The file was written, or could not be written.
    WriteDone(bool),
    /// The transport took the response, or did not.
    EmitDone(bool),
}

impl View for Event {
    type V = EventModel;

    open spec fn view(&self) -> EventModel {
        match self {
            Event::Effect(effect) => EventModel::Effect(effect@),
            Event::FetchFailed => EventModel::FetchFailed,
            Event::ReadDone(Some(contents)) => EventModel::ReadDone(Some(contents@)),
            Event::ReadDone(None) => EventModel::ReadDone(None),
            Event::DirsDone(made) => EventModel::DirsDone(*made),
            Event::WriteDone(written) => EventModel::WriteDone(*written),
            Event::EmitDone(taken) => EventModel::EmitDone(*taken),
        }
    }
}

/// The mathematical value of an action.
#[verifier::ext_equal]
pub enum ActionModel {
    Fetch,
    Read { path: Seq<char> },
    CreateDirs { dir: Seq<char> },
    Write { path: Seq<char>, contents: Seq<u8> },
    Emit { wire: Label, poke: Tree },
    Stop { error: DriverError },
}

/// What is to be done next on the driver's behalf.
#[derive(Debug, PartialEq, Eq)]
pub enum Action {
    /// Wait for the next effect.
    Fetch,
    /// Read the whole file at `path`.
    Read { path: String },
    /// Make the directory `dir` and every directory above it that is missing.
    CreateDirs { dir: String },
    /// Replace the file at `path` by `contents`.
    Write { path: String, contents: Vec<u8> },
    /// Hand `poke` to the transport under the label `wire`.
    Emit { wire: WireRepr, poke: TreeValue },
    /// Give up and report `error` to whoever supervises the driver.
    Stop { error: DriverError },
}

impl View for Action {
    type V = ActionModel;

    open spec fn view(&self) -> ActionModel {
        match self {
            Action::Fetch => ActionModel::Fetch,
            Action::Read { path } => ActionModel::Read { path: path@ },
            Action::CreateDirs { dir } => ActionModel::CreateDirs { dir: dir@ },
            Action::Write { path, contents } => ActionModel::Write {
                path: path@,
                contents: contents@,
            },
            Action::Emit { wire, poke } => ActionModel::Emit { wire: wire@, poke: poke@ },
            Action::Stop { error } => ActionModel::Stop { error: *error },
        }
    }
}

/// The directory as a sequence of characters, where there is one.
pub open spec fn dir_view(parent: Option<String>) -> Option<Seq<char>> {
    match parent {
        Some(dir) => Some(dir@),
        None => None,
    }
}

/// The response to a read that ended in `outcome`.
pub open spec fn read_outcome(outcome: Option<Seq<u8>>) -> Response {
    match outcome {
        Some(contents) => Response::ReadOk { contents },
        None => Response::ReadErr,
    }
}

/// Stopping with `error`.
pub open spec fn stop(error: DriverError) -> (Phase, ActionModel) {
    (Phase::Stopped { error }, ActionModel::Stop { error })
}

/// Going back to wait for the next effect.
pub open spec fn rest() -> (Phase, ActionModel) {
    (Phase::AwaitingEffect, ActionModel::Fetch)
}

/// Emitting `response` under the label of its operation.
pub open spec fn emit(response: Response) -> (Phase, ActionModel) {
    (
        Phase::Emitting,
        ActionModel::Emit { wire: response.operation().label(), poke: encode_spec(response) },
    )
}

/// Writing `contents` to `path`.
pub open spec fn write(path: Seq<char>, contents: Seq<u8>) -> (Phase, ActionModel) {
    (Phase::Writing { path, contents }, ActionModel::Write { path, contents })
}

/// How a write begins: with the directories above the path where the path
/// has a parent, with the write itself where it has none.
pub open spec fn write_plan(path: Seq<char>, contents: Seq<u8>, parent: Option<Seq<char>>) -> (
    Phase,
    ActionModel,
) {
    match parent {
        Some(dir) => (Phase::EnsuringDirs { path, contents }, ActionModel::CreateDirs { dir }),
        None => write(path, contents),
    }
}

/// What the driver does with an effect. `parent` is read only for a write
/// request: it is the directory that holds the request's path, if any.
pub open spec fn accept(effect: Tree, parent: Option<Seq<char>>) -> (Phase, ActionModel) {
    match decode_spec(effect) {
        Ok(Request::Read { path }) => (Phase::Reading, ActionModel::Read { path }),
        Ok(Request::Write { path, contents }) => write_plan(path, contents, parent),
        Ok(Request::Unrecognized) => rest(),
        Err(error) => stop(DriverError::Decode(error)),
    }
}

/// The transition function of the driver: the state after `event` and the
/// action to take. `parent` is read only when the event is a write request.
pub open spec fn next(phase: Phase, event: EventModel, parent: Option<Seq<char>>) -> (
    Phase,
    ActionModel,
) {
    match phase {
        Phase::AwaitingEffect => match event {
            EventModel::Effect(effect) => accept(effect, parent),
            EventModel::FetchFailed => rest(),
            _ => stop(DriverError::UnexpectedEvent),
        },
        Phase::Reading => match event {
            EventModel::ReadDone(outcome) => emit(read_outcome(outcome)),
            _ => stop(DriverError::UnexpectedEvent),
        },
        Phase::EnsuringDirs { path, contents } => match event {
            EventModel::DirsDone(true) => write(path, contents),
            EventModel::DirsDone(false) => emit(
                Response::WriteResult { path, contents, success: false },
            ),
            _ => stop(DriverError::UnexpectedEvent),
        },
        Phase::Writing { path, contents } => match event {
            EventModel::WriteDone(success) => emit(
                Response::WriteResult { path, contents, success },
            ),
            _ => stop(DriverError::UnexpectedEvent),
        },
        Phase::Emitting => match event {
            EventModel::EmitDone(true) => rest(),
            EventModel::EmitDone(false) => stop(DriverError::EmitFailed),
            _ => stop(DriverError::UnexpectedEvent),
        },
        Phase::Stopped { error } => stop(error),
    }
}

/// The event is a write request that reaches a driver at rest: the one case
/// in which the directory above a path is asked for.
pub open spec fn begins_write(phase: Phase, event: EventModel) -> bool {
    &&& phase is AwaitingEffect
    &&& event matches EventModel::Effect(effect)
    &&& decode_spec(effect) matches Ok(Request::Write { .. })
}

/// A driver at rest, ready for its first effect.
pub fn file() -> (driver: FileDriver)
    ensures
        driver@ == Phase::AwaitingEffect,
{
    FileDriver::AwaitingEffect
}

fn stop_with(error: DriverError) -> (r: (FileDriver, Action))
    ensures
        (r.0@, r.1@) == stop(error),
{
    (FileDriver::Stopped { error }, Action::Stop { error })
}

fn write_now(path: String, contents: Vec<u8>) -> (r: (FileDriver, Action))
    ensures
        (r.0@, r.1@) == write(path@, contents@),
{
    let action = Action::Write { path: path.clone(), contents: contents.clone() };
    (FileDriver::Writing { path, contents }, action)
}

/// Turns a response into the emission that delivers it.
pub fn respond(response: FileResponse) -> (r: (FileDriver, Action))
    ensures
        (r.0@, r.1@) == emit(response@),
{
    let wire = response.operation().to_wire();
    let poke = encode(response);
    (FileDriver::Emitting, Action::Emit { wire, poke })
}

/// Begins a write, given the directory that holds `path`, if it has one.
pub fn begin_write(path: String, contents: Vec<u8>, parent: Option<String>) -> (r: (
    FileDriver,
    Action,
))
    ensures
        (r.0@, r.1@) == write_plan(path@, contents@, dir_view(parent)),
{
    match parent {
        Some(dir) => (FileDriver::EnsuringDirs { path, contents }, Action::CreateDirs { dir }),
        None => write_now(path, contents),
    }
}

impl FileDriver {
    /// Whether the driver is at rest, between two effects.
    pub fn is_awaiting_effect(&self) -> (r: bool)
        ensures
            r == (self@ is AwaitingEffect),
    {
        match self {
            FileDriver::AwaitingEffect => true,
            _ => false,
        }
    }

    fn accept(effect: &TreeValue) -> (r: (FileDriver, Action))
        ensures
            exists|parent: Option<Seq<char>>| (r.0@, r.1@) == accept(effect@, parent),
            !(decode_spec(effect@) matches Ok(Request::Write { .. })) ==> (r.0@, r.1@) == accept(
                effect@,
                None,
            ),
    {
        if !is_addressed_to_driver(effect) {
            let r = (FileDriver::AwaitingEffect, Action::Fetch);
            assert((r.0@, r.1@) == accept(effect@, None));
            return r;
        }
        let r = match decode(effect) {
            Ok(FileRequest::Read { path }) => (FileDriver::Reading, Action::Read { path }),
            Ok(FileRequest::Write { path, contents }) => {
                let parent = parent_dir(path.as_str());
                let r = begin_write(path, contents, parent);
                assert((r.0@, r.1@) == accept(effect@, dir_view(parent)));
                return r;
            },
            Ok(FileRequest::Unrecognized) => (FileDriver::AwaitingEffect, Action::Fetch),
            Err(error) => stop_with(DriverError::Decode(error)),
        };
        assert((r.0@, r.1@) == accept(effect@, None));
        r
    }

    /// Takes one step: consumes the event and says what to do next.
    ///
    /// The outcome is that of [`next`]. Only where a write begins does it
    /// depend on more than state and event, namely on the directory that the
    /// platform finds above the request's path.
    pub fn step(self, event: Event) -> (r: (FileDriver, Action))
        ensures
            exists|parent: Option<Seq<char>>| (r.0@, r.1@) == next(self@, event@, parent),
            !begins_write(self@, event@) ==> (r.0@, r.1@) == next(self@, event@, None),
    {
        let r = match (self, event) {
            (FileDriver::AwaitingEffect, Event::Effect(effect)) => {
                let r = FileDriver::accept(&effect);
                proof {
                    let parent = choose|parent: Option<Seq<char>>|
                        (r.0@, r.1@) == accept(effect@, parent);
                    assert((r.0@, r.1@) == next(self@, event@, parent));
                }
                return r;
            },
            (FileDriver::AwaitingEffect, Event::FetchFailed) => (
                FileDriver::AwaitingEffect,
                Action::Fetch,
            ),
            (FileDriver::Reading, Event::ReadDone(Some(contents))) => respond(
                FileResponse::ReadOk { contents },
            ),
            (FileDriver::Reading, Event::ReadDone(None)) => respond(FileResponse::ReadErr),
            (FileDriver::EnsuringDirs { path, contents }, Event::DirsDone(true)) => write_now(
                path,
                contents,
            ),
            (FileDriver::EnsuringDirs { path, contents }, Event::DirsDone(false)) => respond(
                FileResponse::WriteResult { path, contents, success: false },
            ),
            (FileDriver::Writing { path, contents }, Event::WriteDone(success)) => respond(
                FileResponse::WriteResult { path, contents, success },
            ),
            (FileDriver::Emitting, Event::EmitDone(true)) => (
                FileDriver::AwaitingEffect,
                Action::Fetch,
            ),
            (FileDriver::Emitting, Event::EmitDone(false)) => stop_with(DriverError::EmitFailed),
            (FileDriver::Stopped { error }, _) => stop_with(error),
            _ => stop_with(DriverError::UnexpectedEvent),
        };
        assert((r.0@, r.1@) == next(self@, event@, None));
        r
    }
}

} // verus!
