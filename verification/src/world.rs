//! The driver in its surroundings, as a mathematical model.
//!
//! The driver alone only maps events to actions. What it achieves shows when
//! its actions are carried out: by a file store, by a transport. Here such
//! surroundings are a function that answers every action with an event, and
//! [`handle`] follows the driver from one effect until it rests or stops.

use crate::codec::{decode_spec, Request};
use crate::driver::{next, ActionModel, EventModel, Phase};
use crate::tree::Tree;
use crate::wire::FileWire;
use vstd::prelude::*;

verus! {

/// Surroundings of the driver: given their own state and an action, the state
/// they are in afterwards and the event that the action ended in.
pub type Surroundings<W> = spec_fn(W, ActionModel) -> (W, EventModel);

/// How the handling of one effect ended.
pub struct Settled<W> {
    /// The surroundings afterwards.
    pub world: W,
    /// The state in which the driver was left.
    pub phase: Phase,
    /// The action that the driver asked for last: to fetch, or to stop.
    pub action: ActionModel,
    /// The actions that were carried out, in order.
    pub performed: Seq<ActionModel>,
}

/// Carries out `action` and what follows from it, until the driver asks for
/// the next effect or stops, for at most `steps` actions.
pub open spec fn settle<W>(
    serve: Surroundings<W>,
    world: W,
    phase: Phase,
    action: ActionModel,
    steps: nat,
) -> Settled<W>
    decreases steps,
{
    if steps == 0 || action is Fetch || action is Stop {
        Settled { world, phase, action, performed: Seq::empty() }
    } else {
        let (world_after, event) = serve(world, action);
        let (phase_after, action_after) = next(phase, event, None);
        let rest = settle(serve, world_after, phase_after, action_after, (steps - 1) as nat);
        Settled {
            world: rest.world,
            phase: rest.phase,
            action: rest.action,
            performed: seq![action] + rest.performed,
        }
    }
}

/// The most actions that one effect can ask for: directories, write and
/// emission.
pub open spec fn enough() -> nat {
    3
}

/// Hands `effect` to a driver in state `phase` and carries out what the
/// driver asks for until it rests or stops. `parent` is the directory that
/// the platform finds above the path of a write request.
pub open spec fn handle<W>(
    serve: Surroundings<W>,
    world: W,
    phase: Phase,
    effect: Tree,
    parent: Option<Seq<char>>,
) -> Settled<W> {
    let (phase_after, action) = next(phase, EventModel::Effect(effect), parent);
    settle(serve, world, phase_after, action, enough())
}

/// How the platform finds the directory above a path.
pub type Locate = spec_fn(Seq<char>) -> Option<Seq<char>>;

/// The directory that the platform finds for an effect: that above the path
/// of a write request, and none for anything else.
pub open spec fn parent_for(locate: Locate, effect: Tree) -> Option<Seq<char>> {
    match decode_spec(effect) {
        Ok(Request::Write { path, .. }) => locate(path),
        _ => None,
    }
}

/// What a stream of effects came to.
pub struct Served<W> {
    /// The surroundings afterwards.
    pub world: W,
    /// The state in which the driver was left.
    pub phase: Phase,
    /// The actions that were carried out, in order.
    pub performed: Seq<ActionModel>,
}

/// Hands the effects to the driver one after the other, each when the one
/// before it is done with, for as long as the driver has not stopped.
pub open spec fn serve_all<W>(
    serve: Surroundings<W>,
    locate: Locate,
    world: W,
    phase: Phase,
    effects: Seq<Tree>,
) -> Served<W>
    decreases effects.len(),
{
    if effects.len() == 0 || !(phase is AwaitingEffect) {
        Served { world, phase, performed: Seq::empty() }
    } else {
        let first = handle(serve, world, phase, effects[0], parent_for(locate, effects[0]));
        let rest = serve_all(serve, locate, first.world, first.phase, effects.drop_first());
        Served {
            world: rest.world,
            phase: rest.phase,
            performed: first.performed + rest.performed,
        }
    }
}

/// Among `performed` there is one response, it is what was done last, and
/// it went out under the label of `operation`.
pub open spec fn answers_once(performed: Seq<ActionModel>, operation: FileWire) -> bool {
    &&& performed.len() > 0
    &&& performed.last() matches ActionModel::Emit { wire, .. } && wire == operation.label()
    &&& forall|i: int| 0 <= i < performed.len() - 1 ==> !(#[trigger] performed[i] is Emit)
}

/// Among `performed` there is no response.
pub open spec fn answers_never(performed: Seq<ActionModel>) -> bool {
    forall|i: int| 0 <= i < performed.len() ==> !(#[trigger] performed[i] is Emit)
}

/// A file store in which nothing fails and to which nobody else writes.
#[verifier::ext_equal]
pub struct Store {
    /// The contents of every file, by path.
    pub files: Map<Seq<char>, Seq<u8>>,
    /// The directories that were made.
    pub dirs: Set<Seq<char>>,
}

/// What a read of `path` finds in the store.
pub open spec fn found(store: Store, path: Seq<char>) -> Option<Seq<u8>> {
    if store.files.contains_key(path) {
        Some(store.files[path])
    } else {
        None
    }
}

/// What such a store, and a transport that takes every response, answer to
/// an action.
pub open spec fn undisturbed_answer(store: Store, action: ActionModel) -> (Store, EventModel) {
    match action {
        ActionModel::Read { path } => (store, EventModel::ReadDone(found(store, path))),
        ActionModel::CreateDirs { dir } => (
            Store { files: store.files, dirs: store.dirs.insert(dir) },
            EventModel::DirsDone(true),
        ),
        ActionModel::Write { path, contents } => (
            Store { files: store.files.insert(path, contents), dirs: store.dirs },
            EventModel::WriteDone(true),
        ),
        ActionModel::Emit { .. } => (store, EventModel::EmitDone(true)),
        ActionModel::Fetch => (store, EventModel::FetchFailed),
        ActionModel::Stop { .. } => (store, EventModel::FetchFailed),
    }
}

/// The surroundings made of such a store and such a transport.
pub open spec fn undisturbed() -> Surroundings<Store> {
    |store: Store, action: ActionModel| undisturbed_answer(store, action)
}

} // verus!
