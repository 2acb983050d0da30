//! What holds of the driver, whatever it is asked and whatever happens to
//! its actions.

use crate::codec::{
    addressed_to_driver,
    decode_spec,
    encode_spec,
    file_tag,
    flag,
    is_read_request,
    is_write_request,
    read_poke,
    read_request,
    read_tag,
    write_poke,
    write_request,
    write_tag,
    DecodeError,
    Request,
    Response,
};
use crate::driver::{next, rest, ActionModel, DriverError, EventModel, Phase};
use crate::tree::Tree;
use crate::wire::FileWire;
use crate::world::{
    answers_never,
    answers_once,
    enough,
    found,
    handle,
    parent_for,
    serve_all,
    settle,
    undisturbed,
    Locate,
    Settled,
    Store,
    Surroundings,
};
use vstd::prelude::*;
use vstd::utf8::*;

verus! {

/// The three words of the protocol are three different atoms, and none of
/// them is the atom zero.
pub proof fn lemma_words_differ()
    ensures
        file_tag() != read_tag(),
        file_tag() != write_tag(),
        read_tag() != write_tag(),
        file_tag().len() == 4,
        read_tag().len() == 4,
        write_tag().len() == 5,
{
    assert(file_tag()[0] != read_tag()[0]);
}

/// A tree is a read request exactly if it is the tuple of `file`, `read`
/// and one atom, and a write request exactly if it is the tuple of `file`,
/// `write` and a cell of two atoms. No tree is both.
pub proof fn lemma_request_shapes(effect: Tree)
    ensures
        is_read_request(effect) <==> exists|path: Seq<u8>| effect == read_request(path),
        is_write_request(effect) <==> exists|path: Seq<u8>, contents: Seq<u8>|
            effect == write_request(path, contents),
        !(is_read_request(effect) && is_write_request(effect)),
{
    lemma_words_differ();
    if is_read_request(effect) {
        let path = effect.tail().tail().bytes();
        assert(effect =~~= read_request(path));
    }
    if is_write_request(effect) {
        let path = effect.tail().tail().head().bytes();
        let contents = effect.tail().tail().tail().bytes();
        assert(effect =~~= write_request(path, contents));
    }
}

/// Decoding recognises every read request that was made for a path, and
/// gives that path back.
pub proof fn lemma_read_request_decodes(path: Seq<char>)
    ensures
        decode_spec(read_request(encode_utf8(path))) == Ok::<Request, DecodeError>(
            Request::Read { path },
        ),
{
    lemma_words_differ();
    encode_utf8_valid_utf8(path);
    encode_utf8_decode_utf8(path);
}

/// Decoding recognises every write request that was made for a path and
/// for contents, and gives both back; the contents may be any bytes.
pub proof fn lemma_write_request_decodes(path: Seq<char>, contents: Seq<u8>)
    ensures
        decode_spec(write_request(encode_utf8(path), contents)) == Ok::<Request, DecodeError>(
            Request::Write { path, contents },
        ),
{
    lemma_words_differ();
    encode_utf8_valid_utf8(path);
    encode_utf8_decode_utf8(path);
}

/// A request of the right shape whose path is not UTF-8 is an error, not
/// an unrecognised effect. Everything that is neither a read nor a write
/// request is unrecognised, and only that.
pub proof fn lemma_decode_outcomes(effect: Tree)
    ensures
        decode_spec(effect) == Ok::<Request, DecodeError>(Request::Unrecognized) <==> !(
        is_read_request(effect) || is_write_request(effect)),
        !addressed_to_driver(effect) ==> decode_spec(effect) == Ok::<Request, DecodeError>(
            Request::Unrecognized,
        ),
        forall|path: Seq<u8>| !valid_utf8(path) ==> #[trigger] decode_spec(read_request(path))
            == Err::<Request, DecodeError>(DecodeError::PathNotUtf8),
        forall|path: Seq<u8>, contents: Seq<u8>| !valid_utf8(path) ==> #[trigger] decode_spec(
            write_request(path, contents),
        ) == Err::<Request, DecodeError>(DecodeError::PathNotUtf8),
{
    lemma_words_differ();
}

/// A failed read is answered by three elements, a read that succeeded by
/// four, a write by five. So the number of elements alone tells a failed
/// read from one that succeeded.
pub proof fn lemma_response_arity(response: Response)
    ensures
        encode_spec(response).arity() == match response {
            Response::ReadErr => 3nat,
            Response::ReadOk { .. } => 4nat,
            Response::WriteResult { .. } => 5nat,
        },
{
    reveal_with_fuel(Tree::arity, 6);
}

/// Two responses that are carried by the same tree are the same response.
pub proof fn lemma_encode_is_injective(a: Response, b: Response)
    requires
        encode_spec(a) == encode_spec(b),
    ensures
        a == b,
{
    lemma_words_differ();
    lemma_response_arity(a);
    lemma_response_arity(b);
    match (a, b) {
        (
            Response::WriteResult { path: path_a, contents: contents_a, success: success_a },
            Response::WriteResult { path: path_b, contents: contents_b, success: success_b },
        ) => {
            encode_utf8_decode_utf8(path_a);
            encode_utf8_decode_utf8(path_b);
            let tail_a = encode_spec(a).tail().tail();
            let tail_b = encode_spec(b).tail().tail();
            assert(tail_a.head().bytes() == encode_utf8(path_a));
            assert(tail_b.head().bytes() == encode_utf8(path_b));
            assert(tail_a.tail().head().bytes() == contents_a);
            assert(tail_b.tail().head().bytes() == contents_b);
            assert(tail_a.tail().tail() == flag(success_a));
            assert(tail_b.tail().tail() == flag(success_b));
            assert(flag(true) != flag(false)) by {
                assert(flag(false).bytes().len() == 1);
                assert(flag(true).bytes().len() == 0);
            }
        },
        (Response::ReadOk { contents: contents_a }, Response::ReadOk { contents: contents_b }) => {
            assert(encode_spec(a).tail().tail().tail().bytes() == contents_a);
            assert(encode_spec(b).tail().tail().tail().bytes() == contents_b);
        },
        _ => {},
    }
}

/// An effect that is neither a read nor a write request gets no response
/// and leaves the driver at rest: nothing is done on its behalf, the
/// surroundings stay as they were, and the driver asks for the next effect,
/// which it then handles like any first one.
pub proof fn lemma_unrecognized_effect_is_skipped<W>(
    serve: Surroundings<W>,
    world: W,
    effect: Tree,
    parent: Option<Seq<char>>,
)
    requires
        !is_read_request(effect),
        !is_write_request(effect),
    ensures
        next(Phase::AwaitingEffect, EventModel::Effect(effect), parent) == rest(),
        handle(serve, world, Phase::AwaitingEffect, effect, parent) == (Settled {
            world,
            phase: Phase::AwaitingEffect,
            action: ActionModel::Fetch,
            performed: Seq::empty(),
        }),
{
}

/// A request whose path is not UTF-8 stops the driver with a decode error;
/// nothing is done on its behalf and no response goes out.
pub proof fn lemma_invalid_path_stops<W>(
    serve: Surroundings<W>,
    world: W,
    effect: Tree,
    parent: Option<Seq<char>>,
)
    requires
        decode_spec(effect) is Err,
    ensures
        handle(serve, world, Phase::AwaitingEffect, effect, parent) == (Settled {
            world,
            phase: Phase::Stopped { error: DriverError::Decode(DecodeError::PathNotUtf8) },
            action: ActionModel::Stop { error: DriverError::Decode(DecodeError::PathNotUtf8) },
            performed: Seq::empty(),
        }),
{
}

/// The actions that make the directories above a path: one where the path
/// has a parent, none where it has not.
pub open spec fn directories(parent: Option<Seq<char>>) -> Seq<ActionModel> {
    match parent {
        Some(dir) => seq![ActionModel::CreateDirs { dir }],
        None => Seq::empty(),
    }
}

/// The surroundings once the directories above a path were asked for.
pub open spec fn after_directories<W>(
    serve: Surroundings<W>,
    world: W,
    parent: Option<Seq<char>>,
) -> W {
    match parent {
        Some(dir) => serve(world, ActionModel::CreateDirs { dir }).0,
        None => world,
    }
}

/// Every read request is answered, whatever the file store says: the file
/// is asked for once, under the path of the request, and then one response
/// goes out under the label of reads. Where the store gave bytes, the
/// response is the four elements `file`, `read`, zero and those very bytes;
/// where it gave none, the three elements `file`, `read` and zero, and
/// nothing more.
pub proof fn lemma_read_is_answered<W>(
    serve: Surroundings<W>,
    world: W,
    path: Seq<u8>,
    parent: Option<Seq<char>>,
)
    requires
        valid_utf8(path),
        serve(world, ActionModel::Read { path: decode_utf8(path) }).1 is ReadDone,
    ensures
        ({
            let read = ActionModel::Read { path: decode_utf8(path) };
            let end = handle(serve, world, Phase::AwaitingEffect, read_request(path), parent);
            end.performed == seq![
                read,
                ActionModel::Emit {
                    wire: FileWire::Read.label(),
                    poke: read_poke(serve(world, read).1->ReadDone_0),
                },
            ]
        }),
{
    lemma_words_differ();
    reveal_with_fuel(settle, 4);
    let read = ActionModel::Read { path: decode_utf8(path) };
    let end = handle(serve, world, Phase::AwaitingEffect, read_request(path), parent);
    assert(end.performed =~= seq![
        read,
        ActionModel::Emit {
            wire: FileWire::Read.label(),
            poke: read_poke(serve(world, read).1->ReadDone_0),
        },
    ]);
}

/// Where the directories above the path cannot be made, the write is never
/// tried: the one response says that the write failed, and it carries the
/// two atoms of the request as they came.
pub proof fn lemma_failed_directories_fail_the_write<W>(
    serve: Surroundings<W>,
    world: W,
    path: Seq<u8>,
    contents: Seq<u8>,
    dir: Seq<char>,
)
    requires
        valid_utf8(path),
        serve(world, ActionModel::CreateDirs { dir }).1 == EventModel::DirsDone(false),
    ensures
        handle(
            serve,
            world,
            Phase::AwaitingEffect,
            write_request(path, contents),
            Some(dir),
        ).performed == seq![
            ActionModel::CreateDirs { dir },
            ActionModel::Emit {
                wire: FileWire::Write.label(),
                poke: write_poke(path, contents, false),
            },
        ],
{
    lemma_words_differ();
    decode_utf8_encode_utf8(path);
    reveal_with_fuel(settle, 4);
    let end = handle(
        serve,
        world,
        Phase::AwaitingEffect,
        write_request(path, contents),
        Some(dir),
    );
    assert(end.performed =~= seq![
        ActionModel::CreateDirs { dir },
        ActionModel::Emit { wire: FileWire::Write.label(), poke: write_poke(path, contents, false) },
    ]);
}

/// Every write request that gets as far as the write is answered by what
/// the write ended in: after the directories, if the path has a parent,
/// the file is written once, with the path and the contents of the request,
/// and then one response goes out under the label of writes. It carries the
/// two atoms of the request as they came, and the flag says whether the
/// write succeeded.
pub proof fn lemma_write_is_answered<W>(
    serve: Surroundings<W>,
    world: W,
    path: Seq<u8>,
    contents: Seq<u8>,
    parent: Option<Seq<char>>,
    success: bool,
)
    requires
        valid_utf8(path),
        parent matches Some(dir) ==> serve(world, ActionModel::CreateDirs { dir }).1
            == EventModel::DirsDone(true),
        serve(
            after_directories(serve, world, parent),
            ActionModel::Write { path: decode_utf8(path), contents },
        ).1 == EventModel::WriteDone(success),
    ensures
        handle(
            serve,
            world,
            Phase::AwaitingEffect,
            write_request(path, contents),
            parent,
        ).performed == directories(parent) + seq![
            ActionModel::Write { path: decode_utf8(path), contents },
            ActionModel::Emit {
                wire: FileWire::Write.label(),
                poke: write_poke(path, contents, success),
            },
        ],
{
    lemma_words_differ();
    decode_utf8_encode_utf8(path);
    reveal_with_fuel(settle, 4);
    let end = handle(serve, world, Phase::AwaitingEffect, write_request(path, contents), parent);
    assert(end.performed =~= directories(parent) + seq![
        ActionModel::Write { path: decode_utf8(path), contents },
        ActionModel::Emit {
            wire: FileWire::Write.label(),
            poke: write_poke(path, contents, success),
        },
    ]);
}

/// The driver never stalls: whatever the surroundings answer, after at most
/// three actions it asks for the next effect or stops.
pub proof fn lemma_driver_settles<W>(
    serve: Surroundings<W>,
    world: W,
    effect: Tree,
    parent: Option<Seq<char>>,
)
    ensures
        ({
            let end = handle(serve, world, Phase::AwaitingEffect, effect, parent);
            &&& end.performed.len() <= enough()
            &&& end.action is Fetch <==> end.phase is AwaitingEffect
            &&& end.action is Stop <==> end.phase is Stopped
            &&& end.action is Fetch || end.action is Stop
        }),
{
    reveal_with_fuel(settle, 4);
}

/// One response for each request that is accepted, none for anything else.
/// Whenever the driver is back at rest after a read or a write request, or
/// has stopped because the transport refused the response, one response
/// has gone out, as the last thing done, under the label of the request's
/// operation. No effect ever gets two responses, and an effect that is no
/// request, or whose path is not UTF-8, gets none.
pub proof fn lemma_one_response_per_request<W>(
    serve: Surroundings<W>,
    world: W,
    effect: Tree,
    parent: Option<Seq<char>>,
)
    ensures
        ({
            let end = handle(serve, world, Phase::AwaitingEffect, effect, parent);
            let delivered = end.action is Fetch || end.action == (ActionModel::Stop {
                error: DriverError::EmitFailed,
            });
            &&& forall|i: int, j: int|
                0 <= i < j < end.performed.len() ==> !(end.performed[i] is Emit
                    && end.performed[j] is Emit)
            &&& match decode_spec(effect) {
                Ok(Request::Read { .. }) => delivered ==> answers_once(
                    end.performed,
                    FileWire::Read,
                ),
                Ok(Request::Write { .. }) => delivered ==> answers_once(
                    end.performed,
                    FileWire::Write,
                ),
                Ok(Request::Unrecognized) => answers_never(end.performed),
                Err(_) => answers_never(end.performed),
            }
        }),
{
    reveal_with_fuel(settle, 4);
}

/// An effect that is no request leaves no trace in a stream of effects:
/// with it or without it, the same actions are carried out in the same
/// order, and driver and surroundings end up the same. So whatever stands
/// between two requests, the second is served as if it followed the first.
pub proof fn lemma_skipped_effect_leaves_no_trace<W>(
    serve: Surroundings<W>,
    locate: Locate,
    world: W,
    phase: Phase,
    before: Seq<Tree>,
    skipped: Tree,
    after: Seq<Tree>,
)
    requires
        !is_read_request(skipped),
        !is_write_request(skipped),
    ensures
        serve_all(serve, locate, world, phase, before + seq![skipped] + after) == serve_all(
            serve,
            locate,
            world,
            phase,
            before + after,
        ),
    decreases before.len(),
{
    let with = before + seq![skipped] + after;
    let without = before + after;
    if !(phase is AwaitingEffect) {
    } else if before.len() == 0 {
        assert(with.drop_first() =~= after);
        assert(without =~= after);
        assert(with[0] == skipped);
        let first = handle(serve, world, phase, skipped, None);
        let rest = serve_all(serve, locate, world, phase, after);
        assert(first.performed + rest.performed =~= rest.performed);
    } else {
        assert(with[0] == before[0] && without[0] == before[0]);
        assert(with.drop_first() =~= before.drop_first() + seq![skipped] + after);
        assert(without.drop_first() =~= before.drop_first() + after);
        let first = handle(serve, world, phase, before[0], parent_for(locate, before[0]));
        lemma_skipped_effect_leaves_no_trace(
            serve,
            locate,
            first.world,
            first.phase,
            before.drop_first(),
            skipped,
            after,
        );
    }
}

/// On a store that nothing disturbs, a read changes nothing and so can be
/// repeated: a read request is answered with what the store holds under
/// its path, byte for byte, or with the three elements of a failed read
/// where it holds nothing; and a second read is answered like the first.
pub proof fn lemma_read_is_repeatable(store: Store, path: Seq<u8>)
    requires
        valid_utf8(path),
    ensures
        ({
            let first = handle(
                undisturbed(),
                store,
                Phase::AwaitingEffect,
                read_request(path),
                None,
            );
            let second = handle(
                undisturbed(),
                first.world,
                first.phase,
                read_request(path),
                None,
            );
            &&& first.performed == seq![
                ActionModel::Read { path: decode_utf8(path) },
                ActionModel::Emit {
                    wire: FileWire::Read.label(),
                    poke: read_poke(found(store, decode_utf8(path))),
                },
            ]
            &&& first.world == store
            &&& second == first
        }),
{
    lemma_read_is_answered(undisturbed(), store, path, None);
    let first = handle(undisturbed(), store, Phase::AwaitingEffect, read_request(path), None);
    assert(first.world == store && first.phase is AwaitingEffect) by {
        lemma_words_differ();
        reveal_with_fuel(settle, 4);
    }
}

/// On a store that nothing disturbs, the driver changes a file only when it
/// is asked to write it: whatever other effects it is handed, what the
/// store holds under a path stays as it is.
pub proof fn lemma_other_effects_keep_a_file(
    locate: Locate,
    store: Store,
    phase: Phase,
    path: Seq<char>,
    effects: Seq<Tree>,
)
    requires
        forall|i: int|
            0 <= i < effects.len() ==> !(#[trigger] decode_spec(effects[i]) matches Ok(
                Request::Write { path: written, .. },
            ) && written == path),
    ensures
        found(serve_all(undisturbed(), locate, store, phase, effects).world, path) == found(
            store,
            path,
        ),
    decreases effects.len(),
{
    if effects.len() == 0 || !(phase is AwaitingEffect) {
    } else {
        let first = handle(
            undisturbed(),
            store,
            phase,
            effects[0],
            parent_for(locate, effects[0]),
        );
        assert(found(first.world, path) == found(store, path)) by {
            assert(!(decode_spec(effects[0]) matches Ok(Request::Write { path: written, .. })
                && written == path));
            reveal_with_fuel(settle, 4);
        }
        assert forall|i: int| 0 <= i < effects.drop_first().len() implies !(
        #[trigger] decode_spec(effects.drop_first()[i]) matches Ok(
            Request::Write { path: written, .. },
        ) && written == path) by {
            assert(effects.drop_first()[i] == effects[i + 1]);
        }
        lemma_other_effects_keep_a_file(
            locate,
            first.world,
            first.phase,
            path,
            effects.drop_first(),
        );
    }
}

/// On a store that nothing disturbs, what was written is what is read: a
/// write request makes the directories above its path, writes the file and
/// reports success with the request's own atoms. A read request for the
/// same path is then answered with exactly the bytes that were written, as
/// long as the driver was asked for no other write to that path in between
/// and has not stopped.
pub proof fn lemma_write_then_read(
    locate: Locate,
    store: Store,
    path: Seq<u8>,
    contents: Seq<u8>,
    between: Seq<Tree>,
)
    requires
        valid_utf8(path),
        forall|i: int|
            0 <= i < between.len() ==> !(#[trigger] decode_spec(between[i]) matches Ok(
                Request::Write { path: written, .. },
            ) && written == decode_utf8(path)),
    ensures
        ({
            let parent = locate(decode_utf8(path));
            let written = handle(
                undisturbed(),
                store,
                Phase::AwaitingEffect,
                write_request(path, contents),
                parent,
            );
            let later = serve_all(undisturbed(), locate, written.world, written.phase, between);
            let read = handle(undisturbed(), later.world, later.phase, read_request(path), None);
            &&& written.performed == directories(parent) + seq![
                ActionModel::Write { path: decode_utf8(path), contents },
                ActionModel::Emit {
                    wire: FileWire::Write.label(),
                    poke: write_poke(path, contents, true),
                },
            ]
            &&& written.phase is AwaitingEffect
            &&& found(written.world, decode_utf8(path)) == Some(contents)
            &&& parent matches Some(dir) ==> written.world.dirs.contains(dir)
            &&& later.phase is AwaitingEffect ==> read.performed == seq![
                ActionModel::Read { path: decode_utf8(path) },
                ActionModel::Emit {
                    wire: FileWire::Read.label(),
                    poke: read_poke(Some(contents)),
                },
            ]
        }),
{
    let parent = locate(decode_utf8(path));
    lemma_write_is_answered(undisturbed(), store, path, contents, parent, true);
    let written = handle(
        undisturbed(),
        store,
        Phase::AwaitingEffect,
        write_request(path, contents),
        parent,
    );
    assert(found(written.world, decode_utf8(path)) == Some(contents) && (parent matches Some(dir)
        ==> written.world.dirs.contains(dir)) && written.phase is AwaitingEffect) by {
        lemma_words_differ();
        decode_utf8_encode_utf8(path);
        reveal_with_fuel(settle, 4);
    }
    lemma_other_effects_keep_a_file(
        locate,
        written.world,
        written.phase,
        decode_utf8(path),
        between,
    );
    let later = serve_all(undisturbed(), locate, written.world, written.phase, between);
    if later.phase is AwaitingEffect {
        lemma_read_is_answered(undisturbed(), later.world, path, None);
    }
}

} // verus!
