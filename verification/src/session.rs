//! A request served from beginning to end, as a model.
//!
//! The upload machine only decides. This module says what those decisions
//! come to when each action that the machine asks for is performed on a set
//! of files and nothing fails: which files hold what afterwards, and what is
//! answered. It holds no executable code.

use vstd::prelude::*;
use crate::path::{
    candidate,
    destination,
    is_first_dot,
    lemma_renamed_differs_from_candidate,
    lemma_taken_name_splits_at_first_dot,
    renamed,
};
use crate::response::{missing_filename, uploaded, ResponseModel};
use crate::upload::{is_terminal, next, ActionModel, EventModel, StateModel};

verus! {

/// One part of a request: the file name it declares, if any, and its chunks
/// in the order they arrive.
pub struct PartModel {
    pub filename: Option<Seq<char>>,
    pub chunks: Seq<Seq<u8>>,
}

/// A request under way: the machine's state, what each path holds, and the
/// answer once it was given.
pub struct Session {
    pub state: StateModel,
    pub files: Map<Seq<char>, Seq<u8>>,
    pub response: Option<ResponseModel>,
}

/// The files after an action was performed with success. `state` is the
/// state in which the machine waits for the outcome.
pub open spec fn performed(
    files: Map<Seq<char>, Seq<u8>>,
    state: StateModel,
    action: ActionModel,
) -> Map<Seq<char>, Seq<u8>> {
    match action {
        ActionModel::OpenFile { path } => files.insert(path, Seq::empty()),
        ActionModel::WriteChunk { data } => match state {
            StateModel::Writing { path } => if files.dom().contains(path) {
                files.insert(path, files[path] + data)
            } else {
                files
            },
            _ => files,
        },
        _ => files,
    }
}

/// Hands one event to the machine and performs the action it asks for. An
/// event that the machine does not wait for changes nothing.
pub open spec fn advance(s: Session, event: EventModel) -> Session {
    match next(s.state, event) {
        Some((state, action)) => Session {
            state,
            files: performed(s.files, state, action),
            response: match action {
                ActionModel::Respond { response } => Some(response),
                _ => s.response,
            },
        },
        None => s,
    }
}

/// The bytes of a part: its chunks one after another.
pub open spec fn contents(chunks: Seq<Seq<u8>>) -> Seq<u8>
    decreases chunks.len(),
{
    if chunks.len() == 0 {
        Seq::empty()
    } else {
        chunks[0] + contents(chunks.drop_first())
    }
}

/// Hands over the chunks of a part, each followed by the news that it was
/// written, and then the end of the part.
pub open spec fn feed_chunks(s: Session, chunks: Seq<Seq<u8>>) -> Session
    decreases chunks.len(),
{
    if chunks.len() == 0 {
        advance(s, EventModel::NoMoreChunks)
    } else {
        feed_chunks(
            advance(advance(s, EventModel::Chunk { data: chunks[0] }), EventModel::ChunkWritten),
            chunks.drop_first(),
        )
    }
}

/// Hands over one part: its name, whether its candidate path is taken in the
/// files as they stand, the news that its file was created, and its chunks.
pub open spec fn feed_part(s: Session, part: PartModel) -> Session {
    match part.filename {
        None => advance(s, EventModel::Part { filename: None }),
        Some(name) => {
            let named = advance(s, EventModel::Part { filename: Some(name) });
            let probed = advance(
                named,
                EventModel::PathProbed { occupied: named.files.dom().contains(candidate(name)) },
            );
            let opened = advance(probed, EventModel::FileOpened);
            feed_chunks(opened, part.chunks)
        },
    }
}

/// Hands over the parts of a request in the order they arrive, and then the
/// end of the request.
pub open spec fn feed_parts(s: Session, parts: Seq<PartModel>) -> Session
    decreases parts.len(),
{
    if parts.len() == 0 {
        advance(s, EventModel::NoMoreParts)
    } else {
        feed_parts(feed_part(s, parts[0]), parts.drop_first())
    }
}

/// Serves one request with the given parts on the given files.
pub open spec fn serve(files: Map<Seq<char>, Seq<u8>>, parts: Seq<PartModel>) -> Session {
    feed_parts(
        advance(Session { state: StateModel::Idle, files, response: None }, EventModel::Begin),
        parts,
    )
}

/// The path a part with this name is written to, given the files as they
/// stand when the part arrives.
pub open spec fn part_path(files: Map<Seq<char>, Seq<u8>>, name: Seq<char>) -> Seq<char> {
    destination(name, files.dom().contains(candidate(name)))
}

/// The files after the parts were stored one by one, up to the first part
/// that names no file.
pub open spec fn stored(files: Map<Seq<char>, Seq<u8>>, parts: Seq<PartModel>) -> Map<
    Seq<char>,
    Seq<u8>,
>
    decreases parts.len(),
{
    if parts.len() == 0 {
        files
    } else {
        match parts[0].filename {
            Some(name) => stored(
                files.insert(part_path(files, name), contents(parts[0].chunks)),
                parts.drop_first(),
            ),
            None => files,
        }
    }
}

/// The answer to a request with these parts: the path of the last part, or
/// the complaint about the first part that names no file. `last` is the path
/// written before these parts.
pub open spec fn answer(
    files: Map<Seq<char>, Seq<u8>>,
    parts: Seq<PartModel>,
    last: Seq<char>,
) -> ResponseModel
    decreases parts.len(),
{
    if parts.len() == 0 {
        uploaded(last)
    } else {
        match parts[0].filename {
            Some(name) => answer(
                files.insert(part_path(files, name), contents(parts[0].chunks)),
                parts.drop_first(),
                part_path(files, name),
            ),
            None => missing_filename(),
        }
    }
}

/// Whether every part names a file.
pub open spec fn all_named(parts: Seq<PartModel>) -> bool {
    forall|i: int| 0 <= i < parts.len() ==> (#[trigger] parts[i]).filename is Some
}

/// Streaming a part appends its chunks, in order, to the file that was
/// opened for it, and leaves the machine waiting for the next part.
pub proof fn lemma_feed_chunks(s: Session, path: Seq<char>, chunks: Seq<Seq<u8>>)
    requires
        s.state == (StateModel::Streaming { path }),
        s.files.dom().contains(path),
    ensures
        feed_chunks(s, chunks) == (Session {
            state: StateModel::ReadingPart { last_path: path },
            files: s.files.insert(path, s.files[path] + contents(chunks)),
            response: s.response,
        }),
    decreases chunks.len(),
{
    if chunks.len() == 0 {
        assert(s.files[path] + contents(chunks) =~= s.files[path]);
        assert(s.files.insert(path, s.files[path]) =~= s.files);
    } else {
        let written = advance(
            advance(s, EventModel::Chunk { data: chunks[0] }),
            EventModel::ChunkWritten,
        );
        let rest = chunks.drop_first();
        lemma_feed_chunks(written, path, rest);
        assert(written.files[path] + contents(rest) =~= s.files[path] + contents(chunks));
        assert(written.files.insert(path, written.files[path] + contents(rest))
            =~= s.files.insert(path, s.files[path] + contents(chunks)));
    }
}

/// A part that names a file ends up, whole, at its path, and the machine
/// waits for the next part.
pub proof fn lemma_feed_named_part(s: Session, part: PartModel)
    requires
        s.state is ReadingPart,
        part.filename is Some,
    ensures
        feed_part(s, part) == (Session {
            state: StateModel::ReadingPart {
                last_path: part_path(s.files, part.filename->Some_0),
            },
            files: s.files.insert(
                part_path(s.files, part.filename->Some_0),
                contents(part.chunks),
            ),
            response: s.response,
        }),
{
    let name = part.filename->Some_0;
    let path = part_path(s.files, name);
    let named = advance(s, EventModel::Part { filename: Some(name) });
    let probed = advance(
        named,
        EventModel::PathProbed { occupied: named.files.dom().contains(candidate(name)) },
    );
    let opened = advance(probed, EventModel::FileOpened);
    assert(named.files == s.files);
    assert(opened.state == (StateModel::Streaming { path }));
    assert(opened.files == s.files.insert(path, Seq::empty()));
    lemma_feed_chunks(opened, path, part.chunks);
    assert(opened.files[path] + contents(part.chunks) =~= contents(part.chunks));
    assert(opened.files.insert(path, contents(part.chunks)) =~= s.files.insert(
        path,
        contents(part.chunks),
    ));
}

/// Once a request was answered, nothing that arrives changes anything.
pub proof fn lemma_answered_stays(s: Session, parts: Seq<PartModel>)
    requires
        s.state is Aborted || s.state is Succeeded,
    ensures
        feed_parts(s, parts) == s,
    decreases parts.len(),
{
    if parts.len() > 0 {
        lemma_answered_ignores_chunks(s, parts[0].chunks);
        assert(feed_part(s, parts[0]) == s);
        lemma_answered_stays(s, parts.drop_first());
    }
}

/// Once a request was answered, chunks that arrive change nothing.
pub proof fn lemma_answered_ignores_chunks(s: Session, chunks: Seq<Seq<u8>>)
    requires
        s.state is Aborted || s.state is Succeeded,
    ensures
        feed_chunks(s, chunks) == s,
    decreases chunks.len(),
{
    if chunks.len() > 0 {
        lemma_answered_ignores_chunks(s, chunks.drop_first());
    }
}

/// Feeding parts to a machine that waits for one stores them in the order
/// they arrive and answers as `answer` says.
pub proof fn lemma_feed_parts(s: Session, parts: Seq<PartModel>)
    requires
        s.state is ReadingPart,
    ensures
        feed_parts(s, parts).files == stored(s.files, parts),
        feed_parts(s, parts).response == Some(
            answer(s.files, parts, s.state->ReadingPart_last_path),
        ),
        feed_parts(s, parts).state == if all_named(parts) {
            StateModel::Succeeded
        } else {
            StateModel::Aborted
        },
    decreases parts.len(),
{
    if parts.len() == 0 {
    } else {
        let rest = parts.drop_first();
        match parts[0].filename {
            Some(name) => {
                lemma_feed_named_part(s, parts[0]);
                lemma_feed_parts(feed_part(s, parts[0]), rest);
                if all_named(parts) {
                    assert forall|i: int| 0 <= i < rest.len() implies (#[trigger] rest[i]).filename is Some by {
                        assert(rest[i] == parts[i + 1]);
                    }
                } else {
                    if all_named(rest) {
                        assert forall|i: int| 0 <= i < parts.len() implies (#[trigger] parts[i]).filename is Some by {
                            if i > 0 {
                                assert(parts[i] == rest[i - 1]);
                            }
                        }
                    }
                }
            },
            None => {
                let aborted = feed_part(s, parts[0]);
                lemma_answered_stays(aborted, rest);
                assert(!all_named(parts));
            },
        }
    }
}

/// A request is served as `stored` and `answer` say: each part that names a
/// file is written to its own path, in the order of arrival, until a part
/// names none.
pub proof fn lemma_serve(files: Map<Seq<char>, Seq<u8>>, parts: Seq<PartModel>)
    ensures
        serve(files, parts).files == stored(files, parts),
        serve(files, parts).response == Some(answer(files, parts, Seq::empty())),
        serve(files, parts).state == if all_named(parts) {
            StateModel::Succeeded
        } else {
            StateModel::Aborted
        },
{
    let begun = advance(Session { state: StateModel::Idle, files, response: None }, EventModel::Begin);
    lemma_feed_parts(begun, parts);
}

/// A single part with a name that is not taken: the answer names `./` and
/// the file name, and that path holds exactly the part's chunks, one after
/// another. No other path changes.
pub proof fn lemma_fresh_upload(
    files: Map<Seq<char>, Seq<u8>>,
    name: Seq<char>,
    chunks: Seq<Seq<u8>>,
)
    requires
        !files.dom().contains("./"@ + name),
    ensures
        serve(files, seq![PartModel { filename: Some(name), chunks }]).response == Some(
            uploaded("./"@ + name),
        ),
        serve(files, seq![PartModel { filename: Some(name), chunks }]).files == files.insert(
            "./"@ + name,
            contents(chunks),
        ),
{
    let parts = seq![PartModel { filename: Some(name), chunks }];
    lemma_serve(files, parts);
    lemma_unfold_single(files, parts, Seq::empty());
}

/// A single part whose candidate path is taken and whose name has a `.`: the
/// answer names the path with `_new` before the first `.`, and the entry
/// that stood at the candidate keeps what it held.
pub proof fn lemma_taken_upload(
    files: Map<Seq<char>, Seq<u8>>,
    name: Seq<char>,
    k: int,
    chunks: Seq<Seq<u8>>,
)
    requires
        files.dom().contains("./"@ + name),
        is_first_dot(name, k),
    ensures
        serve(files, seq![PartModel { filename: Some(name), chunks }]).response == Some(
            uploaded(
                "./"@ + name.subrange(0, k) + "_new."@ + name.subrange(k + 1, name.len() as int),
            ),
        ),
        serve(files, seq![PartModel { filename: Some(name), chunks }]).files == files.insert(
            renamed(name),
            contents(chunks),
        ),
        serve(files, seq![PartModel { filename: Some(name), chunks }]).files["./"@ + name]
            == files["./"@ + name],
{
    let parts = seq![PartModel { filename: Some(name), chunks }];
    lemma_serve(files, parts);
    lemma_unfold_single(files, parts, Seq::empty());
    lemma_taken_name_splits_at_first_dot(name, k);
    lemma_renamed_differs_from_candidate(name);
}

/// What `stored` and `answer` come to for a request of one named part.
proof fn lemma_unfold_single(
    files: Map<Seq<char>, Seq<u8>>,
    parts: Seq<PartModel>,
    last: Seq<char>,
)
    requires
        parts.len() == 1,
        parts[0].filename is Some,
    ensures
        stored(files, parts) == files.insert(
            part_path(files, parts[0].filename->Some_0),
            contents(parts[0].chunks),
        ),
        answer(files, parts, last) == uploaded(part_path(files, parts[0].filename->Some_0)),
{
    let rest = parts.drop_first();
    assert(rest.len() == 0);
    let after = files.insert(
        part_path(files, parts[0].filename->Some_0),
        contents(parts[0].chunks),
    );
    assert(stored(after, rest) == after);
    assert(answer(after, rest, part_path(files, parts[0].filename->Some_0)) == uploaded(
        part_path(files, parts[0].filename->Some_0),
    ));
}

/// A request whose first part names no file is answered with the complaint
/// about the missing name, and no file is created or changed, whatever
/// follows that part.
pub proof fn lemma_missing_filename_creates_nothing(
    files: Map<Seq<char>, Seq<u8>>,
    parts: Seq<PartModel>,
)
    requires
        parts.len() > 0,
        parts[0].filename is None,
    ensures
        serve(files, parts).response == Some(missing_filename()),
        serve(files, parts).files == files,
        serve(files, parts).state == StateModel::Aborted,
{
    lemma_serve(files, parts);
    assert(!all_named(parts));
}

/// A part that names no file ends the request there: the parts before it are
/// stored, it and the parts after it are not, and the answer is the
/// complaint about the missing name.
pub proof fn lemma_missing_filename_stops(
    files: Map<Seq<char>, Seq<u8>>,
    parts: Seq<PartModel>,
    i: int,
)
    requires
        0 <= i < parts.len(),
        parts[i].filename is None,
        all_named(parts.take(i)),
    ensures
        serve(files, parts).response == Some(missing_filename()),
        serve(files, parts).files == stored(files, parts.take(i)),
{
    lemma_serve(files, parts);
    lemma_stops_at_unnamed(files, parts, i, Seq::empty());
}

proof fn lemma_stops_at_unnamed(
    files: Map<Seq<char>, Seq<u8>>,
    parts: Seq<PartModel>,
    i: int,
    last: Seq<char>,
)
    requires
        0 <= i < parts.len(),
        parts[i].filename is None,
        all_named(parts.take(i)),
    ensures
        answer(files, parts, last) == missing_filename(),
        stored(files, parts) == stored(files, parts.take(i)),
    decreases i,
{
    if i == 0 {
        assert(parts.take(0).len() == 0);
    } else {
        let head = parts.take(i);
        assert(head[0] == parts[0]);
        let name = parts[0].filename->Some_0;
        let after = files.insert(part_path(files, name), contents(parts[0].chunks));
        let rest = parts.drop_first();
        assert(rest[i - 1] == parts[i]);
        assert(rest.take(i - 1) =~= head.drop_first());
        assert forall|j: int| 0 <= j < rest.take(i - 1).len() implies (#[trigger] rest.take(
            i - 1,
        )[j]).filename is Some by {
            assert(rest.take(i - 1)[j] == head[j + 1]);
        }
        lemma_stops_at_unnamed(after, rest, i - 1, part_path(files, name));
    }
}

/// Where every part names a file, the answer names the path of the last
/// part only, and that part is written after all the others: to the path
/// its name gets in the files as the parts before it left them.
pub proof fn lemma_last_part_is_reported(files: Map<Seq<char>, Seq<u8>>, parts: Seq<PartModel>)
    requires
        parts.len() > 0,
        all_named(parts),
    ensures
        serve(files, parts).response == Some(
            uploaded(
                part_path(stored(files, parts.drop_last()), parts.last().filename->Some_0),
            ),
        ),
        serve(files, parts).files == stored(files, parts.drop_last()).insert(
            part_path(stored(files, parts.drop_last()), parts.last().filename->Some_0),
            contents(parts.last().chunks),
        ),
{
    lemma_serve(files, parts);
    lemma_last_part(files, parts, Seq::empty());
}

proof fn lemma_last_part(files: Map<Seq<char>, Seq<u8>>, parts: Seq<PartModel>, last: Seq<char>)
    requires
        parts.len() > 0,
        all_named(parts),
    ensures
        answer(files, parts, last) == uploaded(
            part_path(stored(files, parts.drop_last()), parts.last().filename->Some_0),
        ),
        stored(files, parts) == stored(files, parts.drop_last()).insert(
            part_path(stored(files, parts.drop_last()), parts.last().filename->Some_0),
            contents(parts.last().chunks),
        ),
    decreases parts.len(),
{
    let name = parts[0].filename->Some_0;
    let after = files.insert(part_path(files, name), contents(parts[0].chunks));
    let rest = parts.drop_first();
    if parts.len() == 1 {
        assert(parts.drop_last().len() == 0);
        assert(rest.len() == 0);
        assert(stored(after, rest) == after);
        assert(answer(after, rest, part_path(files, name)) == uploaded(part_path(files, name)));
    } else {
        assert forall|j: int| 0 <= j < rest.len() implies (#[trigger] rest[j]).filename is Some by {
            assert(rest[j] == parts[j + 1]);
        }
        lemma_last_part(after, rest, part_path(files, name));
        let front = parts.drop_last();
        assert(front[0] == parts[0]);
        assert(front.drop_first() =~= rest.drop_last());
        assert(rest.last() == parts.last());
        assert(stored(files, front) == stored(after, rest.drop_last()));
    }
}

/// Uploading a file under a name that is not taken, and then the same file
/// again: the second request is answered with the rewritten path, and the
/// two paths hold the same bytes, those of the part.
pub proof fn lemma_upload_twice(
    files: Map<Seq<char>, Seq<u8>>,
    name: Seq<char>,
    chunks: Seq<Seq<u8>>,
)
    requires
        !files.dom().contains(candidate(name)),
    ensures
        ({
            let parts = seq![PartModel { filename: Some(name), chunks }];
            let first = serve(files, parts);
            let second = serve(first.files, parts);
            &&& first.response == Some(uploaded(candidate(name)))
            &&& second.response == Some(uploaded(renamed(name)))
            &&& renamed(name) != candidate(name)
            &&& second.files.dom().contains(candidate(name))
            &&& second.files.dom().contains(renamed(name))
            &&& second.files[candidate(name)] == contents(chunks)
            &&& second.files[renamed(name)] == contents(chunks)
        }),
{
    let parts = seq![PartModel { filename: Some(name), chunks }];
    let first = serve(files, parts);
    lemma_serve(files, parts);
    lemma_unfold_single(files, parts, Seq::empty());
    lemma_serve(first.files, parts);
    lemma_unfold_single(first.files, parts, Seq::empty());
    lemma_renamed_differs_from_candidate(name);
}

/// A request that is aborted keeps every file as it stood at that moment:
/// nothing is taken back or removed, and the answer is a failure.
pub proof fn lemma_abort_keeps_files(s: Session, event: EventModel)
    requires
        !(s.state is Aborted),
        advance(s, event).state is Aborted,
    ensures
        advance(s, event).files == s.files,
        advance(s, event).response is Some,
        advance(s, event).response->Some_0.status == 400 || advance(
            s,
            event,
        ).response->Some_0.status == 500,
{
}

/// The machine answers a request exactly when it ends it: an accepted event
/// leads to a final state if and only if the action is the answer.
pub proof fn lemma_answer_ends_request(state: StateModel, event: EventModel)
    requires
        next(state, event) is Some,
    ensures
        is_terminal(next(state, event)->Some_0.0) <==> next(state, event)->Some_0.1 is Respond,
{
}

/// A chunk passes through the machine untouched: the action hands on the
/// very bytes that arrived, and the state that follows is the same whatever
/// those bytes are, so the machine keeps none of them.
pub proof fn lemma_chunk_passes_through(path: Seq<char>, data: Seq<u8>)
    ensures
        next(StateModel::Streaming { path }, EventModel::Chunk { data }) == Some(
            (StateModel::Writing { path }, ActionModel::WriteChunk { data }),
        ),
        next(StateModel::Writing { path }, EventModel::ChunkWritten) == Some(
            (StateModel::Streaming { path }, ActionModel::ReadChunk),
        ),
{
}

} // verus!
