//! What holds of listings of the stored sessions.

use crate::listing::{
    are_listed, is_possibly_same_path, is_surely_same_path, lemma_only_steps_of_two,
    lemma_pieces_exist, listed_sessions, listing_params, loose_steps, only_steps, path_pieces,
    path_steps, small_letters, tells_place, SessionInfoView, SessionSource, SortDirection,
    StoredThreadView, ThreadSortKey,
};
use crate::laws::texts::names_come_before_previews;
use crate::title::session_title;
use vstd::prelude::*;

verus! {

/// The session has the identifier, the directory and the time of the thread,
/// and the title that its name gives, or without a name its preview.
pub open spec fn tells_of(session: SessionInfoView, thread: StoredThreadView) -> bool {
    &&& session.session_id == thread.thread_id
    &&& session.cwd == thread.cwd
    &&& session.updated_at == thread.updated_at
    &&& thread.name matches Some(name) ==> session.title == session_title(name)
    &&& thread.name is None ==> session.title == session_title(thread.preview)
}

/// The sessions tell of the threads at the places `origin`, one each, and in
/// the order of the threads.
pub open spec fn is_selection(
    threads: Seq<StoredThreadView>,
    sessions: Seq<SessionInfoView>,
    origin: Seq<int>,
) -> bool {
    &&& origin.len() == sessions.len()
    &&& forall|p: int|
        0 <= p < sessions.len() ==> 0 <= #[trigger] origin[p] < threads.len() && tells_of(
            sessions[p],
            threads[origin[p]],
        )
    &&& forall|p: int, q: int| 0 <= p < q < origin.len() ==> #[trigger] origin[p] < #[trigger] origin[q]
}

/// Threads of these sources are told of.
pub open spec fn is_shown_source(source: SessionSource) -> bool {
    match source {
        SessionSource::Cli => true,
        SessionSource::VSCode => true,
        SessionSource::Unknown => true,
        SessionSource::Other => false,
    }
}

/// The client is told of exactly those threads that are of a source to be shown
/// and in the right place: of each once, and in their order.
pub proof fn listed_sessions_are_a_selection(
    threads: Seq<StoredThreadView>,
    in_place: Seq<bool>,
) -> (origin: Seq<int>)
    requires
        in_place.len() >= threads.len(),
    ensures
        is_selection(threads, listed_sessions(threads, in_place), origin),
        forall|i: int|
            origin.contains(i) <==> 0 <= i < threads.len() && is_shown_source(
                (#[trigger] threads[i]).source,
            ) && in_place[i],
    decreases threads.len(),
{
    if threads.len() == 0 {
        Seq::empty()
    } else {
        let rest = threads.drop_last();
        let earlier = listed_sessions_are_a_selection(rest, in_place);
        let last = threads.len() - 1;
        assert forall|i: int| 0 <= i < rest.len() implies #[trigger] rest[i] == threads[i] by {}
        assert forall|p: int| 0 <= p < earlier.len() implies 0 <= #[trigger] earlier[p] < last by {}
        names_come_before_previews(
            threads.last().name->0,
            threads.last().preview,
            threads.last().preview,
        );
        assert forall|i: int| earlier.contains(i) implies 0 <= i < last && is_shown_source(
            threads[i].source,
        ) && in_place[i] by {
            assert(is_shown_source(rest[i].source));
        }
        if is_shown_source(threads.last().source) && in_place[last] {
            let origin = earlier.push(last);
            assert forall|i: int| origin.contains(i) <==> 0 <= i < threads.len()
                && is_shown_source((#[trigger] threads[i]).source) && in_place[i] by {
                if origin.contains(i) {
                    let p = choose|p: int| 0 <= p < origin.len() && origin[p] == i;
                    if p < earlier.len() {
                        assert(earlier[p] == i);
                        assert(earlier.contains(i));
                    }
                } else {
                    assert(origin[earlier.len() as int] == last);
                    if earlier.contains(i) {
                        let p = choose|p: int| 0 <= p < earlier.len() && earlier[p] == i;
                        assert(origin[p] == i);
                    }
                    if 0 <= i < last {
                        assert(rest[i] == threads[i]);
                    }
                }
            }
            origin
        } else {
            assert forall|i: int| earlier.contains(i) <==> 0 <= i < threads.len()
                && is_shown_source((#[trigger] threads[i]).source) && in_place[i] by {
                if 0 <= i < last {
                    assert(rest[i] == threads[i]);
                }
            }
            earlier
        }
    }
}

/// The client is told of the stored threads, of each once and in their order:
/// of all that are of a source to be shown and, where it names a directory, in
/// that directory, and of no others.
pub proof fn listings_tell_of_the_right_threads(
    threads: Seq<StoredThreadView>,
    cwd: Option<Seq<char>>,
    sessions: Seq<SessionInfoView>,
) -> (origin: Seq<int>)
    requires
        are_listed(threads, cwd, sessions),
    ensures
        is_selection(threads, sessions, origin),
        forall|i: int| #[trigger]
            origin.contains(i) ==> 0 <= i < threads.len() && is_shown_source(threads[i].source) && (
            cwd matches Some(asked) ==> is_possibly_same_path(threads[i].cwd, asked)),
        forall|i: int|
            0 <= i < threads.len() && is_shown_source((#[trigger] threads[i]).source) && (
            cwd matches Some(asked) ==> is_surely_same_path(threads[i].cwd, asked))
                ==> origin.contains(i),
{
    let in_place = choose|in_place: Seq<bool>| #[trigger]
        tells_place(threads, cwd, in_place) && sessions == listed_sessions(threads, in_place);
    let origin = listed_sessions_are_a_selection(threads, in_place);
    assert forall|i: int| #[trigger] origin.contains(i) implies 0 <= i < threads.len()
        && is_shown_source(threads[i].source) && (cwd matches Some(asked) ==> is_possibly_same_path(
        threads[i].cwd,
        asked,
    )) by {
        assert(is_shown_source(threads[i].source));
        assert(in_place[i]);
    }
    assert forall|i: int|
        0 <= i < threads.len() && is_shown_source((#[trigger] threads[i]).source) && (
        cwd matches Some(asked) ==> is_surely_same_path(threads[i].cwd, asked)) implies origin.contains(
        i,
    ) by {
        assert(in_place[i]);
    }
    origin
}

/// The store is asked for the page that begins at the client's cursor: the 25
/// threads of a source to be shown that changed last, of the directory that the
/// client names or, without one, of all, and of whatever else they are.
pub proof fn listings_ask_for_the_latest_threads(
    cwd: Option<Seq<char>>,
    cursor: Option<Seq<char>>,
)
    ensures
        ({
            let params = listing_params(cwd, cursor);
            &&& params.page_size == 25
            &&& params.cursor == cursor
            &&& params.sort_key == ThreadSortKey::UpdatedAt
            &&& params.sort_direction == SortDirection::Desc
            &&& forall|source: SessionSource| #[trigger]
                params.allowed_sources.contains(source) <==> is_shown_source(source)
            &&& params.allowed_sources.len() == 3
            &&& params.model_providers is None
            &&& cwd is None ==> params.cwd_filters is None
            &&& cwd matches Some(asked) ==> (params.cwd_filters matches Some(filters)
                && filters.len() == 1 && filters[0] == asked)
            &&& !params.archived
            &&& params.search_term is None
            &&& !params.use_state_db_only
        }),
{
    let sources = listing_params(cwd, cursor).allowed_sources;
    assert(sources[0] == SessionSource::Cli);
    assert(sources[1] == SessionSource::VSCode);
    assert(sources[2] == SessionSource::Unknown);
}

/// A slash ends one piece of a path and begins another.
proof fn lemma_pieces_at_slash(before: Seq<char>, after: Seq<char>, backslash: bool)
    ensures
        path_pieces(before.push('/') + after, backslash) == path_pieces(before, backslash)
            + path_pieces(after, backslash),
    decreases after.len(),
{
    let path = before.push('/') + after;
    let first = path_pieces(before, backslash);
    if after.len() == 0 {
        assert(path =~= before.push('/'));
        assert(path.drop_last() =~= before);
        assert(path_pieces(path, backslash) =~= first + path_pieces(after, backslash));
    } else {
        lemma_pieces_at_slash(before, after.drop_last(), backslash);
        lemma_pieces_exist(after.drop_last(), backslash);
        assert(path.drop_last() =~= before.push('/') + after.drop_last());
        let earlier = path_pieces(path.drop_last(), backslash);
        let second = path_pieces(after.drop_last(), backslash);
        assert(earlier == first + second);
        assert(earlier.last() == second.last());
        assert(earlier.drop_last() =~= first + second.drop_last());
        assert(path_pieces(path, backslash) =~= first + path_pieces(after, backslash));
    }
}

/// A text without separators is one piece.
proof fn lemma_one_piece(step: Seq<char>, backslash: bool)
    requires
        !step.contains('/'),
        !step.contains('\\'),
    ensures
        path_pieces(step, backslash) == seq![step],
    decreases step.len(),
{
    if step.len() == 0 {
        assert(step =~= Seq::empty());
    } else {
        let rest = step.drop_last();
        assert forall|i: int| 0 <= i < rest.len() implies #[trigger] rest[i] != '/' && rest[i]
            != '\\' by {
            assert(rest[i] == step[i]);
        }
        lemma_one_piece(rest, backslash);
        assert(step[step.len() - 1] != '/' && step[step.len() - 1] != '\\');
        assert(path_pieces(step, backslash) =~= seq![rest.push(step.last())]);
        assert(rest.push(step.last()) =~= step);
    }
}

/// The steps up to a slash and behind it.
proof fn lemma_steps_at_slash(before: Seq<char>, after: Seq<char>, backslash: bool)
    ensures
        only_steps(path_pieces(before.push('/') + after, backslash)) == only_steps(
            path_pieces(before, backslash),
        ) + only_steps(path_pieces(after, backslash)),
{
    lemma_pieces_at_slash(before, after, backslash);
    lemma_only_steps_of_two(path_pieces(before, backslash), path_pieces(after, backslash));
}

/// It does not matter whether a slash within a path, or at its end, is written
/// once or twice, nor whether a dot stands between the two; nor whether a slash
/// stands at the end of a path at all.
pub proof fn separators_may_be_repeated(before: Seq<char>, after: Seq<char>)
    requires
        before.len() > 0,
        before[0] != '\\',
        before.len() == 1 ==> before[0] != '/',
        before.len() > 1 && before[0] == '/' ==> before[1] != '/' && before[1] != '\\',
        !before.contains(':'),
        !after.contains(':'),
    ensures
        is_surely_same_path(before.push('/') + after, before.push('/').push('/') + after),
        is_surely_same_path(
            before.push('/') + after,
            before.push('/').push('.').push('/') + after,
        ),
        is_surely_same_path(before, before.push('/')),
{
    let once = before.push('/') + after;
    let twice = before.push('/').push('/') + after;
    let dotted = before.push('/').push('.').push('/') + after;
    let nothing = Seq::<char>::empty();
    let dot = seq!['.'];
    reveal_with_fuel(path_pieces, 3);
    reveal_with_fuel(only_steps, 3);
    assert(dot.drop_last() =~= nothing);
    assert(path_pieces(nothing, false) =~= seq![nothing]);
    assert(path_pieces(dot, false) =~= seq![dot]);
    assert(seq![nothing].drop_last() =~= Seq::empty());
    assert(seq![dot].drop_last() =~= Seq::empty());
    assert(only_steps(path_pieces(nothing, false)) =~= Seq::empty());
    assert(only_steps(path_pieces(dot, false)) =~= Seq::empty());
    lemma_steps_at_slash(before, after, false);
    lemma_steps_at_slash(before, nothing, false);
    lemma_steps_at_slash(before, dot, false);
    lemma_steps_at_slash(before.push('/'), after, false);
    lemma_steps_at_slash(before.push('/').push('.'), after, false);
    assert(before.push('/') + nothing =~= before.push('/'));
    assert(before.push('/') + dot =~= before.push('/').push('.'));
    assert(path_steps(before.push('/')) =~= path_steps(before));
    assert(path_steps(before.push('/').push('.')) =~= path_steps(before));
    assert(path_steps(once) == path_steps(twice));
    assert(path_steps(once) == path_steps(dotted));
    assert forall|i: int| 0 <= i < before.len() implies once[i] == #[trigger] before[i] && twice[i]
        == before[i] && dotted[i] == before[i] by {}
    assert forall|i: int| 0 <= i < once.len() implies #[trigger] once[i] != ':' by {
        if i > before.len() {
            assert(once[i] == after[i - before.len() - 1]);
        }
    }
    assert forall|i: int| 0 <= i < twice.len() implies #[trigger] twice[i] != ':' by {
        if i > before.len() + 1 {
            assert(twice[i] == after[i - before.len() - 2]);
        }
    }
    assert forall|i: int| 0 <= i < dotted.len() implies #[trigger] dotted[i] != ':' by {
        if i > before.len() + 2 {
            assert(dotted[i] == after[i - before.len() - 3]);
        }
    }
}

/// A directory is not the same as one that lies in it.
pub proof fn inner_directories_are_told_apart(path: Seq<char>, step: Seq<char>)
    requires
        step.len() > 0,
        step != seq!['.'],
        !step.contains('/'),
        !step.contains('\\'),
    ensures
        !is_possibly_same_path(path, path.push('/') + step),
        !is_possibly_same_path(path.push('/') + step, path),
{
    lemma_steps_at_slash(path, step, true);
    lemma_one_piece(step, true);
    assert(seq![step].drop_last() =~= Seq::empty());
    reveal_with_fuel(only_steps, 2);
    assert(only_steps(seq![step]) =~= seq![step]);
    assert(loose_steps(path.push('/') + step).len() == loose_steps(path).len() + 1);
}

/// Two directories in one directory are not the same where their names differ
/// in more than the case of letters.
pub proof fn differing_names_are_told_apart(
    path: Seq<char>,
    left: Seq<char>,
    right: Seq<char>,
    i: int,
)
    requires
        left.len() == right.len() ==> 0 <= i < left.len() && left[i] != right[i] && !('A' <= left[i]
            && left[i] <= 'Z') && !('A' <= right[i] && right[i] <= 'Z'),
        left.len() > 0,
        left != seq!['.'],
        !left.contains('/'),
        !left.contains('\\'),
        right.len() > 0,
        right != seq!['.'],
        !right.contains('/'),
        !right.contains('\\'),
    ensures
        !is_possibly_same_path(path.push('/') + left, path.push('/') + right),
{
    lemma_steps_at_slash(path, left, true);
    lemma_steps_at_slash(path, right, true);
    lemma_one_piece(left, true);
    lemma_one_piece(right, true);
    assert(seq![left].drop_last() =~= Seq::empty());
    assert(seq![right].drop_last() =~= Seq::empty());
    reveal_with_fuel(only_steps, 2);
    assert(only_steps(seq![left]) =~= seq![left]);
    assert(only_steps(seq![right]) =~= seq![right]);
    let first = loose_steps(path.push('/') + left);
    let second = loose_steps(path.push('/') + right);
    assert(first.last() == small_letters(left));
    assert(second.last() == small_letters(right));
    if left.len() == right.len() {
        assert(small_letters(left)[i] == left[i]);
        assert(small_letters(right)[i] == right[i]);
    } else {
        assert(small_letters(left).len() == left.len());
        assert(small_letters(right).len() == right.len());
    }
}

/// The path has neither a colon nor a backslash, and begins with at most one
/// slash.
pub open spec fn is_common_path(path: Seq<char>) -> bool {
    &&& !path.contains(':')
    &&& !path.contains('\\')
    &&& path.len() > 1 && path[0] == '/' ==> path[1] != '/'
}

/// Two directories in one directory are not the same where their names differ
/// in anything, be it the case of letters.
pub proof fn case_is_told_apart(path: Seq<char>, left: Seq<char>, right: Seq<char>)
    requires
        left != right,
        left.len() > 0,
        left != seq!['.'],
        !left.contains('/'),
        right.len() > 0,
        right != seq!['.'],
        !right.contains('/'),
        is_common_path(path.push('/') + left),
        is_common_path(path.push('/') + right),
    ensures
        !is_possibly_same_path(path.push('/') + left, path.push('/') + right),
{
    let first = path.push('/') + left;
    let second = path.push('/') + right;
    assert forall|i: int| 0 <= i < left.len() implies #[trigger] left[i] != '\\' by {
        assert(first[path.len() + 1 + i] == left[i]);
    }
    assert forall|i: int| 0 <= i < right.len() implies #[trigger] right[i] != '\\' by {
        assert(second[path.len() + 1 + i] == right[i]);
    }
    assert(first[0] != '\\' && second[0] != '\\');
    assert(first[1] != '\\' && second[1] != '\\');
    lemma_steps_at_slash(path, left, false);
    lemma_steps_at_slash(path, right, false);
    lemma_one_piece(left, false);
    lemma_one_piece(right, false);
    assert(seq![left].drop_last() =~= Seq::empty());
    assert(seq![right].drop_last() =~= Seq::empty());
    reveal_with_fuel(only_steps, 2);
    assert(only_steps(seq![left]) =~= seq![left]);
    assert(only_steps(seq![right]) =~= seq![right]);
    assert(path_steps(first).last() == left);
    assert(path_steps(second).last() == right);
}

/// A path from the root is not the same as one from somewhere else, nor is a
/// path from where one is the same as one that does not say so.
pub proof fn beginnings_are_told_apart(path: Seq<char>)
    requires
        path.len() > 0,
        path[0] != '/',
        path[0] != '.',
        is_common_path(path),
    ensures
        !is_possibly_same_path(path, seq!['/'] + path),
        !is_possibly_same_path(seq!['/'] + path, path),
        !is_possibly_same_path(path, seq!['.', '/'] + path),
        !is_possibly_same_path(seq!['.', '/'] + path, path),
{
    let rooted = seq!['/'] + path;
    let dotted = seq!['.', '/'] + path;
    assert(path[0] != '\\');
    assert forall|i: int| 0 <= i < rooted.len() implies #[trigger] rooted[i] != ':' && rooted[i]
        != '\\' by {
        if i > 0 {
            assert(rooted[i] == path[i - 1]);
        }
    }
    assert forall|i: int| 0 <= i < dotted.len() implies #[trigger] dotted[i] != ':' && dotted[i]
        != '\\' by {
        if i > 1 {
            assert(dotted[i] == path[i - 2]);
        }
    }
    assert(rooted[0] == '/' && rooted[1] == path[0]);
    assert(dotted[0] == '.' && dotted[1] == '/');
}

} // verus!
