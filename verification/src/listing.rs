//! Listing the stored sessions.

use crate::settings::texts;
use crate::title::{fits_message, optional_text, stored_session_title, stored_title};
use vstd::prelude::*;

verus! {

/// The number of sessions on a page of a listing.
pub const SESSION_LIST_PAGE_SIZE: usize = 25;

/// Where a stored thread comes from.
#[derive(Debug, Clone, Copy, PartialEq, Eq, Structural)]
pub enum SessionSource {
    Cli,
    VSCode,
    Unknown,
    Other,
}

/// What the stored threads are ordered by.
#[derive(Debug, Clone, Copy, PartialEq, Eq, Structural)]
pub enum ThreadSortKey {
    CreatedAt,
    UpdatedAt,
}

/// The direction of the order.
#[derive(Debug, Clone, Copy, PartialEq, Eq, Structural)]
pub enum SortDirection {
    Asc,
    Desc,
}

/// What the store is asked for.
pub struct ListThreadsParams {
    pub page_size: usize,
    pub cursor: Option<String>,
    pub sort_key: ThreadSortKey,
    pub sort_direction: SortDirection,
    pub allowed_sources: Vec<SessionSource>,
    pub model_providers: Option<Vec<String>>,
    pub cwd_filters: Option<Vec<String>>,
    pub archived: bool,
    pub search_term: Option<String>,
    pub use_state_db_only: bool,
}

/// The model of [`ListThreadsParams`].
pub struct ListThreadsParamsView {
    pub page_size: nat,
    pub cursor: Option<Seq<char>>,
    pub sort_key: ThreadSortKey,
    pub sort_direction: SortDirection,
    pub allowed_sources: Seq<SessionSource>,
    pub model_providers: Option<Seq<Seq<char>>>,
    pub cwd_filters: Option<Seq<Seq<char>>>,
    pub archived: bool,
    pub search_term: Option<Seq<char>>,
    pub use_state_db_only: bool,
}

impl View for ListThreadsParams {
    type V = ListThreadsParamsView;

    open spec fn view(&self) -> ListThreadsParamsView {
        ListThreadsParamsView {
            page_size: self.page_size as nat,
            cursor: optional_text(self.cursor),
            sort_key: self.sort_key,
            sort_direction: self.sort_direction,
            allowed_sources: self.allowed_sources@,
            model_providers: match self.model_providers {
                Some(providers) => Some(texts(providers@)),
                None => None,
            },
            cwd_filters: match self.cwd_filters {
                Some(filters) => Some(texts(filters@)),
                None => None,
            },
            archived: self.archived,
            search_term: optional_text(self.search_term),
            use_state_db_only: self.use_state_db_only,
        }
    }
}

/// A stored thread.
pub struct StoredThread {
    pub thread_id: String,
    pub source: SessionSource,
    pub cwd: String,
    pub name: Option<String>,
    pub preview: String,
    /// When the thread last changed, as the protocol writes times.
    pub updated_at: String,
}

/// The model of [`StoredThread`].
pub struct StoredThreadView {
    pub thread_id: Seq<char>,
    pub source: SessionSource,
    pub cwd: Seq<char>,
    pub name: Option<Seq<char>>,
    pub preview: Seq<char>,
    pub updated_at: Seq<char>,
}

impl View for StoredThread {
    type V = StoredThreadView;

    open spec fn view(&self) -> StoredThreadView {
        StoredThreadView {
            thread_id: self.thread_id@,
            source: self.source,
            cwd: self.cwd@,
            name: optional_text(self.name),
            preview: self.preview@,
            updated_at: self.updated_at@,
        }
    }
}

/// A page of stored threads, and where the next one begins.
pub struct ThreadPage {
    pub items: Vec<StoredThread>,
    pub next_cursor: Option<String>,
}

/// The model of [`ThreadPage`].
pub struct ThreadPageView {
    pub items: Seq<StoredThreadView>,
    pub next_cursor: Option<Seq<char>>,
}

/// The models of a list of stored threads.
pub open spec fn thread_views(items: Seq<StoredThread>) -> Seq<StoredThreadView> {
    items.map_values(|item: StoredThread| item@)
}

impl View for ThreadPage {
    type V = ThreadPageView;

    open spec fn view(&self) -> ThreadPageView {
        ThreadPageView {
            items: thread_views(self.items@),
            next_cursor: optional_text(self.next_cursor),
        }
    }
}

/// A session, as the client is told of it.
pub struct SessionInfo {
    pub session_id: String,
    pub cwd: String,
    pub title: Option<String>,
    pub updated_at: String,
}

/// The model of [`SessionInfo`].
pub struct SessionInfoView {
    pub session_id: Seq<char>,
    pub cwd: Seq<char>,
    pub title: Option<Seq<char>>,
    pub updated_at: Seq<char>,
}

impl View for SessionInfo {
    type V = SessionInfoView;

    open spec fn view(&self) -> SessionInfoView {
        SessionInfoView {
            session_id: self.session_id@,
            cwd: self.cwd@,
            title: optional_text(self.title),
            updated_at: self.updated_at@,
        }
    }
}

/// The models of a list of sessions.
pub open spec fn session_views(sessions: Seq<SessionInfo>) -> Seq<SessionInfoView> {
    sessions.map_values(|session: SessionInfo| session@)
}

/// Sessions of these sources are listed.
pub open spec fn is_listed_source(source: SessionSource) -> bool {
    source == SessionSource::Cli || source == SessionSource::VSCode || source
        == SessionSource::Unknown
}

/// What the store is asked for when the client lists its sessions: a page of
/// the latest threads, and only those of the directory that the client names.
pub open spec fn listing_params(cwd: Option<Seq<char>>, cursor: Option<Seq<char>>) ->
    ListThreadsParamsView {
    ListThreadsParamsView {
        page_size: SESSION_LIST_PAGE_SIZE as nat,
        cursor,
        sort_key: ThreadSortKey::UpdatedAt,
        sort_direction: SortDirection::Desc,
        allowed_sources: seq![SessionSource::Cli, SessionSource::VSCode, SessionSource::Unknown],
        model_providers: None,
        cwd_filters: match cwd {
            Some(cwd) => Some(seq![cwd]),
            None => None,
        },
        archived: false,
        search_term: None,
        use_state_db_only: false,
    }
}

/// How the client is told of a stored thread.
pub open spec fn listed_session(thread: StoredThreadView) -> SessionInfoView {
    SessionInfoView {
        session_id: thread.thread_id,
        cwd: thread.cwd,
        title: stored_title(thread.name, thread.preview),
        updated_at: thread.updated_at,
    }
}

/// What the title of a stored thread is made from: its name where it has one,
/// and its preview otherwise.
pub open spec fn title_source(thread: StoredThreadView) -> Seq<char> {
    match thread.name {
        Some(name) => name,
        None => thread.preview,
    }
}

/// The session tells of one of the threads, and its title is what a title is to
/// be, however clusters are told apart.
pub open spec fn has_fitting_title(
    threads: Seq<StoredThreadView>,
    session: SessionInfoView,
) -> bool {
    exists|i: int|
        0 <= i < threads.len() && session == listed_session(#[trigger] threads[i]) && fits_message(
            title_source(threads[i]),
            session.title,
        )
}

/// Each session tells of one of the threads, with a title that is what a title
/// is to be.
pub open spec fn have_fitting_titles(
    threads: Seq<StoredThreadView>,
    sessions: Seq<SessionInfoView>,
) -> bool {
    forall|i: int| 0 <= i < sessions.len() ==> has_fitting_title(threads, #[trigger] sessions[i])
}

/// The sessions of a page that the client is told of, in the order of the page:
/// those of a listed source that are in the right place.
pub open spec fn listed_sessions(threads: Seq<StoredThreadView>, in_place: Seq<bool>) -> Seq<
    SessionInfoView,
>
    decreases threads.len(),
{
    if threads.len() == 0 {
        Seq::empty()
    } else {
        let earlier = listed_sessions(threads.drop_last(), in_place);
        if is_listed_source(threads.last().source) && in_place[threads.len() - 1] {
            earlier.push(listed_session(threads.last()))
        } else {
            earlier
        }
    }
}

/// What separates the components of a path: a slash everywhere, and on some
/// platforms a backslash too.
pub open spec fn is_separator(c: char, backslash: bool) -> bool {
    c == '/' || backslash && c == '\\'
}

/// The pieces of a path between its separators, of which some may be empty.
pub open spec fn path_pieces(path: Seq<char>, backslash: bool) -> Seq<Seq<char>>
    decreases path.len(),
{
    if path.len() == 0 {
        seq![Seq::empty()]
    } else {
        let earlier = path_pieces(path.drop_last(), backslash);
        if is_separator(path.last(), backslash) {
            earlier.push(Seq::empty())
        } else {
            earlier.drop_last().push(earlier.last().push(path.last()))
        }
    }
}

/// The piece is a step of its path: it is neither empty nor a dot.
pub open spec fn is_step(piece: Seq<char>) -> bool {
    piece.len() > 0 && piece != seq!['.']
}

/// The pieces that are steps.
pub open spec fn only_steps(pieces: Seq<Seq<char>>) -> Seq<Seq<char>>
    decreases pieces.len(),
{
    if pieces.len() == 0 {
        Seq::empty()
    } else {
        let earlier = only_steps(pieces.drop_last());
        if is_step(pieces.last()) {
            earlier.push(pieces.last())
        } else {
            earlier
        }
    }
}

/// The steps of a path, where slashes separate them.
pub open spec fn path_steps(path: Seq<char>) -> Seq<Seq<char>> {
    only_steps(path_pieces(path, false))
}

/// A capital letter of ASCII written small.
pub open spec fn small_letter(c: char) -> char {
    if 'A' <= c && c <= 'Z' {
        (c as u32 + 32) as char
    } else {
        c
    }
}

/// The text with the capital letters of ASCII written small.
pub open spec fn small_letters(text: Seq<char>) -> Seq<char> {
    text.map_values(|c: char| small_letter(c))
}

/// The steps of a path, where backslashes separate them too and capital
/// letters of ASCII are written small.
pub open spec fn loose_steps(path: Seq<char>) -> Seq<Seq<char>> {
    only_steps(path_pieces(path, true)).map_values(|step: Seq<char>| small_letters(step))
}

/// The path begins with a dot that is a piece of its own.
pub open spec fn starts_with_dot(path: Seq<char>) -> bool {
    path.len() > 0 && path[0] == '.' && (path.len() == 1 || path[1] == '/')
}

/// The path begins with a slash.
pub open spec fn starts_with_slash(path: Seq<char>) -> bool {
    path.len() > 0 && path[0] == '/'
}

/// The paths begin alike and have the same steps.
pub open spec fn has_steps_of(left: Seq<char>, right: Seq<char>) -> bool {
    &&& path_steps(left) == path_steps(right)
    &&& starts_with_dot(left) == starts_with_dot(right)
    &&& starts_with_slash(left) == starts_with_slash(right)
}

/// Nothing at the beginning of the path, but for a drive, has a meaning on some
/// platforms only.
pub open spec fn starts_plainly(path: Seq<char>) -> bool {
    &&& path.len() > 0 ==> path[0] != '\\'
    &&& path.len() > 1 && path[0] == '/' ==> !is_separator(path[1], true)
}

/// Nothing in the path has a meaning on some platforms only.
pub open spec fn is_slash_path(path: Seq<char>) -> bool {
    &&& starts_plainly(path)
    &&& !path.contains('\\')
    &&& !path.contains(':')
}

/// The paths are the same on every platform. One step with a colon may be a
/// drive, for which a slash behind it counts.
pub open spec fn is_surely_same_path(left: Seq<char>, right: Seq<char>) -> bool {
    ||| left == right
    ||| {
        &&& starts_plainly(left)
        &&& starts_plainly(right)
        &&& has_steps_of(left, right)
        &&& path_steps(left).len() >= 2 || (!left.contains(':') && !right.contains(':'))
    }
}

/// The paths may be the same on some platform.
pub open spec fn is_possibly_same_path(left: Seq<char>, right: Seq<char>) -> bool {
    &&& loose_steps(left) == loose_steps(right)
    &&& is_slash_path(left) && is_slash_path(right) ==> has_steps_of(left, right)
}

/// The answer to whether two paths are the same. What is the same everywhere is
/// the same, and what is nowhere the same is not.
pub open spec fn tells_same_path(left: Seq<char>, right: Seq<char>, same: bool) -> bool {
    &&& is_surely_same_path(left, right) ==> same
    &&& same ==> is_possibly_same_path(left, right)
}

/// `in_place` tells of each thread whether it works in the directory asked for.
/// Without such a directory all of them do.
pub open spec fn tells_place(
    threads: Seq<StoredThreadView>,
    cwd: Option<Seq<char>>,
    in_place: Seq<bool>,
) -> bool {
    &&& in_place.len() == threads.len()
    &&& forall|i: int|
        0 <= i < threads.len() ==> match cwd {
            Some(cwd) => tells_same_path(threads[i].cwd, cwd, #[trigger] in_place[i]),
            None => in_place[i],
        }
}

/// The sessions are those of a page that the client, who asked for the given
/// directory, is told of.
pub open spec fn are_listed(
    threads: Seq<StoredThreadView>,
    cwd: Option<Seq<char>>,
    sessions: Seq<SessionInfoView>,
) -> bool {
    exists|in_place: Seq<bool>| #[trigger]
        tells_place(threads, cwd, in_place) && sessions == listed_sessions(threads, in_place)
}

/// Equality of `std::path::Path`: whether two texts, taken as paths, have the
/// same components. Repeated and trailing separators are no part of them, and a
/// dot is only at the beginning. So texts that differ in nothing else are the
/// same path, and texts that differ in their steps are not. Left open is what
/// the platform decides: whether a backslash separates, the case of a drive's
/// letter, a drive alone, and what a path means that begins with two separators
/// or with a backslash.
#[verifier::external_body]
fn same_path(left: &String, right: &String) -> (same: bool)
    ensures
        tells_same_path(left@, right@, same),
{
    std::path::Path::new(left.as_str()) == std::path::Path::new(right.as_str())
}

/// What the store is asked for when the client lists its sessions.
pub fn list_threads_params(cwd: &Option<String>, cursor: Option<String>) -> (params:
    ListThreadsParams)
    ensures
        params@ == listing_params(optional_text(*cwd), optional_text(cursor)),
        params.page_size == 25,
        params.cursor == cursor,
        params.sort_key == ThreadSortKey::UpdatedAt,
        params.sort_direction == SortDirection::Desc,
        cwd is None <==> params.cwd_filters is None,
{
    let mut allowed_sources: Vec<SessionSource> = Vec::new();
    allowed_sources.push(SessionSource::Cli);
    allowed_sources.push(SessionSource::VSCode);
    allowed_sources.push(SessionSource::Unknown);
    assert(allowed_sources@ =~= seq![
        SessionSource::Cli,
        SessionSource::VSCode,
        SessionSource::Unknown,
    ]);
    let cwd_filters: Option<Vec<String>> = match cwd {
        Some(cwd) => {
            let mut filters: Vec<String> = Vec::new();
            filters.push(cwd.clone());
            assert(texts(filters@) =~= seq![cwd@]);
            Some(filters)
        },
        None => None,
    };
    ListThreadsParams {
        page_size: SESSION_LIST_PAGE_SIZE,
        cursor,
        sort_key: ThreadSortKey::UpdatedAt,
        sort_direction: SortDirection::Desc,
        allowed_sources,
        model_providers: None,
        cwd_filters,
        archived: false,
        search_term: None,
        use_state_db_only: false,
    }
}

impl StoredThread {
    /// How the client is told of this thread.
    pub fn session_info(&self) -> (info: SessionInfo)
        ensures
            info@ == listed_session(self@),
            info.session_id@ == self.thread_id@,
            info.cwd@ == self.cwd@,
            info.updated_at@ == self.updated_at@,
            fits_message(title_source(self@), info@.title),
    {
        let name: Option<&str> = match &self.name {
            Some(name) => Some(name.as_str()),
            None => None,
        };
        SessionInfo {
            session_id: self.thread_id.clone(),
            cwd: self.cwd.clone(),
            title: stored_session_title(name, self.preview.as_str()),
            updated_at: self.updated_at.clone(),
        }
    }
}

/// The sessions of a page that the client is told of, given which of them are
/// in the right place.
pub fn select_sessions(threads: &Vec<StoredThread>, in_place: &Vec<bool>) -> (sessions: Vec<
    SessionInfo,
>)
    requires
        in_place@.len() == threads@.len(),
    ensures
        session_views(sessions@) == listed_sessions(thread_views(threads@), in_place@),
        have_fitting_titles(thread_views(threads@), session_views(sessions@)),
{
    let mut sessions: Vec<SessionInfo> = Vec::new();
    let ghost views = thread_views(threads@);
    assert(session_views(sessions@) =~= listed_sessions(views.take(0), in_place@));
    for i in 0..threads.len()
        invariant
            in_place@.len() == threads@.len(),
            views == thread_views(threads@),
            session_views(sessions@) == listed_sessions(views.take(i as int), in_place@),
            have_fitting_titles(views, session_views(sessions@)),
    {
        let ghost before = sessions@;
        assert(views.take(i + 1).drop_last() =~= views.take(i as int));
        assert(views.take(i + 1).last() == threads@[i as int]@);
        let listed: bool = match threads[i].source {
            SessionSource::Cli | SessionSource::VSCode | SessionSource::Unknown => true,
            SessionSource::Other => false,
        };
        if listed && in_place[i] {
            let info: SessionInfo = threads[i].session_info();
            sessions.push(info);
            assert(session_views(sessions@) =~= session_views(before).push(info@));
            assert(info@ == listed_session(views[i as int]));
        }
    }
    assert(views.take(views.len() as int) =~= views);
    sessions
}

fn threads_in_place(threads: &Vec<StoredThread>, cwd: &Option<String>) -> (in_place: Vec<bool>)
    ensures
        tells_place(thread_views(threads@), optional_text(*cwd), in_place@),
{
    let mut in_place: Vec<bool> = Vec::new();
    for i in 0..threads.len()
        invariant
            in_place@.len() == i,
            forall|j: int|
                0 <= j < i ==> match optional_text(*cwd) {
                    Some(cwd) => tells_same_path(threads@[j].cwd@, cwd, #[trigger] in_place@[j]),
                    None => in_place@[j],
                },
    {
        let answer: bool = match cwd {
            Some(cwd) => same_path(&threads[i].cwd, cwd),
            None => true,
        };
        in_place.push(answer);
    }
    in_place
}

/// The sessions of a page that the client, who may have asked for one
/// directory, is told of.
pub fn sessions_on_page(threads: &Vec<StoredThread>, cwd: &Option<String>) -> (sessions: Vec<
    SessionInfo,
>)
    ensures
        are_listed(thread_views(threads@), optional_text(*cwd), session_views(sessions@)),
        have_fitting_titles(thread_views(threads@), session_views(sessions@)),
{
    let in_place: Vec<bool> = threads_in_place(threads, cwd);
    select_sessions(threads, &in_place)
}

/// The client is told of a thread that is of a listed source and in the right
/// place.
proof fn lemma_listed_contains(threads: Seq<StoredThreadView>, in_place: Seq<bool>, index: int)
    requires
        in_place.len() == threads.len(),
        0 <= index < threads.len(),
        is_listed_source(threads[index].source),
        in_place[index],
    ensures
        listed_sessions(threads, in_place).contains(listed_session(threads[index])),
    decreases threads.len(),
{
    let all = listed_sessions(threads, in_place);
    lemma_listed_prefix(threads.drop_last(), in_place, in_place.drop_last());
    let earlier = listed_sessions(threads.drop_last(), in_place);
    if index == threads.len() - 1 {
        assert(all.last() == listed_session(threads[index]));
    } else {
        lemma_listed_contains(threads.drop_last(), in_place.drop_last(), index);
        let k = choose|k: int|
            0 <= k < earlier.len() && earlier[k] == listed_session(threads[index]);
        assert(all[k] == earlier[k]);
    }
}

proof fn lemma_listed_prefix(threads: Seq<StoredThreadView>, left: Seq<bool>, right: Seq<bool>)
    requires
        left.len() >= threads.len(),
        right.len() >= threads.len(),
        forall|i: int| 0 <= i < threads.len() ==> #[trigger] left[i] == right[i],
    ensures
        listed_sessions(threads, left) == listed_sessions(threads, right),
    decreases threads.len(),
{
    if threads.len() > 0 {
        assert(left[threads.len() - 1] == right[threads.len() - 1]);
        lemma_listed_prefix(threads.drop_last(), left, right);
    }
}

/// A client that names no directory is told of every thread of a listed source.
pub proof fn unfiltered_listing_is_complete(
    threads: Seq<StoredThreadView>,
    sessions: Seq<SessionInfoView>,
    index: int,
)
    requires
        are_listed(threads, None, sessions),
        0 <= index < threads.len(),
        is_listed_source(threads[index].source),
    ensures
        sessions.contains(listed_session(threads[index])),
{
    let in_place = choose|in_place: Seq<bool>| #[trigger]
        tells_place(threads, None, in_place) && sessions == listed_sessions(threads, in_place);
    assert(in_place[index]);
    lemma_listed_contains(threads, in_place, index);
}

/// A client that names a directory is told of every thread of a listed source
/// that was stored with the same directory, however that is written.
pub proof fn filtered_listing_is_complete(
    threads: Seq<StoredThreadView>,
    cwd: Seq<char>,
    sessions: Seq<SessionInfoView>,
    index: int,
)
    requires
        are_listed(threads, Some(cwd), sessions),
        0 <= index < threads.len(),
        is_surely_same_path(threads[index].cwd, cwd),
        is_listed_source(threads[index].source),
    ensures
        sessions.contains(listed_session(threads[index])),
{
    let in_place = choose|in_place: Seq<bool>| #[trigger]
        tells_place(threads, Some(cwd), in_place) && sessions == listed_sessions(threads, in_place);
    assert(in_place[index]);
    lemma_listed_contains(threads, in_place, index);
}

/// A client that names a directory is told of no thread that was stored with
/// another one.
pub proof fn filtered_listing_holds_no_other_directory(
    threads: Seq<StoredThreadView>,
    cwd: Seq<char>,
    sessions: Seq<SessionInfoView>,
    position: int,
)
    requires
        are_listed(threads, Some(cwd), sessions),
        0 <= position < sessions.len(),
    ensures
        is_possibly_same_path(sessions[position].cwd, cwd),
{
    let in_place = choose|in_place: Seq<bool>| #[trigger]
        tells_place(threads, Some(cwd), in_place) && sessions == listed_sessions(threads, in_place);
    let index = lemma_listed_origin(threads, in_place, position);
    assert(in_place[index]);
}

/// Of paths in which nothing has a meaning on some platforms only, those are
/// the same that begin alike and have the same steps, and no others.
pub proof fn slash_paths_are_told_apart(left: Seq<char>, right: Seq<char>, same: bool)
    requires
        is_slash_path(left),
        is_slash_path(right),
        tells_same_path(left, right, same),
    ensures
        same <==> has_steps_of(left, right),
{
}

/// The pieces of each of the pieces, where backslashes separate too.
spec fn split_pieces(pieces: Seq<Seq<char>>) -> Seq<Seq<char>>
    decreases pieces.len(),
{
    if pieces.len() == 0 {
        Seq::empty()
    } else {
        split_pieces(pieces.drop_last()) + path_pieces(pieces.last(), true)
    }
}

/// Every path has pieces.
pub proof fn lemma_pieces_exist(path: Seq<char>, backslash: bool)
    ensures
        path_pieces(path, backslash).len() > 0,
    decreases path.len(),
{
    if path.len() > 0 {
        lemma_pieces_exist(path.drop_last(), backslash);
    }
}

/// Splitting at slashes first and then at backslashes is splitting at both.
proof fn lemma_split_pieces(path: Seq<char>)
    ensures
        path_pieces(path, true) == split_pieces(path_pieces(path, false)),
    decreases path.len(),
{
    let pieces = path_pieces(path, false);
    lemma_pieces_exist(path, false);
    if path.len() == 0 {
        assert(split_pieces(pieces.drop_last()) =~= Seq::empty());
        assert(pieces.last() =~= path);
        assert(split_pieces(pieces) =~= path_pieces(path, true));
    } else {
        let c = path.last();
        let earlier = path_pieces(path.drop_last(), false);
        lemma_split_pieces(path.drop_last());
        lemma_pieces_exist(path.drop_last(), false);
        if c == '/' {
            assert(pieces.drop_last() =~= earlier);
            assert(path_pieces(Seq::<char>::empty(), true) =~= seq![Seq::empty()]);
            assert(split_pieces(pieces) =~= path_pieces(path, true));
        } else {
            let last = earlier.last();
            lemma_pieces_exist(last, true);
            assert(pieces.drop_last() =~= earlier.drop_last());
            assert(last.push(c).drop_last() =~= last);
            assert(split_pieces(pieces) =~= path_pieces(path, true));
        }
    }
}

/// The steps among two lists of pieces are those of the one and those of the
/// other.
pub proof fn lemma_only_steps_of_two(left: Seq<Seq<char>>, right: Seq<Seq<char>>)
    ensures
        only_steps(left + right) == only_steps(left) + only_steps(right),
    decreases right.len(),
{
    if right.len() == 0 {
        assert(left + right =~= left);
        assert(only_steps(left) + only_steps(right) =~= only_steps(left));
    } else {
        lemma_only_steps_of_two(left, right.drop_last());
        assert((left + right).drop_last() =~= left + right.drop_last());
        assert(only_steps(left + right) =~= only_steps(left) + only_steps(right));
    }
}

/// Pieces that are no steps have no steps in them.
proof fn lemma_split_steps(pieces: Seq<Seq<char>>)
    ensures
        only_steps(split_pieces(pieces)) == only_steps(split_pieces(only_steps(pieces))),
    decreases pieces.len(),
{
    if pieces.len() > 0 {
        let last = pieces.last();
        let earlier = pieces.drop_last();
        lemma_split_steps(earlier);
        lemma_only_steps_of_two(split_pieces(earlier), path_pieces(last, true));
        if is_step(last) {
            let steps = only_steps(earlier);
            assert(steps.push(last).drop_last() =~= steps);
            lemma_only_steps_of_two(split_pieces(steps), path_pieces(last, true));
        } else {
            lemma_no_steps(last);
        }
    }
}

proof fn lemma_no_steps(piece: Seq<char>)
    requires
        !is_step(piece),
    ensures
        only_steps(path_pieces(piece, true)) == Seq::<Seq<char>>::empty(),
{
    reveal_with_fuel(path_pieces, 3);
    reveal_with_fuel(only_steps, 3);
    if piece.len() > 0 {
        assert(piece.drop_last() =~= Seq::empty());
        assert(path_pieces(piece, true) =~= seq![seq!['.']]);
    }
}

/// Paths that are the same everywhere may be the same: there is always an
/// answer.
pub proof fn surely_same_paths_are_possibly_same(left: Seq<char>, right: Seq<char>)
    requires
        is_surely_same_path(left, right),
    ensures
        is_possibly_same_path(left, right),
{
    lemma_split_pieces(left);
    lemma_split_pieces(right);
    lemma_split_steps(path_pieces(left, false));
    lemma_split_steps(path_pieces(right, false));
}

/// The client is told of nothing but threads of a listed source.
pub proof fn listing_holds_only_listed_sources(
    threads: Seq<StoredThreadView>,
    cwd: Option<Seq<char>>,
    sessions: Seq<SessionInfoView>,
    position: int,
)
    requires
        are_listed(threads, cwd, sessions),
        0 <= position < sessions.len(),
    ensures
        exists|index: int|
            0 <= index < threads.len() && is_listed_source((#[trigger] threads[index]).source)
                && sessions[position] == listed_session(threads[index]),
{
    let in_place = choose|in_place: Seq<bool>| #[trigger]
        tells_place(threads, cwd, in_place) && sessions == listed_sessions(threads, in_place);
    let index = lemma_listed_origin(threads, in_place, position);
    assert(is_listed_source(threads[index].source));
}

proof fn lemma_listed_origin(
    threads: Seq<StoredThreadView>,
    in_place: Seq<bool>,
    position: int,
) -> (index: int)
    requires
        0 <= position < listed_sessions(threads, in_place).len(),
    ensures
        0 <= index < threads.len(),
        is_listed_source(threads[index].source),
        in_place[index],
        listed_sessions(threads, in_place)[position] == listed_session(threads[index]),
    decreases threads.len(),
{
    let earlier = listed_sessions(threads.drop_last(), in_place);
    if position < earlier.len() {
        lemma_listed_origin(threads.drop_last(), in_place, position)
    } else {
        threads.len() - 1
    }
}

} // verus!
