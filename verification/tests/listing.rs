use codex_acp::listing::{
    list_threads_params, select_sessions, sessions_on_page, SessionSource, SortDirection,
    StoredThread, ThreadSortKey, SESSION_LIST_PAGE_SIZE,
};

fn thread(id: &str, source: SessionSource, cwd: &str, name: Option<&str>) -> StoredThread {
    StoredThread {
        thread_id: id.to_string(),
        source,
        cwd: cwd.to_string(),
        name: name.map(|name| name.to_string()),
        preview: "preview".to_string(),
        updated_at: "2024-01-01T00:00:00+00:00".to_string(),
    }
}

fn ids(threads: &Vec<StoredThread>, cwd: Option<&str>) -> Vec<String> {
    sessions_on_page(threads, &cwd.map(|cwd| cwd.to_string()))
        .into_iter()
        .map(|session| session.session_id)
        .collect()
}

#[test]
fn listings_ask_for_the_latest_threads() {
    let params = list_threads_params(&None, Some("next".to_string()));
    assert_eq!(params.page_size, 25);
    assert_eq!(params.page_size, SESSION_LIST_PAGE_SIZE);
    assert_eq!(params.cursor, Some("next".to_string()));
    assert_eq!(params.sort_key, ThreadSortKey::UpdatedAt);
    assert_eq!(params.sort_direction, SortDirection::Desc);
    assert_eq!(
        params.allowed_sources,
        vec![SessionSource::Cli, SessionSource::VSCode, SessionSource::Unknown]
    );
    assert!(params.model_providers.is_none());
    assert!(params.cwd_filters.is_none());
    assert!(!params.archived);
    assert!(params.search_term.is_none());
    assert!(!params.use_state_db_only);
}

#[test]
fn listings_ask_for_one_directory() {
    let params = list_threads_params(&Some("/work".to_string()), None);
    assert_eq!(params.cwd_filters, Some(vec!["/work".to_string()]));
    assert_eq!(params.cursor, None);
}

#[test]
fn sessions_of_other_sources_are_not_listed() {
    let threads = vec![
        thread("a", SessionSource::Cli, "/x", None),
        thread("b", SessionSource::Other, "/x", None),
        thread("c", SessionSource::VSCode, "/y", None),
        thread("d", SessionSource::Unknown, "/x", None),
    ];
    assert_eq!(ids(&threads, None), vec!["a", "c", "d"]);
}

#[test]
fn sessions_of_other_directories_are_not_listed() {
    let threads = vec![
        thread("a", SessionSource::Cli, "/x", None),
        thread("b", SessionSource::Cli, "/x/y", None),
        thread("c", SessionSource::Other, "/x", None),
        thread("d", SessionSource::Cli, "/x", None),
    ];
    assert_eq!(ids(&threads, Some("/x")), vec!["a", "d"]);
}

#[test]
fn directories_are_compared_as_paths() {
    let threads = vec![
        thread("a", SessionSource::Cli, "/x/", None),
        thread("b", SessionSource::Cli, "/x/./y", None),
        thread("c", SessionSource::Cli, "/xy", None),
    ];
    assert_eq!(ids(&threads, Some("/x")), vec!["a"]);
    assert_eq!(ids(&threads, Some("/x/y")), vec!["b"]);
}

#[test]
fn sessions_are_described_by_name_or_preview() {
    let threads = vec![
        thread("a", SessionSource::Cli, "/x", Some(" given\nname ")),
        thread("b", SessionSource::Cli, "/x", None),
        thread("c", SessionSource::Cli, "/x", Some(" ")),
    ];
    let sessions = select_sessions(&threads, &vec![true, true, true]);
    let titles: Vec<Option<String>> =
        sessions.iter().map(|session| session.title.clone()).collect();
    assert_eq!(
        titles,
        vec![Some("given name".to_string()), Some("preview".to_string()), None]
    );
    assert_eq!(sessions[0].session_id, "a");
    assert_eq!(sessions[0].cwd, "/x");
    assert_eq!(sessions[0].updated_at, "2024-01-01T00:00:00+00:00");
}

#[test]
fn selection_goes_by_what_is_said_of_the_place() {
    let threads = vec![
        thread("a", SessionSource::Cli, "/x", None),
        thread("b", SessionSource::Cli, "/x", None),
        thread("c", SessionSource::Other, "/x", None),
    ];
    let chosen = select_sessions(&threads, &vec![false, true, true]);
    assert_eq!(chosen.len(), 1);
    assert_eq!(chosen[0].session_id, "b");
}

#[test]
fn directories_may_be_written_in_different_ways() {
    let spellings = ["/x/y", "/x/y/", "/x//y", "/x/./y", "/x/y/."];
    for stored in spellings {
        for asked in spellings {
            let threads = vec![thread("a", SessionSource::Cli, stored, None)];
            assert_eq!(ids(&threads, Some(asked)), vec!["a"], "{} {}", stored, asked);
        }
    }
    let threads = vec![
        thread("a", SessionSource::Cli, "C:/x/y/", None),
        thread("b", SessionSource::Cli, "C:/x/z", None),
    ];
    assert_eq!(ids(&threads, Some("C:/x/y")), vec!["a"]);
}

#[test]
fn different_directories_are_told_apart() {
    let different = [
        "/x/y", "x/y", "./x/y", "/x/y/z", "/xy", "/X/y", "/x/../y", "/", ".", "", "C:\\a", "C:\\b",
        "C:\\a\\b", "C:/b",
    ];
    for (i, stored) in different.iter().enumerate() {
        for (j, asked) in different.iter().enumerate() {
            let threads = vec![thread("a", SessionSource::Cli, stored, None)];
            assert_eq!(ids(&threads, Some(asked)).len() == 1, i == j, "{} {}", stored, asked);
        }
    }
}
