use codex_acp::text::{blank, to_single_line, trim, underscore_white_space, white_space};
use codex_acp::title::{
    format_session_title, notification_title_for_update, stored_session_title, truncate_clusters,
    truncate_graphemes, SESSION_TITLE_MAX_GRAPHEMES,
};

#[test]
fn stored_session_title_prefers_thread_name() {
    assert_eq!(
        stored_session_title(Some("renamed"), "preview"),
        Some("renamed".to_string())
    );
}

#[test]
fn stored_session_title_falls_back_to_preview_when_name_is_absent() {
    assert_eq!(
        stored_session_title(None, "preview"),
        Some("preview".to_string())
    );
}

#[test]
fn stored_session_title_preserves_explicitly_cleared_name() {
    assert_eq!(stored_session_title(Some("  "), "preview"), None);
}

#[test]
fn notification_title_for_update_matches_session_list_formatting() {
    assert_eq!(
        notification_title_for_update("  custom\ntitle  "),
        Some("custom title".to_string())
    );
    assert_eq!(notification_title_for_update("   "), None);

    let long_title = "a".repeat(SESSION_TITLE_MAX_GRAPHEMES + 1);
    let expected = format!("{}...", "a".repeat(SESSION_TITLE_MAX_GRAPHEMES - 3));
    assert_eq!(notification_title_for_update(&long_title), Some(expected));
}

#[test]
fn white_space_is_what_std_says() {
    for c in '\0'..=char::MAX {
        assert_eq!(white_space(c), c.is_whitespace(), "{:?}", c);
    }
}

#[test]
fn trimming_is_what_std_says() {
    for text in ["", " ", "a", " a ", "\u{2003}a b\u{3000}\n", "\t\r\n", "x\u{85}"] {
        assert_eq!(trim(text), text.trim());
        assert_eq!(blank(text), text.trim().is_empty());
        assert_eq!(to_single_line(text), text.replace(['\r', '\n'], " "));
        assert_eq!(
            underscore_white_space(text),
            text.replace(|c: char| c.is_whitespace(), "_")
        );
    }
}

#[test]
fn truncation_keeps_short_texts() {
    assert_eq!(truncate_graphemes("", 0), "");
    assert_eq!(truncate_graphemes("abc", 3), "abc");
    assert_eq!(truncate_graphemes("abc", 10), "abc");
}

#[test]
fn truncation_marks_what_it_leaves_out() {
    assert_eq!(truncate_graphemes("abcdef", 5), "ab...");
    assert_eq!(truncate_graphemes("abcd", 3), "...");
}

#[test]
fn truncation_to_less_than_the_mark_cuts_plainly() {
    assert_eq!(truncate_graphemes("abcd", 2), "ab");
    assert_eq!(truncate_graphemes("abcd", 1), "a");
    assert_eq!(truncate_graphemes("abcd", 0), "");
}

#[test]
fn truncation_counts_clusters_not_characters() {
    // Five clusters of two characters each.
    let text = "e\u{301}".repeat(5);
    assert_eq!(truncate_graphemes(&text, 5), text);
    assert_eq!(truncate_graphemes(&text, 4), "e\u{301}...");
    // A family is one cluster; so is a line break of two characters.
    let family = "\u{1F468}\u{200D}\u{1F469}\u{200D}\u{1F467}";
    assert_eq!(truncate_graphemes(&format!("{family}\r\nab"), 4), format!("{family}\r\nab"));
    assert_eq!(truncate_graphemes(&format!("{family}\r\nabc"), 4), format!("{family}..."));
}

#[test]
fn given_clusters_are_counted_as_given() {
    assert_eq!(truncate_clusters("abcdef", &vec!["ab", "cd", "ef"], 2), "abcd");
    assert_eq!(truncate_clusters("abcdef", &vec!["ab", "cd", "ef"], 3), "abcdef");
    assert_eq!(
        truncate_clusters("abcdefgh", &vec!["ab", "c", "d", "ef", "gh"], 4),
        "ab..."
    );
}

#[test]
fn titles_are_one_trimmed_line() {
    assert_eq!(format_session_title("a\r\nb"), Some("a  b".to_string()));
    assert_eq!(format_session_title("\n a \n"), Some("a".to_string()));
    assert_eq!(format_session_title("\r\n\u{2003}"), None);
    assert_eq!(format_session_title(""), None);
}

#[test]
fn long_names_are_listed_as_they_are_shown() {
    let name = format!(" {}\n", "\u{e9}".repeat(500));
    let shown = notification_title_for_update(&name);
    assert_eq!(shown, Some(format!("{}...", "\u{e9}".repeat(117))));
    assert_eq!(stored_session_title(Some(&name), "preview"), shown);
    // Formatting a title again changes nothing.
    assert_eq!(format_session_title(shown.as_ref().unwrap()), shown);
}

/// Texts whose clusters are of many kinds: accents, flags, families, Hangul,
/// Devanagari, line breaks, and signs that go with what stands behind them.
fn samples() -> Vec<String> {
    vec![
        "".to_string(),
        "plain text".to_string(),
        "a\r\nb\rc\nd\u{7f}e\r\n".to_string(),
        "e\u{301}a\u{310}o\u{308}\u{332}".to_string(),
        "\u{1F1F7}\u{1F1FA}\u{1F1F8}\u{1F1F9}\u{1F1EE}".to_string(),
        "\u{1F468}\u{200D}\u{1F469}\u{200D}\u{1F467}!\u{1F44D}\u{1F3FD}".to_string(),
        "\u{1112}\u{1161}\u{11ab}\u{1100}\u{1173}\u{11af}".to_string(),
        "\u{939}\u{93f}\u{928}\u{94d}\u{926}\u{940}\u{915}\u{94d}\u{937}".to_string(),
        "\u{600}1\u{600}\u{600}2\u{6dd}".to_string(),
        "\u{301}\u{200D}x\u{200D}".to_string(),
    ]
}

fn clusters(text: &str) -> Vec<&str> {
    unicode_segmentation::UnicodeSegmentation::graphemes(text, true).collect()
}

#[test]
fn beginnings_keep_their_clusters() {
    for text in samples() {
        let all = clusters(&text);
        for count in 0..=all.len() {
            let first = all[..count].concat();
            assert_eq!(clusters(&first), all[..count].to_vec());
            let dotted = format!("{first}...");
            let found = clusters(&dotted);
            if found.len() == count + 3 {
                assert_eq!(found[..count], all[..count]);
                assert_eq!(found[count..], [".", ".", "."]);
            } else {
                assert_eq!(found.len(), count + 2);
                assert!(!first.chars().last().unwrap().is_ascii());
                assert_eq!(found[..count - 1], all[..count - 1]);
                assert_eq!(found[count - 1], format!("{}.", all[count - 1]));
                assert_eq!(found[count..], [".", "."]);
            }
        }
    }
}

#[test]
fn characters_of_plain_ascii_are_clusters() {
    let text: String = ('\0'..='\u{7f}').filter(|c| *c != '\r').collect();
    assert_eq!(clusters(&text).len(), 127);
    assert_eq!(clusters(&format!("{text}\n{text}")).len(), 255);
}

#[test]
fn exactly_long_texts_are_cut() {
    for text in samples() {
        for max in 0..12 {
            let cut = truncate_graphemes(&text, max);
            assert_eq!(cut == text, clusters(&text).len() <= max);
            assert!(clusters(&cut).len() <= max);
        }
    }
}

#[test]
fn cutting_twice_is_cutting_once() {
    for text in samples() {
        for max in 0..12 {
            let cut = truncate_graphemes(&text, max);
            assert_eq!(truncate_graphemes(&cut, max), cut);
        }
    }
}

#[test]
fn ascii_may_be_cut_in_two_goes() {
    for text in ["abcdefghijkl", "a\r\nb\r\nc\r\nd\r\ne\r\n", "\r\r\n\r\n\r\r\r\r"] {
        for longer in 3..12 {
            for shorter in 3..=longer {
                assert_eq!(
                    truncate_graphemes(&truncate_graphemes(text, longer), shorter),
                    truncate_graphemes(text, shorter)
                );
            }
        }
    }
}

#[test]
fn cut_titles_are_their_own_titles() {
    for text in samples() {
        let message = format!("x{text}y").repeat(60);
        let title = format_session_title(&message).unwrap();
        assert!(clusters(&title).len() <= SESSION_TITLE_MAX_GRAPHEMES);
        assert_eq!(format_session_title(&title), Some(title));
    }
}

#[test]
fn short_lines_are_titles_as_they_are() {
    let line = "a".repeat(120);
    assert_eq!(format_session_title(&format!(" {line}\n")), Some(line.clone()));
    assert_eq!(stored_session_title(Some(&line), "preview"), Some(line.clone()));
    assert_eq!(notification_title_for_update(&line), Some(line));
}
