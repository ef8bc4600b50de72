//! What holds of texts and titles.

use crate::text::{
    is_white_space, lemma_single_line_blank, lemma_trimmed_blank, lemma_trimmed_bounds,
    single_line, trimmed, underscored, without_line_break, without_white_space,
};
use crate::title::{grapheme_clusters, joined, session_title, stored_title, truncation};
use vstd::prelude::*;

verus! {

/// The pieces lie in the text one behind the other, from its beginning to its
/// end: each of them from one of the places `ends` to the next.
pub open spec fn are_pieces_of(text: Seq<char>, pieces: Seq<Seq<char>>, ends: Seq<int>) -> bool {
    &&& ends.len() == pieces.len() + 1
    &&& ends[0] == 0
    &&& ends.last() == text.len()
    &&& forall|i: int|
        0 <= i < pieces.len() ==> 0 <= ends[i] <= ends[i + 1] <= text.len() && #[trigger] pieces[i]
            == text.subrange(ends[i], ends[i + 1])
}

proof fn lemma_first_pieces(
    text: Seq<char>,
    pieces: Seq<Seq<char>>,
    ends: Seq<int>,
    count: int,
)
    requires
        are_pieces_of(text, pieces, ends),
        0 <= count <= pieces.len(),
    ensures
        0 <= ends[count] <= text.len(),
        joined(pieces.take(count)) == text.take(ends[count]),
    decreases count,
{
    if count == 0 {
        assert(pieces.take(0) =~= Seq::empty());
        assert(text.take(0) =~= Seq::empty());
    } else {
        lemma_first_pieces(text, pieces, ends, count - 1);
        assert(pieces.take(count).drop_last() =~= pieces.take(count - 1));
        assert(pieces.take(count).last() == pieces[count - 1]);
        assert(text.take(ends[count]) =~= text.take(ends[count - 1]) + pieces[count - 1]);
    }
}

/// A text of few enough clusters is kept whole. Of any other the first clusters
/// are kept, as many as there is room for beside the three dots of an ellipsis;
/// without room for these, as many as are allowed, and no ellipsis.
pub proof fn cut_texts_keep_their_first_clusters(
    text: Seq<char>,
    clusters: Seq<Seq<char>>,
    ends: Seq<int>,
    max: nat,
)
    requires
        are_pieces_of(text, clusters, ends),
    ensures
        clusters.len() <= max ==> truncation(text, clusters, max) == text,
        clusters.len() > max >= 3 ==> truncation(text, clusters, max) == text.take(ends[max - 3])
            + seq!['.', '.', '.'],
        clusters.len() > max && max < 3 ==> truncation(text, clusters, max) == text.take(
            ends[max as int],
        ),
{
    reveal_strlit("...");
    assert("..."@ =~= seq!['.', '.', '.']);
    if clusters.len() > max {
        lemma_first_pieces(
            text,
            clusters,
            ends,
            if max >= 3 {
                max - 3
            } else {
                max as int
            },
        );
    }
}

/// Every title is made of the part of its message between the white space at
/// either end, with a space for each line break. Up to 120 clusters that is the
/// title; beyond, its first 117 clusters and three dots are.
pub proof fn titles_are_made_of_the_message(
    message: Seq<char>,
    low: int,
    high: int,
    line: Seq<char>,
    ends: Seq<int>,
)
    requires
        0 <= low < high <= message.len(),
        !is_white_space(message[low]),
        !is_white_space(message[high - 1]),
        forall|i: int|
            0 <= i < message.len() && !(low <= i < high) ==> is_white_space(#[trigger] message[i]),
        line.len() == high - low,
        forall|i: int|
            0 <= i < line.len() ==> #[trigger] line[i] == if message[low + i] == '\r'
                || message[low + i] == '\n' {
                ' '
            } else {
                message[low + i]
            },
        are_pieces_of(line, grapheme_clusters(line), ends),
    ensures
        grapheme_clusters(line).len() <= 120 ==> session_title(message) == Some(line),
        grapheme_clusters(line).len() > 120 ==> session_title(message) == Some(
            line.take(ends[117]) + seq!['.', '.', '.'],
        ),
{
    let whole = single_line(message);
    assert forall|i: int| 0 <= i < whole.len() implies #[trigger] whole[i] == without_line_break(
        message[i],
    ) by {}
    let (from, to) = lemma_trimmed_bounds(whole);
    assert(!is_white_space(whole[low]));
    assert(!is_white_space(whole[high - 1]));
    assert(from <= low < high <= to);
    if from < low {
        assert(is_white_space(message[from]));
        assert(is_white_space(whole[from]));
    }
    if high < to {
        assert(is_white_space(message[to - 1]));
        assert(is_white_space(whole[to - 1]));
    }
    assert(trimmed(whole) =~= line) by {
        assert forall|i: int| 0 <= i < line.len() implies #[trigger] line[i] == trimmed(
            whole,
        )[i] by {
            assert(trimmed(whole)[i] == whole[low + i]);
        }
    }
    cut_texts_keep_their_first_clusters(line, grapheme_clusters(line), ends, 120);
}

/// A message of nothing but white space has no title, and every other has one.
pub proof fn blank_messages_have_no_title(message: Seq<char>)
    ensures
        session_title(message) is None <==> forall|i: int|
            0 <= i < message.len() ==> is_white_space(#[trigger] message[i]),
{
    lemma_single_line_blank(message);
    lemma_trimmed_blank(single_line(message));
}

/// A stored name alone decides on the title, and a preview does so where there
/// is no name: just as that preview would as a name, and as the title of either
/// text is.
pub proof fn names_come_before_previews(
    name: Seq<char>,
    preview: Seq<char>,
    other_preview: Seq<char>,
)
    ensures
        stored_title(Some(name), preview) == session_title(name),
        stored_title(Some(name), preview) == stored_title(Some(name), other_preview),
        stored_title(None, preview) == stored_title(Some(preview), other_preview),
        (forall|i: int| 0 <= i < name.len() ==> is_white_space(#[trigger] name[i]))
            ==> stored_title(Some(name), preview) is None,
{
    blank_messages_have_no_title(name);
    blank_messages_have_no_title(preview);
}

/// Putting a text on one line changes its line breaks into spaces, and nothing
/// else.
pub proof fn single_lines_keep_other_characters(text: Seq<char>, i: int)
    requires
        0 <= i < text.len(),
    ensures
        single_line(text).len() == text.len(),
        text[i] == '\r' || text[i] == '\n' ==> single_line(text)[i] == ' ',
        text[i] != '\r' && text[i] != '\n' ==> single_line(text)[i] == text[i],
{
    assert(single_line(text)[i] == without_line_break(text[i]));
}

/// Underscoring a text changes its white space into underscores, and nothing
/// else.
pub proof fn underscores_keep_other_characters(text: Seq<char>, i: int)
    requires
        0 <= i < text.len(),
    ensures
        underscored(text).len() == text.len(),
        is_white_space(text[i]) ==> underscored(text)[i] == '_',
        !is_white_space(text[i]) ==> underscored(text)[i] == text[i],
{
    assert(underscored(text)[i] == without_white_space(text[i]));
}

/// What is trimmed off a text is white space, and what is left begins and ends
/// with something else.
pub proof fn trimming_takes_white_space_only(text: Seq<char>) -> (bounds: (int, int))
    ensures
        0 <= bounds.0 <= bounds.1 <= text.len(),
        trimmed(text) == text.subrange(bounds.0, bounds.1),
        forall|i: int|
            0 <= i < text.len() && !(bounds.0 <= i < bounds.1) ==> is_white_space(
                #[trigger] text[i],
            ),
        bounds.0 < bounds.1 ==> !is_white_space(text[bounds.0]) && !is_white_space(
            text[bounds.1 - 1],
        ),
{
    lemma_trimmed_bounds(text)
}

/// White space are the spaces, tabs and line breaks of Unicode, and no letter,
/// digit or mark of ASCII.
pub proof fn white_space_is_that_of_unicode(c: char)
    ensures
        is_white_space(c) <==> {
            ||| c == ' ' || c == '\t' || c == '\n' || c == '\r' || c == '\u{b}' || c == '\u{c}'
            ||| c == '\u{85}' || c == '\u{a0}' || c == '\u{1680}' || c == '\u{2028}'
            ||| c == '\u{2029}' || c == '\u{202f}' || c == '\u{205f}' || c == '\u{3000}'
            ||| '\u{2000}' <= c && c <= '\u{200a}'
        },
{
}

} // verus!
