//! Session titles: one trimmed line of at most a fixed number of grapheme
//! clusters.

use crate::text::{
    blank, is_blank, is_white_space, lemma_single_line_blank, lemma_trimmed_blank,
    lemma_trimmed_bounds, single_line, to_single_line, trim, trimmed,
    without_line_break,
};
use vstd::prelude::*;
use vstd::string::*;

verus! {

/// The number of grapheme clusters beyond which a session title is cut.
pub const SESSION_TITLE_MAX_GRAPHEMES: usize = 120;

/// The extended grapheme clusters of a text, in order.
pub uninterp spec fn grapheme_clusters(text: Seq<char>) -> Seq<Seq<char>>;

/// The texts of a list of string slices.
pub open spec fn slice_texts(slices: Seq<&str>) -> Seq<Seq<char>> {
    slices.map_values(|slice: &str| slice@)
}

/// The text of an optional string.
pub open spec fn optional_text(string: Option<String>) -> Option<Seq<char>> {
    match string {
        Some(text) => Some(text@),
        None => None,
    }
}

/// The text that a list of pieces makes up.
pub open spec fn joined(pieces: Seq<Seq<char>>) -> Seq<char>
    decreases pieces.len(),
{
    if pieces.len() == 0 {
        Seq::empty()
    } else {
        joined(pieces.drop_last()) + pieces.last()
    }
}

/// The text, given with its clusters, cut to `max` of them. A cut text gives
/// up its last three clusters for an ellipsis, if there is room for one.
pub open spec fn truncation(text: Seq<char>, clusters: Seq<Seq<char>>, max: nat) -> Seq<char> {
    if clusters.len() <= max {
        text
    } else if max >= 3 {
        joined(clusters.take(max - 3)) + "..."@
    } else {
        joined(clusters.take(max as int))
    }
}

/// The title that stands for a message: its trimmed single line, cut to the
/// allowed number of clusters, and none where nothing is left.
pub open spec fn session_title(message: Seq<char>) -> Option<Seq<char>> {
    let line = trimmed(single_line(message));
    if line.len() == 0 {
        None
    } else {
        Some(truncation(line, grapheme_clusters(line), SESSION_TITLE_MAX_GRAPHEMES as nat))
    }
}

/// The title of a stored session: from its name where it has one, and from
/// the preview otherwise. A blank name is a cleared one, and stays so.
pub open spec fn stored_title(name: Option<Seq<char>>, preview: Seq<char>) -> Option<Seq<char>> {
    match name {
        Some(name) => if is_blank(name) {
            None
        } else {
            session_title(name)
        },
        None => session_title(preview),
    }
}

/// `text` is a beginning of `whole` that is not empty, or such a beginning
/// followed by an ellipsis, or `whole` itself.
pub open spec fn begins_like(whole: Seq<char>, text: Seq<char>) -> bool {
    ||| text == whole
    ||| exists|count: int|
        0 < count <= whole.len() && text == #[trigger] whole.take(count) + "..."@
}

/// A text of ASCII characters, none of them a carriage return.
pub open spec fn is_plain_ascii(text: Seq<char>) -> bool {
    forall|i: int| 0 <= i < text.len() ==> #[trigger] text[i] <= '\u{7f}' && text[i] != '\r'
}

/// The text, of which every character is a cluster, cut to `max` of them.
pub open spec fn plain_truncation(text: Seq<char>, max: nat) -> Seq<char> {
    if text.len() <= max {
        text
    } else if max >= 3 {
        text.take(max - 3) + "..."@
    } else {
        text.take(max as int)
    }
}

/// The three clusters of an ellipsis.
pub open spec fn ellipsis_clusters() -> Seq<Seq<char>> {
    seq![seq!['.'], seq!['.'], seq!['.']]
}

/// `dotted` are the clusters of the text that `clusters` make up with an
/// ellipsis behind it: its first dot is a cluster of its own, or belongs to the
/// cluster before it. The latter takes a character before the dot that is not
/// ASCII.
pub open spec fn takes_ellipsis(clusters: Seq<Seq<char>>, dotted: Seq<Seq<char>>) -> bool {
    ||| dotted == clusters + ellipsis_clusters()
    ||| {
        &&& clusters.len() > 0
        &&& clusters.last().len() > 0
        &&& clusters.last().last() > '\u{7f}'
        &&& dotted == clusters.drop_last() + seq![clusters.last().push('.'), seq!['.'], seq!['.']]
    }
}

/// `UnicodeSegmentation::grapheme_indices` with extended clusters: the
/// clusters of the text, in order. They are not empty and together make up the
/// text. The text is gone through from its beginning, and what stands before a
/// place and the one character behind it decide whether a cluster ends there.
/// So the text that the first clusters make up has just these, and with an
/// ellipsis behind it, it keeps them but for the last, which may take up the
/// first dot. A character of ASCII is a cluster, unless a carriage return is
/// among them. Where else clusters end is left to the crate.
#[verifier::external_body]
fn grapheme_indices<'a>(text: &'a str) -> (clusters: Vec<&'a str>)
    ensures
        slice_texts(clusters@) == grapheme_clusters(text@),
        joined(slice_texts(clusters@)) == text@,
        forall|i: int| 0 <= i < clusters@.len() ==> (#[trigger] clusters@[i])@.len() > 0,
        is_plain_ascii(text@) ==> slice_texts(clusters@) == text@.map_values(|c: char| seq![c]),
        forall|count: int|
            0 <= count <= clusters@.len() ==> {
                let first = #[trigger] slice_texts(clusters@).take(count);
                &&& grapheme_clusters(joined(first)) == first
                &&& takes_ellipsis(first, grapheme_clusters(joined(first) + "..."@))
            },
{
    unicode_segmentation::UnicodeSegmentation::grapheme_indices(text, true).map(
        |indexed| indexed.1,
    ).collect()
}

/// The first pieces make up a beginning of what all the pieces make up. It is
/// at least as long as their number, and so is what is missing.
proof fn lemma_joined_take(pieces: Seq<Seq<char>>, count: int)
    requires
        0 <= count <= pieces.len(),
        forall|i: int| 0 <= i < pieces.len() ==> (#[trigger] pieces[i]).len() > 0,
    ensures
        count <= joined(pieces.take(count)).len(),
        joined(pieces.take(count)).len() + (pieces.len() - count) <= joined(pieces).len(),
        joined(pieces.take(count)) == joined(pieces).take(joined(pieces.take(count)).len() as int),
    decreases pieces.len(),
{
    if count == pieces.len() {
        assert(pieces.take(count) =~= pieces);
        if count > 0 {
            let rest = pieces.drop_last();
            assert forall|i: int| 0 <= i < rest.len() implies (#[trigger] rest[i]).len() > 0 by {
                assert(rest[i] == pieces[i]);
            }
            lemma_joined_take(rest, count - 1);
            assert(rest.take(count - 1) =~= rest);
            assert(pieces[count - 1].len() > 0);
        }
        assert(joined(pieces).take(joined(pieces).len() as int) =~= joined(pieces));
    } else {
        let rest = pieces.drop_last();
        assert forall|i: int| 0 <= i < rest.len() implies (#[trigger] rest[i]).len() > 0 by {
            assert(rest[i] == pieces[i]);
        }
        lemma_joined_take(rest, count);
        assert(rest.take(count) =~= pieces.take(count));
        assert(pieces[pieces.len() - 1].len() > 0);
        let length = joined(pieces.take(count)).len() as int;
        assert(joined(pieces).take(length) =~= joined(rest).take(length));
    }
}

/// The text that the first `count` slices make up.
fn join_first(slices: &Vec<&str>, count: usize) -> (result: String)
    requires
        count <= slices@.len(),
    ensures
        result@ == joined(slice_texts(slices@).take(count as int)),
{
    let mut result: String = String::new();
    let ghost texts = slice_texts(slices@);
    assert(texts.take(0) =~= Seq::empty());
    for i in 0..count
        invariant
            count <= slices@.len(),
            texts == slice_texts(slices@),
            result@ == joined(texts.take(i as int)),
    {
        result.append(slices[i]);
        assert(texts.take(i + 1).drop_last() =~= texts.take(i as int));
        assert(texts.take(i + 1).last() == slices@[i as int]@);
    }
    result
}

/// Cuts a text, given with its clusters, to `max_graphemes` of them.
pub fn truncate_clusters(text: &str, clusters: &Vec<&str>, max_graphemes: usize) -> (result: String)
    ensures
        result@ == truncation(text@, slice_texts(clusters@), max_graphemes as nat),
        clusters@.len() <= max_graphemes ==> result@ == text@,
{
    if clusters.len() > max_graphemes {
        if max_graphemes >= 3 {
            let mut cut: String = join_first(clusters, max_graphemes - 3);
            cut.append("...");
            cut
        } else {
            join_first(clusters, max_graphemes)
        }
    } else {
        text.to_string()
    }
}

/// Where every character is a piece, what the first pieces make up are the
/// first characters.
proof fn lemma_joined_characters(text: Seq<char>, count: int)
    requires
        0 <= count <= text.len(),
    ensures
        joined(text.map_values(|c: char| seq![c]).take(count)) == text.take(count),
    decreases count,
{
    let pieces = text.map_values(|c: char| seq![c]);
    if count == 0 {
        assert(pieces.take(0) =~= Seq::empty());
        assert(text.take(0) =~= Seq::empty());
    } else {
        lemma_joined_characters(text, count - 1);
        assert(pieces.take(count).drop_last() =~= pieces.take(count - 1));
        assert(text.take(count) =~= text.take(count - 1) + seq![text[count - 1]]);
    }
}

/// A text of ASCII characters has only such in the pieces that make it up.
proof fn lemma_ascii_pieces(pieces: Seq<Seq<char>>, index: int)
    requires
        0 <= index < pieces.len(),
        pieces[index].len() > 0,
        forall|i: int| 0 <= i < joined(pieces).len() ==> #[trigger] joined(pieces)[i] <= '\u{7f}',
    ensures
        pieces[index].last() <= '\u{7f}',
    decreases pieces.len(),
{
    let whole = joined(pieces);
    let rest = joined(pieces.drop_last());
    if index == pieces.len() - 1 {
        assert(whole[whole.len() - 1] == pieces[index].last());
    } else {
        assert forall|i: int| 0 <= i < rest.len() implies #[trigger] rest[i] <= '\u{7f}' by {
            assert(rest[i] == whole[i]);
        }
        lemma_ascii_pieces(pieces.drop_last(), index);
    }
}

/// Cutting what was cut to `longer` clusters further, to `shorter`, is cutting
/// the text to `shorter`, where the ellipsis has kept its clusters apart.
proof fn lemma_cut_again(
    text: Seq<char>,
    clusters: Seq<Seq<char>>,
    dotted: Seq<Seq<char>>,
    longer: nat,
    shorter: nat,
)
    requires
        3 <= shorter <= longer < clusters.len(),
        dotted == clusters.take(longer - 3) + ellipsis_clusters(),
    ensures
        truncation(truncation(text, clusters, longer), dotted, shorter) == truncation(
            text,
            clusters,
            shorter,
        ),
{
    if shorter < longer {
        assert(dotted.take(shorter - 3) =~= clusters.take(shorter - 3));
    }
}

/// Cuts a text to `max_graphemes` grapheme clusters. Where there is room for
/// an ellipsis and more, a text that is not empty keeps its first cluster.
/// Exactly the texts with too many clusters are cut, and what comes out has few
/// enough: cutting it again changes nothing. ASCII text may as well be cut in
/// two goes.
pub fn truncate_graphemes(text: &str, max_graphemes: usize) -> (result: String)
    ensures
        result@ == truncation(text@, grapheme_clusters(text@), max_graphemes as nat),
        max_graphemes > 3 ==> begins_like(text@, result@),
        result@ == text@ <==> grapheme_clusters(text@).len() <= max_graphemes,
        text@.len() <= max_graphemes ==> result@ == text@,
        is_plain_ascii(text@) ==> result@ == plain_truncation(text@, max_graphemes as nat),
        grapheme_clusters(text@).len() > max_graphemes >= 3 ==> exists|count: int|
            {
                &&& max_graphemes - 3 <= count <= text@.len()
                &&& result@ == #[trigger] text@.take(count) + seq!['.', '.', '.']
                &&& grapheme_clusters(text@.take(count)).len() == max_graphemes - 3
                &&& grapheme_clusters(text@.take(count)) == grapheme_clusters(text@).take(
                    max_graphemes - 3,
                )
            },
        grapheme_clusters(text@).len() > max_graphemes && max_graphemes < 3 ==> exists|count: int|
            {
                &&& max_graphemes <= count <= text@.len()
                &&& result@ == #[trigger] text@.take(count)
                &&& grapheme_clusters(text@.take(count)).len() == max_graphemes
                &&& grapheme_clusters(text@.take(count)) == grapheme_clusters(text@).take(
                    max_graphemes as int,
                )
            },
        grapheme_clusters(result@).len() <= max_graphemes,
        truncation(result@, grapheme_clusters(result@), max_graphemes as nat) == result@,
        forall|shorter: nat|
            3 <= shorter <= max_graphemes && (forall|i: int|
                0 <= i < text@.len() ==> #[trigger] text@[i] <= '\u{7f}') ==> #[trigger] truncation(
                result@,
                grapheme_clusters(result@),
                shorter,
            ) == truncation(text@, grapheme_clusters(text@), shorter),
{
    let clusters: Vec<&str> = grapheme_indices(text);
    let result: String = truncate_clusters(text, &clusters, max_graphemes);
    proof {
        reveal_strlit("...");
        let texts = slice_texts(clusters@);
        assert forall|i: int| 0 <= i < texts.len() implies (#[trigger] texts[i]).len() > 0 by {
            assert(texts[i] == clusters@[i]@);
        }
        lemma_joined_take(texts, 0);
        if is_plain_ascii(text@) {
            assert(texts.len() == text@.len());
            if texts.len() > max_graphemes {
                lemma_joined_characters(
                    text@,
                    if max_graphemes >= 3 {
                        max_graphemes - 3
                    } else {
                        max_graphemes as int
                    },
                );
            }
        }
        if texts.len() > max_graphemes {
            if max_graphemes >= 3 {
                let first = texts.take(max_graphemes - 3);
                let kept = joined(first);
                let dotted = grapheme_clusters(result@);
                lemma_joined_take(texts, max_graphemes - 3);
                assert(kept == text@.take(kept.len() as int));
                assert(takes_ellipsis(first, dotted));
                assert("..."@ =~= seq!['.', '.', '.']);
                assert(result@ == text@.take(kept.len() as int) + seq!['.', '.', '.']);
                assert forall|shorter: nat|
                    3 <= shorter <= max_graphemes && (forall|i: int|
                        0 <= i < text@.len() ==> #[trigger] text@[i]
                            <= '\u{7f}') implies #[trigger] truncation(result@, dotted, shorter)
                    == truncation(text@, texts, shorter) by {
                    if first.len() > 0 {
                        assert(first.last() == texts[max_graphemes - 4]);
                        lemma_ascii_pieces(texts, max_graphemes - 4);
                    }
                    lemma_cut_again(text@, texts, dotted, max_graphemes as nat, shorter);
                }
            } else {
                lemma_joined_take(texts, max_graphemes as int);
                let kept = joined(texts.take(max_graphemes as int));
                assert(grapheme_clusters(kept) == texts.take(max_graphemes as int));
                assert(result@ == text@.take(kept.len() as int));
            }
        }
    }
    result
}

/// A title may stand in a list: it is not empty, holds no line break, and
/// neither begins nor ends with white space.
pub open spec fn is_presentable(title: Seq<char>) -> bool {
    &&& title.len() > 0
    &&& !title.contains('\r')
    &&& !title.contains('\n')
    &&& !is_white_space(title[0])
    &&& !is_white_space(title.last())
}

/// A trimmed single line that is not empty is presentable, and so is a
/// beginning of it followed by an ellipsis.
proof fn lemma_presentable(message: Seq<char>, title: Seq<char>)
    requires
        trimmed(single_line(message)).len() > 0,
        begins_like(trimmed(single_line(message)), title),
    ensures
        is_presentable(title),
{
    reveal_strlit("...");
    let whole = single_line(message);
    let line = trimmed(whole);
    let (low, high) = lemma_trimmed_bounds(whole);
    assert forall|i: int| 0 <= i < line.len() implies #[trigger] line[i] != '\r' && line[i]
        != '\n' by {
        assert(line[i] == whole[low + i]);
        assert(whole[low + i] == without_line_break(message[low + i]));
    }
    assert(line[0] == whole[low]);
    assert(line.last() == whole[high - 1]);
    if title != line {
        let count = choose|count: int|
            0 < count <= line.len() && title == #[trigger] line.take(count) + "..."@;
        assert(title[0] == line[0]);
        assert(title.last() == '.');
        assert forall|i: int| 0 <= i < title.len() implies #[trigger] title[i] != '\r' && title[i]
            != '\n' by {
            if i < count {
                assert(title[i] == line[i]);
            } else {
                assert(title[i] == "..."@[i - count]);
            }
        }
    }
}

/// A text that is presentable is its own trimmed single line.
proof fn lemma_presentable_line(title: Seq<char>)
    requires
        is_presentable(title),
    ensures
        trimmed(single_line(title)) == title,
{
    assert forall|i: int| 0 <= i < title.len() implies #[trigger] single_line(title)[i]
        == title[i] by {
        assert(title.contains(title[i]));
    }
    assert(single_line(title) =~= title);
}

/// The title is the trimmed single line of the message where that is short
/// enough, whatever its clusters.
pub open spec fn keeps_short_line(message: Seq<char>, title: Option<Seq<char>>) -> bool {
    let line = trimmed(single_line(message));
    0 < line.len() <= SESSION_TITLE_MAX_GRAPHEMES ==> title == Some(line)
}

/// The title of a message in plain ASCII is cut at characters.
pub open spec fn cuts_plain_line(message: Seq<char>, title: Option<Seq<char>>) -> bool {
    let line = trimmed(single_line(message));
    is_plain_ascii(line) && line.len() > 0 ==> title == Some(
        plain_truncation(line, SESSION_TITLE_MAX_GRAPHEMES as nat),
    )
}

/// The title of a message with too long a line is a beginning of that line with
/// an ellipsis behind it, and that beginning has exactly as many clusters as
/// there is room for.
pub open spec fn cuts_long_line(message: Seq<char>, title: Option<Seq<char>>) -> bool {
    let line = trimmed(single_line(message));
    line.len() > 0 && grapheme_clusters(line).len() > 120 ==> exists|count: int|
        {
            &&& 117 <= count <= line.len()
            &&& title == Some(#[trigger] line.take(count) + seq!['.', '.', '.'])
            &&& grapheme_clusters(line.take(count)).len() == 117
            &&& grapheme_clusters(line.take(count)) == grapheme_clusters(line).take(117)
        }
}

/// The title, if there is one, is presentable, not too long, and its own title.
pub open spec fn is_settled(title: Option<Seq<char>>) -> bool {
    title matches Some(text) ==> {
        &&& is_presentable(text)
        &&& grapheme_clusters(text).len() <= SESSION_TITLE_MAX_GRAPHEMES
        &&& session_title(text) == Some(text)
    }
}

/// What a title is to be, however clusters are told apart.
pub open spec fn fits_message(message: Seq<char>, title: Option<Seq<char>>) -> bool {
    &&& title is None <==> is_blank(message)
    &&& keeps_short_line(message, title)
    &&& cuts_plain_line(message, title)
    &&& cuts_long_line(message, title)
    &&& is_settled(title)
}

/// The title that stands for a message, if it has one. A title is always
/// presentable and not too long, and formatting it again gives it back.
pub fn format_session_title(message: &str) -> (title: Option<String>)
    ensures
        optional_text(title) == session_title(message@),
        fits_message(message@, optional_text(title)),
{
    let normalized: String = to_single_line(message);
    let line: String = trim(normalized.as_str());
    proof {
        lemma_single_line_blank(message@);
        lemma_trimmed_blank(normalized@);
    }
    if line.as_str().is_empty() {
        None
    } else {
        let title: String = truncate_graphemes(line.as_str(), SESSION_TITLE_MAX_GRAPHEMES);
        proof {
            lemma_presentable(message@, title@);
            lemma_presentable_line(title@);
        }
        Some(title)
    }
}

/// The title of a stored session. An explicitly blank name gives none.
pub fn stored_session_title(name: Option<&str>, preview: &str) -> (title: Option<String>)
    ensures
        name matches Some(text) ==> {
            &&& optional_text(title) == stored_title(Some(text@), preview@)
            &&& fits_message(text@, optional_text(title))
        },
        name is None ==> {
            &&& optional_text(title) == stored_title(None, preview@)
            &&& fits_message(preview@, optional_text(title))
        },
{
    match name {
        Some(name) => if blank(name) {
            proof {
                lemma_single_line_blank(name@);
                lemma_trimmed_blank(single_line(name@));
            }
            None
        } else {
            format_session_title(name)
        },
        None => format_session_title(preview),
    }
}

/// The title that the client is told of when a session is renamed, and none
/// when the rename clears it.
pub fn notification_title_for_update(title: &str) -> (shown: Option<String>)
    ensures
        optional_text(shown) == session_title(title@),
        fits_message(title@, optional_text(shown)),
{
    format_session_title(title)
}

/// A message has a title exactly where it is not blank.
pub proof fn session_title_of_blank(message: Seq<char>)
    ensures
        session_title(message) is None <==> is_blank(message),
{
    lemma_single_line_blank(message);
    lemma_trimmed_blank(single_line(message));
}

/// A renamed session is listed under the title that the client was told of,
/// whatever its preview.
pub proof fn listed_title_is_notified_title(name: Seq<char>, preview: Seq<char>)
    ensures
        stored_title(Some(name), preview) == session_title(name),
{
    session_title_of_blank(name);
}

} // verus!
