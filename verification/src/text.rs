//! Text as a sequence of characters: white space, trimming and single-line
//! rewriting.

use vstd::prelude::*;

verus! {

/// `String::push` appends one character to the end of the string and changes
/// nothing else.
pub assume_specification[ String::push ](string: &mut String, c: char)
    ensures
        final(string)@ == old(string)@.push(c),
;

/// The Unicode `White_Space` property.
pub open spec fn is_white_space(c: char) -> bool {
    let code = c as u32;
    ||| 0x09 <= code <= 0x0d
    ||| code == 0x20
    ||| code == 0x85
    ||| code == 0xa0
    ||| code == 0x1680
    ||| 0x2000 <= code <= 0x200a
    ||| code == 0x2028
    ||| code == 0x2029
    ||| code == 0x202f
    ||| code == 0x205f
    ||| code == 0x3000
}

/// True of a text that holds nothing but white space.
pub open spec fn is_blank(text: Seq<char>) -> bool {
    forall|i: int| 0 <= i < text.len() ==> is_white_space(#[trigger] text[i])
}

/// The text without its leading white space.
pub open spec fn trimmed_start(text: Seq<char>) -> Seq<char>
    decreases text.len(),
{
    if text.len() > 0 && is_white_space(text[0]) {
        trimmed_start(text.skip(1))
    } else {
        text
    }
}

/// The text without its trailing white space.
pub open spec fn trimmed_end(text: Seq<char>) -> Seq<char>
    decreases text.len(),
{
    if text.len() > 0 && is_white_space(text.last()) {
        trimmed_end(text.drop_last())
    } else {
        text
    }
}

/// The text without white space at either end.
pub open spec fn trimmed(text: Seq<char>) -> Seq<char> {
    trimmed_end(trimmed_start(text))
}

/// A line break becomes a space; every other character stays.
pub open spec fn without_line_break(c: char) -> char {
    if c == '\r' || c == '\n' {
        ' '
    } else {
        c
    }
}

/// The text with every carriage return and line feed replaced by a space.
pub open spec fn single_line(text: Seq<char>) -> Seq<char> {
    text.map_values(|c: char| without_line_break(c))
}

/// White space becomes an underscore; every other character stays.
pub open spec fn without_white_space(c: char) -> char {
    if is_white_space(c) {
        '_'
    } else {
        c
    }
}

/// The text with every white space character replaced by an underscore.
pub open spec fn underscored(text: Seq<char>) -> Seq<char> {
    text.map_values(|c: char| without_white_space(c))
}

/// Tells whether a character has the `White_Space` property.
pub fn white_space(c: char) -> (result: bool)
    ensures
        result == is_white_space(c),
{
    let code: u32 = c as u32;
    (0x09 <= code && code <= 0x0d) || code == 0x20 || code == 0x85 || code == 0xa0 || code == 0x1680
        || (0x2000 <= code && code <= 0x200a) || code == 0x2028 || code == 0x2029 || code == 0x202f
        || code == 0x205f || code == 0x3000
}

/// Tells whether a text holds nothing but white space.
pub fn blank(text: &str) -> (result: bool)
    ensures
        result == is_blank(text@),
        result <==> forall|i: int| 0 <= i < text@.len() ==> is_white_space(#[trigger] text@[i]),
{
    for c in it: text.chars()
        invariant
            it.seq() == text@,
            forall|i: int| 0 <= i < it.index() ==> is_white_space(#[trigger] text@[i]),
    {
        if !white_space(c) {
            assert(text@[it.index()] == c);
            return false;
        }
    }
    true
}

/// Replaces every carriage return and line feed by a space.
pub fn to_single_line(text: &str) -> (result: String)
    ensures
        result@ == single_line(text@),
{
    let mut result: String = String::new();
    for c in it: text.chars()
        invariant
            it.seq() == text@,
            result@ == single_line(text@.take(it.index())),
    {
        let kept: char = if c == '\r' || c == '\n' {
            ' '
        } else {
            c
        };
        result.push(kept);
        assert(single_line(text@.take(it.index() + 1)) =~= single_line(
            text@.take(it.index()),
        ).push(without_line_break(c)));
    }
    assert(text@.take(text@.len() as int) =~= text@);
    result
}

/// Replaces every white space character by an underscore.
pub fn underscore_white_space(text: &str) -> (result: String)
    ensures
        result@ == underscored(text@),
{
    let mut result: String = String::new();
    for c in it: text.chars()
        invariant
            it.seq() == text@,
            result@ == underscored(text@.take(it.index())),
    {
        let kept: char = if white_space(c) {
            '_'
        } else {
            c
        };
        result.push(kept);
        assert(underscored(text@.take(it.index() + 1)) =~= underscored(
            text@.take(it.index()),
        ).push(without_white_space(c)));
    }
    assert(text@.take(text@.len() as int) =~= text@);
    result
}

/// Skipping the first `count` characters trims the start, where these are the
/// leading white space.
proof fn lemma_trimmed_start(text: Seq<char>, count: int)
    requires
        0 <= count <= text.len(),
        forall|i: int| 0 <= i < count ==> is_white_space(#[trigger] text[i]),
        count < text.len() ==> !is_white_space(text[count]),
    ensures
        trimmed_start(text) == text.skip(count),
    decreases count,
{
    if count == 0 {
        assert(text.skip(0) =~= text);
    } else {
        let rest = text.skip(1);
        assert(is_white_space(text[0]));
        assert forall|i: int| 0 <= i < count - 1 implies is_white_space(#[trigger] rest[i]) by {
            assert(rest[i] == text[i + 1]);
        }
        lemma_trimmed_start(rest, count - 1);
        assert(rest.skip(count - 1) =~= text.skip(count));
    }
}

/// Taking the first `count` characters trims the end, where the others are
/// the trailing white space.
proof fn lemma_trimmed_end(text: Seq<char>, count: int)
    requires
        0 <= count <= text.len(),
        forall|i: int| count <= i < text.len() ==> is_white_space(#[trigger] text[i]),
        count > 0 ==> !is_white_space(text[count - 1]),
    ensures
        trimmed_end(text) == text.take(count),
    decreases text.len() - count,
{
    if count == text.len() {
        assert(text.take(count) =~= text);
    } else {
        let rest = text.drop_last();
        assert(is_white_space(text[text.len() - 1]));
        assert forall|i: int| count <= i < rest.len() implies is_white_space(
            #[trigger] rest[i],
        ) by {
            assert(rest[i] == text[i]);
        }
        lemma_trimmed_end(rest, count);
        assert(rest.take(count) =~= text.take(count));
    }
}

/// Where the trimmed text lies in the text: all around it is white space, and
/// it neither begins nor ends with white space.
pub proof fn lemma_trimmed_bounds(text: Seq<char>) -> (bounds: (int, int))
    ensures
        0 <= bounds.0 <= bounds.1 <= text.len(),
        trimmed(text) == text.subrange(bounds.0, bounds.1),
        forall|i: int|
            0 <= i < text.len() && !(bounds.0 <= i < bounds.1) ==> is_white_space(
                #[trigger] text[i],
            ),
        bounds.0 < bounds.1 ==> !is_white_space(text[bounds.0]) && !is_white_space(
            text[bounds.1 - 1],
        ),
    decreases text.len(),
{
    if text.len() > 0 && is_white_space(text[0]) {
        let rest = text.skip(1);
        let (low, high) = lemma_trimmed_bounds(rest);
        assert(rest.subrange(low, high) =~= text.subrange(low + 1, high + 1));
        assert forall|i: int|
            0 <= i < text.len() && !(low + 1 <= i < high + 1) implies is_white_space(
            #[trigger] text[i],
        ) by {
            if i > 0 {
                assert(rest[i - 1] == text[i]);
            }
        }
        (low + 1, high + 1)
    } else {
        let high = lemma_trimmed_end_bound(text);
        assert(text.take(high) =~= text.subrange(0, high));
        if high > 0 {
            assert(!is_white_space(text[0]));
        }
        (0, high)
    }
}

proof fn lemma_trimmed_end_bound(text: Seq<char>) -> (high: int)
    ensures
        0 <= high <= text.len(),
        trimmed_end(text) == text.take(high),
        forall|i: int| high <= i < text.len() ==> is_white_space(#[trigger] text[i]),
        high > 0 ==> !is_white_space(text[high - 1]),
    decreases text.len(),
{
    if text.len() > 0 && is_white_space(text.last()) {
        let rest = text.drop_last();
        let high = lemma_trimmed_end_bound(rest);
        assert(rest.take(high) =~= text.take(high));
        assert forall|i: int| high <= i < text.len() implies is_white_space(#[trigger] text[i]) by {
            if i < rest.len() {
                assert(rest[i] == text[i]);
            }
        }
        high
    } else {
        assert(text.take(text.len() as int) =~= text);
        text.len() as int
    }
}

/// Trimming leaves nothing exactly where the text is blank.
pub proof fn lemma_trimmed_blank(text: Seq<char>)
    ensures
        trimmed(text).len() == 0 <==> is_blank(text),
{
    let (low, high) = lemma_trimmed_bounds(text);
    if low < high {
        assert(!is_white_space(text[low]));
    }
}

/// Putting a text on one line keeps it blank, or not blank.
pub proof fn lemma_single_line_blank(text: Seq<char>)
    ensures
        is_blank(single_line(text)) <==> is_blank(text),
{
    let line = single_line(text);
    assert forall|i: int| 0 <= i < text.len() implies is_white_space(#[trigger] line[i])
        == is_white_space(text[i]) by {
        assert(line[i] == without_line_break(text[i]));
    }
    if is_blank(line) {
        assert forall|i: int| 0 <= i < text.len() implies is_white_space(#[trigger] text[i]) by {
            assert(is_white_space(line[i]));
        }
    }
}

/// A text without white space at either end.
pub fn trim(text: &str) -> (result: String)
    ensures
        result@ == trimmed(text@),
{
    let mut chars: Vec<char> = Vec::new();
    for c in it: text.chars()
        invariant
            it.seq() == text@,
            chars@ == text@.take(it.index()),
    {
        chars.push(c);
        assert(text@.take(it.index() + 1) =~= text@.take(it.index()).push(c));
    }
    assert(chars@ =~= text@);
    let mut low: usize = 0;
    while low < chars.len() && white_space(chars[low])
        invariant
            low <= chars.len(),
            forall|i: int| 0 <= i < low ==> is_white_space(#[trigger] chars@[i]),
        decreases chars.len() - low,
    {
        low = low + 1;
    }
    let mut high: usize = chars.len();
    while low < high && white_space(chars[high - 1])
        invariant
            low <= high <= chars.len(),
            forall|i: int| high <= i < chars.len() ==> is_white_space(#[trigger] chars@[i]),
        decreases high,
    {
        high = high - 1;
    }
    let ghost rest = chars@.skip(low as int);
    proof {
        lemma_trimmed_start(chars@, low as int);
        assert forall|i: int| high - low <= i < rest.len() implies is_white_space(
            #[trigger] rest[i],
        ) by {
            assert(rest[i] == chars@[i + low]);
        }
        lemma_trimmed_end(rest, high - low);
    }
    let mut result: String = String::new();
    let mut next: usize = low;
    while next < high
        invariant
            low <= next <= high <= chars.len(),
            result@ == chars@.subrange(low as int, next as int),
        decreases high - next,
    {
        result.push(chars[next]);
        next = next + 1;
        assert(result@ =~= chars@.subrange(low as int, next as int));
    }
    assert(result@ =~= rest.take(high - low));
    result
}

} // verus!
