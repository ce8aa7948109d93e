//! Text as a sequence of characters: decoding, substring search and lines.

use vstd::prelude::*;

verus! {

/// `needle` stands in `text` at position `at`.
pub open spec fn occurs_at(text: Seq<char>, needle: Seq<char>, at: int) -> bool {
    &&& 0 <= at
    &&& at + needle.len() <= text.len()
    &&& text.subrange(at, at + needle.len()) == needle
}

/// `needle` is a contiguous part of `text`.
pub open spec fn contains(text: Seq<char>, needle: Seq<char>) -> bool {
    exists|at: int| occurs_at(text, needle, at)
}

/// `start..end` is a line of `text` without its newline: it begins at the
/// start of the text or behind a newline, holds no newline, and ends at a
/// newline or at the end of the text. The empty rest behind a final newline
/// is no line.
pub open spec fn is_line(text: Seq<char>, start: int, end: int) -> bool {
    &&& 0 <= start <= end <= text.len()
    &&& start < text.len()
    &&& start == 0 || text[start - 1] == '\n'
    &&& end == text.len() || text[end] == '\n'
    &&& forall|k: int| start <= k < end ==> text[k] != '\n'
}

/// Where the content of the line `start..end` ends: a carriage return
/// directly before the closing newline belongs to the line ending.
pub open spec fn content_end(text: Seq<char>, start: int, end: int) -> int {
    if start < end < text.len() && text[end - 1] == '\r' {
        end - 1
    } else {
        end
    }
}

/// The content of the line `start..end`, without its line ending.
pub open spec fn line_text(text: Seq<char>, start: int, end: int) -> Seq<char> {
    text.subrange(start, content_end(text, start, end))
}

/// Every needle is a part of `line`.
pub open spec fn has_all(line: Seq<char>, needles: Seq<Seq<char>>) -> bool {
    forall|i: int| 0 <= i < needles.len() ==> contains(line, #[trigger] needles[i])
}

/// Some line of `text` holds every needle.
pub open spec fn some_line_has_all(text: Seq<char>, needles: Seq<Seq<char>>) -> bool {
    exists|start: int, end: int|
        #[trigger] is_line(text, start, end) && has_all(line_text(text, start, end), needles)
}

/// No newline stands in `text[from..to]`.
pub open spec fn unbroken(text: Seq<char>, from: int, to: int) -> bool {
    forall|k: int| from <= k < to && 0 <= k < text.len() ==> text[k] != '\n'
}

/// The needles as character sequences.
pub open spec fn needle_seqs(needles: Seq<Vec<char>>) -> Seq<Seq<char>> {
    needles.map_values(|needle: Vec<char>| needle@)
}

/// The lower-case form that `str::to_lowercase` gives a text.
pub uninterp spec fn lowercase(text: Seq<char>) -> Seq<char>;

/// The text that `String::from_utf8_lossy` reads out of bytes.
pub uninterp spec fn lossy_text(bytes: Seq<u8>) -> Seq<char>;

/// Calls `str::to_lowercase`, which maps each character by the Unicode
/// lower-case mapping. The contract only names the result: the same text
/// always gives the same lower-case form.
#[verifier::external_body]
pub(crate) fn to_lowercase(text: &str) -> (lowered: String)
    ensures
        lowered@ == lowercase(text@),
{
    text.to_lowercase()
}

/// Calls `String::from_utf8_lossy`, which decodes UTF-8 and puts U+FFFD in
/// the place of what is not. The contract only names the result: the same
/// bytes always give the same text.
#[verifier::external_body]
pub(crate) fn decode_lossy(bytes: &[u8]) -> (text: String)
    ensures
        text@ == lossy_text(bytes@),
{
    String::from_utf8_lossy(bytes).into_owned()
}

/// Tells whether two texts hold the same characters.
pub fn same_text(left: &str, right: &str) -> (same: bool)
    ensures
        same == (left@ == right@),
{
    left.to_owned() == right.to_owned()
}

/// The characters of `text`, in order.
pub fn chars_of(text: &str) -> (chars: Vec<char>)
    ensures
        chars@ == text@,
{
    let mut chars: Vec<char> = Vec::new();
    for c in it: text.chars()
        invariant
            chars@ == text@.take(it.index()),
            it.seq() == text@,
    {
        chars.push(c);
    }
    chars
}

/// Tells whether `needle` stands in `text` at `at`.
pub fn matches_at(text: &[char], needle: &[char], at: usize) -> (found: bool)
    ensures
        found == occurs_at(text@, needle@, at as int),
{
    if at > text.len() || needle.len() > text.len() - at {
        return false;
    }
    let mut k: usize = 0;
    while k < needle.len()
        invariant
            k <= needle.len(),
            at + needle.len() <= text.len(),
            forall|j: int| 0 <= j < k ==> text@[at + j] == needle@[j],
        decreases needle.len() - k,
    {
        if text[at + k] != needle[k] {
            proof {
                let part = text@.subrange(at as int, at + needle.len());
                assert(part[k as int] == text@[at + k]);
            }
            return false;
        }
        k += 1;
    }
    assert(text@.subrange(at as int, at + needle.len()) =~= needle@);
    true
}

/// `from..to` is a part of a text of `len` characters.
pub open spec fn is_window(len: nat, from: int, to: int) -> bool {
    0 <= from <= to <= len
}

/// Tells whether `needle` is a part of `text[from..to]`. Where `from..to`
/// is no part of the text, nothing is.
pub fn window_contains(text: &[char], from: usize, to: usize, needle: &[char]) -> (found: bool)
    ensures
        found == (is_window(text@.len(), from as int, to as int) && contains(
            text@.subrange(from as int, to as int),
            needle@,
        )),
{
    if from > to || to > text.len() {
        return false;
    }
    let ghost window = text@.subrange(from as int, to as int);
    if needle.len() > to - from {
        assert forall|at: int| !occurs_at(window, needle@, at) by {}
        return false;
    }
    let last: usize = to - needle.len();
    let mut at: usize = from;
    while at <= last
        invariant
            from <= at <= last + 1,
            last + needle.len() == to,
            from <= to <= text.len(),
            window == text@.subrange(from as int, to as int),
            forall|p: int| 0 <= p < at - from ==> !occurs_at(window, needle@, p),
        decreases last + 1 - at,
    {
        let hit = matches_at(text, needle, at);
        proof {
            let n = needle@.len() as int;
            assert(window.subrange(at - from, at - from + n) =~= text@.subrange(at as int, at + n));
        }
        if hit {
            assert(occurs_at(window, needle@, at - from));
            return true;
        }
        assert(needle@.len() > 0) by {
            if needle@.len() == 0 {
                assert(text@.subrange(at as int, at as int) =~= needle@);
            }
        }
        at += 1;
    }
    assert forall|p: int| !occurs_at(window, needle@, p) by {}
    false
}

/// The end of the line that begins at `start`: the next newline, or the end
/// of the text. Behind the text nothing begins, and the end is `start`
/// itself.
pub fn line_end(text: &[char], start: usize) -> (end: usize)
    ensures
        start <= end,
        start <= text.len() ==> end <= text.len(),
        start <= text.len() ==> end == text.len() || text@[end as int] == '\n',
        start > text.len() ==> end == start,
        forall|k: int| start <= k < end ==> text@[k] != '\n',
{
    if start > text.len() {
        return start;
    }
    let mut end: usize = start;
    while end < text.len() && text[end] != '\n'
        invariant
            start <= end <= text.len(),
            forall|k: int| start <= k < end ==> text@[k] != '\n',
        decreases text.len() - end,
    {
        end += 1;
    }
    end
}

/// Tells whether every needle is a part of `text[from..to]`. Where
/// `from..to` is no part of the text, the answer is no.
pub fn window_contains_all(
    text: &[char],
    from: usize,
    to: usize,
    needles: &Vec<Vec<char>>,
) -> (found: bool)
    ensures
        found == (is_window(text@.len(), from as int, to as int) && has_all(
            text@.subrange(from as int, to as int),
            needle_seqs(needles@),
        )),
{
    if from > to || to > text.len() {
        return false;
    }
    let ghost window = text@.subrange(from as int, to as int);
    let mut i: usize = 0;
    while i < needles.len()
        invariant
            i <= needles.len(),
            from <= to <= text.len(),
            window == text@.subrange(from as int, to as int),
            forall|j: int| 0 <= j < i ==> contains(window, #[trigger] needle_seqs(needles@)[j]),
        decreases needles.len() - i,
    {
        if !window_contains(text, from, to, needles[i].as_slice()) {
            assert(needle_seqs(needles@)[i as int] == needles@[i as int]@);
            return false;
        }
        assert(needle_seqs(needles@)[i as int] == needles@[i as int]@);
        i += 1;
    }
    true
}

/// Tells whether some line of `text` holds every needle.
pub fn some_line_contains_all(text: &[char], needles: &Vec<Vec<char>>) -> (found: bool)
    ensures
        found == some_line_has_all(text@, needle_seqs(needles@)),
{
    let ghost wanted = needle_seqs(needles@);
    let mut start: usize = 0;
    while start < text.len()
        invariant
            start <= text.len(),
            start == 0 || text@[start - 1] == '\n',
            wanted == needle_seqs(needles@),
            forall|s: int, e: int|
                #[trigger] is_line(text@, s, e) && s < start ==> !has_all(
                    line_text(text@, s, e),
                    wanted,
                ),
        decreases text.len() - start,
    {
        let end = line_end(text, start);
        assert(is_line(text@, start as int, end as int));
        let stop = if start < end && end < text.len() && text[end - 1] == '\r' {
            end - 1
        } else {
            end
        };
        if window_contains_all(text, start, stop, needles) {
            return true;
        }
        assert forall|s: int, e: int| #[trigger] is_line(text@, s, e) && s <= end implies !has_all(
            line_text(text@, s, e),
            wanted,
        ) by {
            if s == start {
                assert(e == end);
            } else if s > start {
                assert(text@[s - 1] == '\n');
            }
        }
        if end == text.len() {
            return false;
        }
        start = end + 1;
    }
    false
}

/// What shares a line is not parted by a newline: two needles in the
/// content of one line stand in the text itself, at the line's start plus
/// their place in the line, and no newline stands anywhere from the first
/// character of the one that begins first to the last character of the one
/// that ends last.
pub proof fn lemma_same_line_is_unbroken(
    text: Seq<char>,
    start: int,
    end: int,
    first: Seq<char>,
    first_at: int,
    second: Seq<char>,
    second_at: int,
)
    requires
        is_line(text, start, end),
        occurs_at(line_text(text, start, end), first, first_at),
        occurs_at(line_text(text, start, end), second, second_at),
    ensures
        occurs_at(text, first, start + first_at),
        occurs_at(text, second, start + second_at),
        unbroken(
            text,
            vstd::math::min(start + first_at, start + second_at),
            vstd::math::max(
                start + first_at + first.len(),
                start + second_at + second.len(),
            ),
        ),
{
    let line = line_text(text, start, end);
    assert(text.subrange(start + first_at, start + first_at + first.len()) =~= line.subrange(
        first_at,
        first_at + first.len(),
    ));
    assert(text.subrange(start + second_at, start + second_at + second.len()) =~= line.subrange(
        second_at,
        second_at + second.len(),
    ));
}

/// Where the line around `at` begins.
proof fn line_start_before(text: Seq<char>, at: int) -> (start: int)
    requires
        0 <= at <= text.len(),
    ensures
        0 <= start <= at,
        start == 0 || text[start - 1] == '\n',
        forall|k: int| start <= k < at ==> text[k] != '\n',
    decreases at,
{
    if at == 0 || text[at - 1] == '\n' {
        at
    } else {
        line_start_before(text, at - 1)
    }
}

/// Where the line around `at` ends.
proof fn line_end_after(text: Seq<char>, at: int) -> (end: int)
    requires
        0 <= at <= text.len(),
    ensures
        at <= end <= text.len(),
        end == text.len() || text[end] == '\n',
        forall|k: int| at <= k < end ==> text[k] != '\n',
    decreases text.len() - at,
{
    if at == text.len() || text[at] == '\n' {
        at
    } else {
        line_end_after(text, at + 1)
    }
}

/// What no newline parts shares a line: two needles that stand in the text
/// with no newline from the first character of the one that begins first
/// to the last character of the one that ends last are both in the content
/// of one line. A carriage return may belong to a line ending, so the
/// needles hold none; and one of them is not empty, so there is a line for
/// them to stand in.
pub proof fn lemma_unbroken_is_same_line(
    text: Seq<char>,
    first: Seq<char>,
    first_at: int,
    second: Seq<char>,
    second_at: int,
)
    requires
        occurs_at(text, first, first_at),
        occurs_at(text, second, second_at),
        unbroken(
            text,
            vstd::math::min(first_at, second_at),
            vstd::math::max(first_at + first.len(), second_at + second.len()),
        ),
        first.len() > 0 || second.len() > 0,
        !first.contains('\r'),
        !second.contains('\r'),
    ensures
        exists|start: int, end: int|
            {
                &&& #[trigger] is_line(text, start, end)
                &&& contains(line_text(text, start, end), first)
                &&& contains(line_text(text, start, end), second)
            },
{
    let low = vstd::math::min(first_at, second_at);
    let high = vstd::math::max(first_at + first.len(), second_at + second.len());
    let start = line_start_before(text, low);
    let end = line_end_after(text, high);
    assert(is_line(text, start, end));
    lemma_needle_in_content(text, start, end, first, first_at);
    lemma_needle_in_content(text, start, end, second, second_at);
}

/// A needle without a carriage return that stands in the line `start..end`
/// is a part of the line's content.
proof fn lemma_needle_in_content(text: Seq<char>, start: int, end: int, needle: Seq<char>, at: int)
    requires
        is_line(text, start, end),
        occurs_at(text, needle, at),
        start <= at,
        at + needle.len() <= end,
        !needle.contains('\r'),
    ensures
        contains(line_text(text, start, end), needle),
{
    let stop = content_end(text, start, end);
    let line = line_text(text, start, end);
    if needle.len() == 0 {
        assert(line.subrange(0, 0) =~= needle);
        assert(occurs_at(line, needle, 0));
    } else {
        if at + needle.len() == end && stop < end {
            assert(text.subrange(at, at + needle.len())[needle.len() - 1] == '\r');
            assert(needle.contains(needle[needle.len() - 1]));
        }
        assert(line.subrange(at - start, at - start + needle.len()) =~= text.subrange(
            at,
            at + needle.len(),
        ));
        assert(occurs_at(line, needle, at - start));
    }
}

} // verus!
