//! White space at the ends of a text.

use vstd::prelude::*;

verus! {

/// Whether `c` has the Unicode property `White_Space`.
pub open spec fn is_white_space(c: char) -> bool {
    let code = c as u32;
    ||| 0x9 <= code <= 0xd
    ||| code == 0x20
    ||| code == 0x85
    ||| code == 0xa0
    ||| code == 0x1680
    ||| 0x2000 <= code <= 0x200a
    ||| code == 0x2028
    ||| code == 0x2029
    ||| code == 0x202f
    ||| code == 0x205f
    ||| code == 0x3000
}

/// Whether `c` has the Unicode property `White_Space`.
pub fn white_space(c: char) -> (white: bool)
    ensures
        white == is_white_space(c),
{
    let code = c as u32;
    (0x9 <= code && code <= 0xd) || code == 0x20 || code == 0x85 || code == 0xa0 || code == 0x1680
        || (0x2000 <= code && code <= 0x200a) || code == 0x2028 || code == 0x2029 || code == 0x202f
        || code == 0x205f || code == 0x3000
}

/// `text` without the white space that it starts with.
pub open spec fn start_trimmed(text: Seq<char>) -> Seq<char>
    decreases text.len(),
{
    if text.len() > 0 && is_white_space(text[0]) {
        start_trimmed(text.drop_first())
    } else {
        text
    }
}

/// `text` without the white space that it ends with.
pub open spec fn end_trimmed(text: Seq<char>) -> Seq<char>
    decreases text.len(),
{
    if text.len() > 0 && is_white_space(text.last()) {
        end_trimmed(text.drop_last())
    } else {
        text
    }
}

/// `text` without the white space at its ends.
pub open spec fn trimmed(text: Seq<char>) -> Seq<char> {
    end_trimmed(start_trimmed(text))
}

proof fn lemma_start_trimmed(text: Seq<char>, start: int)
    requires
        0 <= start <= text.len(),
        forall|j: int| 0 <= j < start ==> is_white_space(#[trigger] text[j]),
        start < text.len() ==> !is_white_space(text[start]),
    ensures
        start_trimmed(text) == text.skip(start),
    decreases start,
{
    if start > 0 {
        let rest = text.drop_first();
        assert forall|j: int| 0 <= j < start - 1 implies is_white_space(#[trigger] rest[j]) by {
            assert(rest[j] == text[j + 1]);
        }
        lemma_start_trimmed(rest, start - 1);
        assert(is_white_space(text[0]));
        assert(rest.skip(start - 1) =~= text.skip(start));
    } else {
        assert(text.skip(0) =~= text);
    }
}

proof fn lemma_end_trimmed(text: Seq<char>, end: int)
    requires
        0 <= end <= text.len(),
        forall|j: int| end <= j < text.len() ==> is_white_space(#[trigger] text[j]),
        end > 0 ==> !is_white_space(text[end - 1]),
    ensures
        end_trimmed(text) == text.take(end),
    decreases text.len() - end,
{
    if end < text.len() {
        lemma_end_trimmed(text.drop_last(), end);
        assert(is_white_space(text[text.len() - 1]));
        assert(text.drop_last().take(end) =~= text.take(end));
    } else {
        assert(text.take(end) =~= text);
    }
}

/// The number of characters of white space that `text` starts with, and the
/// number of characters up to the last one that is not white space.
fn bounds(text: &str) -> (bounds: (usize, usize))
    ensures
        bounds.0 <= text@.len(),
        bounds.1 <= text@.len(),
        forall|j: int| 0 <= j < bounds.0 ==> is_white_space(#[trigger] text@[j]),
        bounds.0 < text@.len() ==> !is_white_space(text@[bounds.0 as int]),
        forall|j: int| bounds.1 <= j < text@.len() ==> is_white_space(#[trigger] text@[j]),
        bounds.1 > 0 ==> !is_white_space(text@[bounds.1 - 1]),
        bounds.0 < text@.len() ==> bounds.0 < bounds.1,
{
    let count = text.unicode_len();
    let mut at: usize = 0;
    let mut start: usize = 0;
    let mut end: usize = 0;
    for c in it: text.chars()
        invariant
            it.seq() == text@,
            count == text@.len(),
            at == it.index(),
            start <= at,
            end <= at,
            forall|j: int| 0 <= j < start ==> is_white_space(#[trigger] text@[j]),
            start < at ==> !is_white_space(text@[start as int]),
            forall|j: int| end <= j < at ==> is_white_space(#[trigger] text@[j]),
            end > 0 ==> !is_white_space(text@[end - 1]),
            start < at ==> start < end,
    {
        assert(c == text@[at as int]);
        if white_space(c) {
            if start == at {
                start = at + 1;
            }
        } else {
            end = at + 1;
        }
        at = at + 1;
    }
    (start, end)
}

/// `text` without the white space at its ends.
pub fn trim(text: &str) -> (inner: &str)
    ensures
        inner@ == trimmed(text@),
{
    let (start, end) = bounds(text);
    proof {
        lemma_start_trimmed(text@, start as int);
    }
    if start < end {
        proof {
            let rest = text@.skip(start as int);
            assert forall|j: int| end - start <= j < rest.len() implies is_white_space(
                #[trigger] rest[j],
            ) by {
                assert(rest[j] == text@[j + start]);
            }
            lemma_end_trimmed(rest, end - start);
            assert(rest.take(end - start) =~= text@.subrange(start as int, end as int));
        }
        text.substring_char(start, end)
    } else {
        proof {
            assert(text@.skip(start as int) =~= seq![]);
            assert(text@.subrange(0, 0) =~= seq![]);
        }
        text.substring_char(0, 0)
    }
}

/// `text` without the white space that it ends with.
pub fn trim_end(text: &str) -> (inner: &str)
    ensures
        inner@ == end_trimmed(text@),
{
    let (_, end) = bounds(text);
    proof {
        lemma_end_trimmed(text@, end as int);
        assert(text@.take(end as int) =~= text@.subrange(0, end as int));
    }
    text.substring_char(0, end)
}

proof fn lemma_start_trimmed_line(line: Seq<char>)
    ensures
        start_trimmed(line.push('\n')) == (if start_trimmed(line).len() == 0 {
            seq![]
        } else {
            start_trimmed(line).push('\n')
        }),
    decreases line.len(),
{
    let whole = line.push('\n');
    assert(is_white_space('\n'));
    if line.len() == 0 {
        assert(whole.drop_first() =~= seq![]);
        assert(start_trimmed(whole.drop_first()) =~= seq![]);
    } else {
        assert(whole[0] == line[0]);
        if is_white_space(line[0]) {
            lemma_start_trimmed_line(line.drop_first());
            assert(whole.drop_first() =~= line.drop_first().push('\n'));
        }
    }
}

/// The line feed that ends a line makes no difference to its trimmed text.
pub proof fn lemma_trimmed_line(line: Seq<char>)
    ensures
        trimmed(line.push('\n')) == trimmed(line),
{
    lemma_start_trimmed_line(line);
    assert(is_white_space('\n'));
    let inner = start_trimmed(line);
    if inner.len() > 0 {
        assert(inner.push('\n').drop_last() =~= inner);
        assert(inner.push('\n').last() == '\n');
    } else {
        assert(inner =~= seq![]);
    }
}

proof fn lemma_start_trimmed_is_a_tail(text: Seq<char>)
    ensures
        ({
            let inner = start_trimmed(text);
            &&& inner.len() <= text.len()
            &&& inner == text.skip(text.len() - inner.len())
            &&& forall|j: int|
                0 <= j < text.len() - inner.len() ==> is_white_space(#[trigger] text[j])
            &&& inner.len() > 0 ==> !is_white_space(inner[0])
        }),
    decreases text.len(),
{
    if text.len() > 0 && is_white_space(text[0]) {
        let rest = text.drop_first();
        lemma_start_trimmed_is_a_tail(rest);
        let inner = start_trimmed(text);
        assert(inner =~= text.skip(text.len() - inner.len()));
        assert forall|j: int| 0 <= j < text.len() - inner.len() implies is_white_space(
            #[trigger] text[j],
        ) by {
            if j > 0 {
                assert(is_white_space(rest[j - 1]));
            }
        }
    } else {
        assert(text =~= text.skip(0));
    }
}

/// Trimming the end takes away the white space that a text ends with, and
/// nothing else.
pub proof fn law_trimming_the_end_takes_only_white_space(text: Seq<char>)
    ensures
        end_trimmed(text).len() <= text.len(),
        end_trimmed(text) == text.take(end_trimmed(text).len() as int),
        forall|j: int|
            end_trimmed(text).len() <= j < text.len() ==> is_white_space(#[trigger] text[j]),
        end_trimmed(text).len() > 0 ==> !is_white_space(end_trimmed(text).last()),
    decreases text.len(),
{
    if text.len() > 0 && is_white_space(text.last()) {
        law_trimming_the_end_takes_only_white_space(text.drop_last());
        let inner = end_trimmed(text);
        assert(inner =~= text.take(inner.len() as int));
        assert forall|j: int| inner.len() <= j < text.len() implies is_white_space(
            #[trigger] text[j],
        ) by {
            if j < text.len() - 1 {
                assert(is_white_space(text.drop_last()[j]));
            }
        }
    } else {
        assert(text =~= text.take(text.len() as int));
    }
}

/// Trimming takes away the white space at both ends of a text, and nothing else:
/// between white space before it and white space after it stands the trimmed
/// text, which neither starts nor ends with white space.
pub proof fn law_trimming_takes_only_white_space(text: Seq<char>)
    ensures
        exists|before: Seq<char>, after: Seq<char>|
            {
                &&& #[trigger] (before + trimmed(text) + after) == text
                &&& forall|j: int| 0 <= j < before.len() ==> is_white_space(#[trigger] before[j])
                &&& forall|j: int| 0 <= j < after.len() ==> is_white_space(#[trigger] after[j])
            },
        trimmed(text).len() > 0 ==> !is_white_space(trimmed(text)[0]) && !is_white_space(
            trimmed(text).last(),
        ),
{
    let rest = start_trimmed(text);
    let inner = trimmed(text);
    lemma_start_trimmed_is_a_tail(text);
    law_trimming_the_end_takes_only_white_space(rest);
    let before = text.take(text.len() - rest.len());
    let after = rest.skip(inner.len() as int);
    assert(rest =~= inner + after);
    assert forall|j: int| 0 <= j < before.len() implies is_white_space(#[trigger] before[j]) by {
        assert(before[j] == text[j]);
    }
    assert forall|j: int| 0 <= j < after.len() implies is_white_space(#[trigger] after[j]) by {
        assert(after[j] == rest[inner.len() + j]);
    }
    if inner.len() > 0 {
        assert(inner[0] == rest[0]);
    }
    assert(before + trimmed(text) + after =~= text);
}

/// White space are the tab, the line feed, the vertical tab, the form feed, the
/// carriage return, the space, the next line, the no-break spaces, the spaces of
/// fixed and mathematical width, the Ogham and the ideographic space, and the
/// separators of lines and paragraphs.
pub proof fn law_which_characters_are_white_space(c: char)
    ensures
        is_white_space(c) <==> c == '\t' || c == '\n' || c == '\u{b}' || c == '\u{c}' || c == '\r'
            || c == ' ' || c == '\u{85}' || c == '\u{a0}' || c == '\u{1680}' || c == '\u{2000}'
            || c == '\u{2001}' || c == '\u{2002}' || c == '\u{2003}' || c == '\u{2004}'
            || c == '\u{2005}' || c == '\u{2006}' || c == '\u{2007}' || c == '\u{2008}'
            || c == '\u{2009}' || c == '\u{200a}' || c == '\u{2028}' || c == '\u{2029}'
            || c == '\u{202f}' || c == '\u{205f}' || c == '\u{3000}',
{
}

/// Whatever stands between white space and white space is what trimming finds,
/// and of white space alone trimming leaves nothing.
pub proof fn law_trimming_finds_the_text(before: Seq<char>, inner: Seq<char>, after: Seq<char>)
    requires
        forall|j: int| 0 <= j < before.len() ==> is_white_space(#[trigger] before[j]),
        forall|j: int| 0 <= j < after.len() ==> is_white_space(#[trigger] after[j]),
        inner.len() > 0,
        !is_white_space(inner[0]),
        !is_white_space(inner.last()),
    ensures
        trimmed(before + inner + after) == inner,
        end_trimmed(inner + after) == inner,
        trimmed(before).len() == 0,
        end_trimmed(before).len() == 0,
{
    let text = before + inner + after;
    let rest = start_trimmed(text);
    lemma_start_trimmed_is_a_tail(text);
    let skipped = text.len() - rest.len();
    if skipped > before.len() {
        assert(is_white_space(text[before.len() as int]));
        assert(text[before.len() as int] == inner[0]);
    }
    if skipped < before.len() {
        assert(rest[0] == text[skipped]);
        assert(text[skipped] == before[skipped]);
    }
    assert(rest =~= inner + after);
    lemma_end_is_found(inner, after);
    lemma_all_white(before);
}

proof fn lemma_end_is_found(inner: Seq<char>, after: Seq<char>)
    requires
        forall|j: int| 0 <= j < after.len() ==> is_white_space(#[trigger] after[j]),
        inner.len() > 0,
        !is_white_space(inner.last()),
    ensures
        end_trimmed(inner + after) == inner,
{
    let text = inner + after;
    let found = end_trimmed(text);
    law_trimming_the_end_takes_only_white_space(text);
    if found.len() < inner.len() {
        assert(is_white_space(text[inner.len() - 1]));
    }
    if found.len() > inner.len() {
        assert(found.last() == text[found.len() - 1]);
        assert(text[found.len() - 1] == after[found.len() - 1 - inner.len()]);
    }
    assert(found =~= inner);
}

proof fn lemma_all_white(text: Seq<char>)
    requires
        forall|j: int| 0 <= j < text.len() ==> is_white_space(#[trigger] text[j]),
    ensures
        trimmed(text).len() == 0,
        end_trimmed(text).len() == 0,
{
    lemma_start_trimmed_is_a_tail(text);
    let rest = start_trimmed(text);
    if rest.len() > 0 {
        assert(rest[0] == text[text.len() - rest.len()]);
    }
    law_trimming_the_end_takes_only_white_space(rest);
    law_trimming_the_end_takes_only_white_space(text);
    if end_trimmed(text).len() > 0 {
        assert(end_trimmed(text).last() == text[end_trimmed(text).len() - 1]);
    }
}

} // verus!
