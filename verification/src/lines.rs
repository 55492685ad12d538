//! Lines of a text, and the window of lines that a file read asks for.

use vstd::prelude::*;
use vstd::utf8::*;

use crate::text::lemma_encode_concat;

verus! {

broadcast use {encode_utf8_valid_utf8, encode_utf8_decode_utf8};

/// `line` without one trailing carriage return.
pub open spec fn strip_carriage_return(line: Seq<char>) -> Seq<char> {
    if line.len() > 0 && line.last() == '\r' {
        line.drop_last()
    } else {
        line
    }
}

/// The lines of `text`.
///
/// A line ends at a line feed or at the end of the text, and a final line feed
/// opens no further line. A line that ends at a line feed also loses the
/// carriage return right before it.
pub open spec fn text_lines(text: Seq<char>) -> Seq<Seq<char>>
    decreases text.len(),
{
    if text.len() == 0 {
        seq![]
    } else if !text.contains('\n') {
        seq![text]
    } else {
        let end = text.index_of_first('\n')->0;
        if 0 <= end < text.len() {
            seq![strip_carriage_return(text.take(end))] + text_lines(text.skip(end + 1))
        } else {
            seq![]
        }
    }
}

/// `parts` one after the other, with `separator` between neighbours.
pub open spec fn joined(parts: Seq<Seq<char>>, separator: Seq<char>) -> Seq<char>
    decreases parts.len(),
{
    if parts.len() == 0 {
        seq![]
    } else if parts.len() == 1 {
        parts[0]
    } else {
        joined(parts.drop_last(), separator) + separator + parts.last()
    }
}

/// The number of lines that come before the 1-based line `line`.
pub open spec fn lines_before(line: Option<u32>) -> nat {
    match line {
        Some(first) if first > 0 => (first - 1) as nat,
        _ => 0,
    }
}

/// `lines` without its first `skip` elements, cut to at most `limit` elements.
pub open spec fn line_window(lines: Seq<Seq<char>>, skip: nat, limit: Option<u32>) -> Seq<
    Seq<char>,
> {
    let from = if skip <= lines.len() {
        lines.skip(skip as int)
    } else {
        seq![]
    };
    match limit {
        Some(most) if most < from.len() => from.take(most as int),
        _ => from,
    }
}

/// What a read of `contents` from line `line` on, of at most `limit` lines, gives.
pub open spec fn sliced(contents: Seq<char>, line: Option<u32>, limit: Option<u32>) -> Seq<char> {
    if line is None && limit is None {
        contents
    } else {
        joined(line_window(text_lines(contents), lines_before(line), limit), seq!['\n'])
    }
}

/// The characters behind each of `lines`.
pub open spec fn line_views(lines: Seq<String>) -> Seq<Seq<char>> {
    lines.map_values(|line: String| line@)
}

/// Characters with the same code point are the same character.
pub proof fn lemma_same_char(c: char, d: char)
    requires
        c as u32 == d as u32,
    ensures
        c == d,
{
}

/// A non-ASCII character has only non-ASCII bytes, an ASCII character is its own byte.
proof fn lemma_scalar_bytes(c: char)
    ensures
        c as u32 <= 0x7f ==> encode_scalar(c as u32).len() == 1 && encode_scalar(c as u32)[0] as u32
            == c as u32,
        c as u32 > 0x7f ==> forall|j: int|
            0 <= j < encode_scalar(c as u32).len() ==> #[trigger] encode_scalar(c as u32)[j] >= 0x80,
        encode_scalar(c as u32).len() > 0,
{
    let v: u32 = c as u32;
    if v <= 0x7f {
        assert(v as u8 == leading_byte_width_1(v)) by (bit_vector)
            requires
                v <= 0x7f,
        ;
    } else {
        assert(leading_byte_width_2(v) >= 0x80) by (bit_vector);
        assert(leading_byte_width_3(v) >= 0x80) by (bit_vector);
        assert(leading_byte_width_4(v) >= 0x80) by (bit_vector);
        assert(last_continuation_byte(v) >= 0x80) by (bit_vector);
        assert(second_last_continuation_byte(v) >= 0x80) by (bit_vector);
        assert(third_last_continuation_byte(v) >= 0x80) by (bit_vector);
    }
}

/// An encoding that opens with an ASCII byte opens with that character.
proof fn lemma_ascii_first(text: Seq<char>)
    requires
        encode_utf8(text).len() > 0,
        encode_utf8(text)[0] <= 0x7f,
    ensures
        text.len() > 0,
        text[0] as u32 == encode_utf8(text)[0] as u32,
        length_of_first_scalar(encode_utf8(text)) == 1,
{
    lemma_scalar_bytes(text[0]);
    encode_utf8_first_scalar(text);
    assert(encode_utf8(text)[0] == encode_scalar(text[0] as u32)[0]);
}

/// A text of one byte is a text of one character.
proof fn lemma_one_byte(text: Seq<char>)
    requires
        encode_utf8(text).len() == 1,
    ensures
        text.len() == 1,
{
    let tail = text.drop_first();
    lemma_scalar_bytes(text[0]);
    assert(encode_utf8(text) == encode_scalar(text[0] as u32) + encode_utf8(tail));
    if tail.len() > 0 {
        lemma_scalar_bytes(tail[0]);
        assert(encode_utf8(tail) == encode_scalar(tail[0] as u32) + encode_utf8(
            tail.drop_first(),
        ));
    }
}

/// An ASCII character of a text is a byte of its encoding.
proof fn lemma_ascii_in_bytes(text: Seq<char>, at: int)
    requires
        0 <= at < text.len(),
        text[at] as u32 <= 0x7f,
    ensures
        exists|j: int|
            0 <= j < encode_utf8(text).len() && #[trigger] encode_utf8(text)[j] as u32
                == text[at] as u32,
    decreases text.len(),
{
    lemma_scalar_bytes(text[0]);
    let head = encode_scalar(text[0] as u32);
    let tail = encode_utf8(text.drop_first());
    if at == 0 {
        assert(encode_utf8(text)[0] as u32 == text[0] as u32);
    } else {
        lemma_ascii_in_bytes(text.drop_first(), at - 1);
        let j = choose|j: int|
            0 <= j < tail.len() && #[trigger] tail[j] as u32 == text[at] as u32;
        assert(encode_utf8(text)[head.len() + j] == tail[j]);
    }
}

/// An ASCII byte stands at the start of a character.
proof fn lemma_ascii_is_boundary(text: Seq<char>, at: int)
    requires
        0 <= at < encode_utf8(text).len(),
        encode_utf8(text)[at] <= 0x7f,
    ensures
        is_char_boundary(encode_utf8(text), at),
{
    is_char_boundary_iff_not_is_continuation_byte(encode_utf8(text), at);
    let b = encode_utf8(text)[at];
    assert(!is_continuation_byte(b)) by (bit_vector)
        requires
            b <= 0x7f,
    ;
}

/// Cuts `text` in two at the byte offset `mid`.
pub fn split_text(text: &str, mid: usize) -> (halves: (&str, &str))
    requires
        is_char_boundary(encode_utf8(text@), mid as int),
        mid <= encode_utf8(text@).len(),
    ensures
        text@ == halves.0@ + halves.1@,
        encode_utf8(halves.0@) == encode_utf8(text@).subrange(0, mid as int),
        encode_utf8(halves.1@) == encode_utf8(text@).subrange(
            mid as int,
            encode_utf8(text@).len() as int,
        ),
{
    let halves = text.split_at(mid);
    proof {
        let bytes = encode_utf8(text@);
        decode_utf8_split(bytes, mid as int);
        assert(decode_utf8(encode_utf8(halves.0@)) == halves.0@);
        assert(decode_utf8(encode_utf8(halves.1@)) == halves.1@);
        assert(decode_utf8(bytes) == text@);
    }
    halves
}

/// The byte offset of the first `wanted` in `text`, if there is one.
fn find_ascii(text: &str, wanted: u8) -> (found: Option<usize>)
    requires
        wanted <= 0x7f,
    ensures
        found is None ==> forall|k: int|
            0 <= k < text@.len() ==> #[trigger] text@[k] as u32 != wanted as u32,
        found matches Some(at) ==> {
            &&& at < encode_utf8(text@).len()
            &&& encode_utf8(text@)[at as int] == wanted
            &&& forall|j: int| 0 <= j < at ==> #[trigger] encode_utf8(text@)[j] != wanted
        },
{
    let bytes = text.as_bytes();
    let mut i: usize = 0;
    while i < bytes.len()
        invariant
            i <= bytes@.len(),
            bytes@ == encode_utf8(text@),
            forall|j: int| 0 <= j < i ==> #[trigger] bytes@[j] != wanted,
        decreases bytes@.len() - i,
    {
        if bytes[i] == wanted {
            return Some(i);
        }
        i += 1;
    }
    proof {
        assert forall|k: int| 0 <= k < text@.len() implies #[trigger] text@[k] as u32
            != wanted as u32 by {
            if text@[k] as u32 == wanted as u32 {
                lemma_ascii_in_bytes(text@, k);
            }
        }
    }
    None
}

/// Cuts `text` at its first line feed, which belongs to neither part.
pub fn split_first_line(text: &str) -> (parts: Option<(&str, &str)>)
    ensures
        parts is None <==> !text@.contains('\n'),
        parts matches Some((line, rest)) ==> {
            &&& text@ == line@ + seq!['\n'] + rest@
            &&& !line@.contains('\n')
        },
{
    match find_ascii(text, 10u8) {
        None => None,
        Some(at) => {
            proof {
                lemma_ascii_is_boundary(text@, at as int);
            }
            let (line, from_feed) = split_text(text, at);
            proof {
                lemma_ascii_first(from_feed@);
                assert(is_char_boundary(encode_utf8(from_feed@), 1)) by {
                    reveal_with_fuel(is_char_boundary, 2);
                }
            }
            let (feed, rest) = split_text(from_feed, 1);
            proof {
                lemma_ascii_first(feed@);
                lemma_one_byte(feed@);
                assert(encode_utf8(feed@)[0] == encode_utf8(text@)[at as int]);
                lemma_same_char(feed@[0], '\n');
                assert(feed@ =~= seq!['\n']);
                assert(text@ =~= line@ + seq!['\n'] + rest@);
                assert(text@[line@.len() as int] == '\n');
                assert(!line@.contains('\n')) by {
                    if line@.contains('\n') {
                        let k = choose|k: int| 0 <= k < line@.len() && line@[k] == '\n';
                        lemma_ascii_in_bytes(line@, k);
                    }
                }
            }
            Some((line, rest))
        },
    }
}

/// Whether `text` holds a line feed.
pub fn has_line_feed(text: &str) -> (found: bool)
    ensures
        found == text@.contains('\n'),
{
    split_first_line(text).is_some()
}

/// `line` without one trailing carriage return.
fn without_carriage_return(line: &str) -> (stripped: &str)
    ensures
        stripped@ == strip_carriage_return(line@),
{
    let bytes = line.as_bytes();
    let len = bytes.len();
    if len > 0 && bytes[len - 1] == 13u8 {
        proof {
            lemma_ascii_is_boundary(line@, len - 1);
        }
        let (body, end) = split_text(line, len - 1);
        proof {
            lemma_one_byte(end@);
            lemma_ascii_first(end@);
            lemma_same_char(end@[0], '\r');
            assert(line@ =~= body@.push('\r'));
            assert(line@.drop_last() =~= body@);
        }
        body
    } else {
        proof {
            if line@.len() > 0 && line@.last() == '\r' {
                let body = line@.drop_last();
                assert(line@ =~= body + seq!['\r']);
                lemma_encode_concat(body, seq!['\r']);
                lemma_scalar_bytes('\r');
                reveal_with_fuel(encode_utf8, 2);
                assert(encode_utf8(seq!['\r']) =~= encode_scalar('\r' as u32));
                assert(bytes@[len - 1] == 13u8);
            }
        }
        line
    }
}

/// Taking the first line off a text takes the first of its lines.
proof fn lemma_lines_step(line: Seq<char>, rest: Seq<char>)
    requires
        !line.contains('\n'),
    ensures
        text_lines(line + seq!['\n'] + rest) == seq![strip_carriage_return(line)] + text_lines(
            rest,
        ),
{
    let text = line + seq!['\n'] + rest;
    assert(text[line.len() as int] == '\n');
    text.index_of_first_ensures('\n');
    let end = text.index_of_first('\n')->0;
    if end < line.len() {
        assert(line[end] == '\n');
    }
    assert(end == line.len());
    assert(text.take(end) =~= line);
    assert(text.skip(end + 1) =~= rest);
}

/// The lines of `text`, each in a string of its own.
pub fn split_lines(text: &str) -> (lines: Vec<String>)
    ensures
        line_views(lines@) == text_lines(text@),
{
    let mut lines: Vec<String> = Vec::new();
    let mut rest: &str = text;
    proof {
        assert(line_views(lines@) + text_lines(rest@) =~= text_lines(text@));
    }
    loop
        invariant
            line_views(lines@) + text_lines(rest@) == text_lines(text@),
        decreases rest@.len(),
    {
        match split_first_line(rest) {
            Some((line, tail)) => {
                let ghost before = lines@;
                let stripped = without_carriage_return(line);
                lines.push(stripped.to_owned());
                proof {
                    lemma_lines_step(line@, tail@);
                    assert(line_views(lines@) =~= line_views(before).push(
                        strip_carriage_return(line@),
                    ));
                    assert(line_views(lines@) + text_lines(tail@) =~= line_views(before)
                        + text_lines(rest@));
                }
                rest = tail;
            },
            None => {
                let ghost before = lines@;
                if !rest.is_empty() {
                    lines.push(rest.to_owned());
                    proof {
                        assert(line_views(lines@) =~= line_views(before).push(rest@));
                    }
                }
                proof {
                    assert(line_views(lines@) =~= line_views(before) + text_lines(rest@));
                }
                return lines;
            },
        }
    }
}

/// `lines[from..to]`, one after the other, with `separator` between neighbours.
pub fn join_range(lines: &Vec<String>, from: usize, to: usize, separator: &str) -> (text: String)
    requires
        from <= to <= lines@.len(),
    ensures
        text@ == joined(line_views(lines@).subrange(from as int, to as int), separator@),
{
    let mut text = String::new();
    let mut i: usize = from;
    let ghost views = line_views(lines@);
    proof {
        assert(views.subrange(from as int, from as int) =~= seq![]);
    }
    while i < to
        invariant
            from <= i <= to <= lines@.len(),
            views == line_views(lines@),
            text@ == joined(views.subrange(from as int, i as int), separator@),
        decreases to - i,
    {
        proof {
            let grown = views.subrange(from as int, i + 1);
            assert(grown.drop_last() =~= views.subrange(from as int, i as int));
            assert(grown.last() == lines@[i as int]@);
        }
        if i > from {
            text.append(separator);
        }
        text.append(lines[i].as_str());
        proof {
            let grown = views.subrange(from as int, i + 1);
            if i > from {
                assert(text@ =~= joined(grown.drop_last(), separator@) + separator@ + grown.last());
            } else {
                assert(text@ =~= grown[0]);
            }
        }
        i += 1;
    }
    text
}

/// Applies line slicing to the contents of a file: `line` is the 1-based first
/// line to hand out, `limit` the maximum number of lines.
///
/// With neither given the contents come back as they are. Otherwise the lines
/// come back joined by single line feeds, without a final one.
pub fn slice_lines(contents: &str, line: Option<u32>, limit: Option<u32>) -> (text: String)
    ensures
        text@ == sliced(contents@, line, limit),
{
    if line.is_none() && limit.is_none() {
        return contents.to_owned();
    }
    let skip: u32 = match line {
        Some(first) => if first > 0 { first - 1 } else { 0 },
        None => 0,
    };
    let lines = split_lines(contents);
    let len = lines.len();
    let ghost views = line_views(lines@);
    proof {
        reveal_strlit("\n");
        assert("\n"@ =~= seq!['\n']);
    }
    if skip as usize >= len {
        proof {
            assert(line_window(views, skip as nat, limit) =~= views.subrange(len as int, len as int));
        }
        return join_range(&lines, len, len, "\n");
    }
    let from = skip as usize;
    let to = match limit {
        Some(most) => if (most as usize) < len - from { from + most as usize } else { len },
        None => len,
    };
    proof {
        assert(line_window(views, skip as nat, limit) =~= views.subrange(from as int, to as int));
    }
    join_range(&lines, from, to, "\n")
}

/// Without a first line and a limit a file is read as it is.
pub proof fn law_a_whole_file_is_read_unchanged(contents: Seq<char>)
    ensures
        sliced(contents, None, None) == contents,
{
}

/// Lines are counted from 1, and 0 counts as 1.
pub proof fn law_lines_count_from_one(contents: Seq<char>, limit: Option<u32>)
    ensures
        sliced(contents, Some(0), limit) == sliced(contents, Some(1), limit),
        sliced(contents, Some(1), limit) == joined(
            line_window(text_lines(contents), 0, limit),
            seq!['\n'],
        ),
{
}

/// Reading `limit` lines and then the lines after them reads all lines: pages
/// neither overlap nor leave a gap. No page is longer than its limit.
pub proof fn law_pages_fit_together(lines: Seq<Seq<char>>, skip: nat, limit: u32)
    ensures
        line_window(lines, skip, Some(limit)) + line_window(lines, skip + limit as nat, None)
            == line_window(lines, skip, None),
        line_window(lines, skip, Some(limit)).len() <= limit,
        skip >= lines.len() ==> line_window(lines, skip, Some(limit)).len() == 0,
{
    assert(line_window(lines, skip, Some(limit)) + line_window(lines, skip + limit as nat, None)
        =~= line_window(lines, skip, None));
}

proof fn lemma_joined_in_parts(
    first: Seq<Seq<char>>,
    second: Seq<Seq<char>>,
    separator: Seq<char>,
)
    requires
        first.len() > 0,
        second.len() > 0,
    ensures
        joined(first + second, separator) == joined(first, separator) + separator + joined(
            second,
            separator,
        ),
    decreases second.len(),
{
    let all = first + second;
    assert(all.drop_last() =~= first + second.drop_last());
    assert(all.last() == second.last());
    if second.len() == 1 {
        assert(first + second.drop_last() =~= first);
    } else {
        lemma_joined_in_parts(first, second.drop_last(), separator);
        assert(joined(all, separator) =~= joined(first, separator) + separator + joined(
            second,
            separator,
        ));
    }
}

/// Reading a file page by page reads all of it: a page of `limit` lines, a line
/// feed, and the text from the line after the page on, are the text from the
/// first line of the page on. A page that reaches the end of the file is that
/// text alone, and nothing is left after it.
pub proof fn law_pages_join_to_the_text(contents: Seq<char>, line: u32, limit: u32)
    requires
        line >= 1,
        limit >= 1,
        line + limit <= u32::MAX,
    ensures
        ({
            let page = sliced(contents, Some(line), Some(limit));
            let rest = sliced(contents, Some((line + limit) as u32), None);
            let text = sliced(contents, Some(line), None);
            if line - 1 + limit < text_lines(contents).len() {
                text == page + seq!['\n'] + rest
            } else {
                text == page && rest.len() == 0
            }
        }),
{
    let lines = text_lines(contents);
    let skip = (line - 1) as nat;
    let page = line_window(lines, skip, Some(limit));
    let rest = line_window(lines, skip + limit as nat, None);
    law_pages_fit_together(lines, skip, limit);
    if skip + limit < lines.len() {
        lemma_joined_in_parts(page, rest, seq!['\n']);
    } else {
        assert(rest =~= seq![]);
        assert(page =~= line_window(lines, skip, None));
    }
}

/// Pieces of text, each followed by a line feed.
pub open spec fn with_feeds(pieces: Seq<Seq<char>>) -> Seq<char>
    decreases pieces.len(),
{
    if pieces.len() == 0 {
        seq![]
    } else {
        pieces[0] + seq!['\n'] + with_feeds(pieces.drop_first())
    }
}

/// Pieces of text with a line feed between neighbours.
pub open spec fn with_feeds_between(pieces: Seq<Seq<char>>) -> Seq<char>
    decreases pieces.len(),
{
    if pieces.len() == 0 {
        seq![]
    } else if pieces.len() == 1 {
        pieces[0]
    } else {
        pieces[0] + seq!['\n'] + with_feeds_between(pieces.drop_first())
    }
}

/// The lines of a text are what stands between its line feeds, less one carriage
/// return right before a line feed, and what stands after the last line feed, if
/// that is anything.
pub proof fn law_lines_stand_between_line_feeds(pieces: Seq<Seq<char>>, tail: Seq<char>)
    requires
        forall|i: int| 0 <= i < pieces.len() ==> !(#[trigger] pieces[i]).contains('\n'),
        !tail.contains('\n'),
    ensures
        ({
            let lines = text_lines(with_feeds(pieces) + tail);
            &&& lines.len() == pieces.len() + (if tail.len() > 0 {
                1int
            } else {
                0
            })
            &&& forall|i: int|
                0 <= i < pieces.len() ==> #[trigger] lines[i] == (if pieces[i].len() > 0
                    && pieces[i].last() == '\r' {
                    pieces[i].drop_last()
                } else {
                    pieces[i]
                })
            &&& tail.len() > 0 ==> lines.last() == tail
        }),
    decreases pieces.len(),
{
    let text = with_feeds(pieces) + tail;
    if pieces.len() == 0 {
        assert(text =~= tail);
    } else {
        let rest = pieces.drop_first();
        assert(!pieces[0].contains('\n'));
        assert forall|i: int| 0 <= i < rest.len() implies !(#[trigger] rest[i]).contains('\n') by {
            assert(rest[i] == pieces[i + 1]);
        }
        law_lines_stand_between_line_feeds(rest, tail);
        assert(text =~= pieces[0] + seq!['\n'] + (with_feeds(rest) + tail));
        lemma_lines_step(pieces[0], with_feeds(rest) + tail);
        let lines = text_lines(text);
        let later = text_lines(with_feeds(rest) + tail);
        assert forall|i: int| 0 <= i < pieces.len() implies #[trigger] lines[i] == (if pieces[i].len()
            > 0 && pieces[i].last() == '\r' {
            pieces[i].drop_last()
        } else {
            pieces[i]
        }) by {
            if i > 0 {
                assert(lines[i] == later[i - 1]);
                assert(rest[i - 1] == pieces[i]);
            }
        }
        if tail.len() > 0 {
            assert(lines.last() == later.last());
        }
    }
}

/// Every text is pieces without line feeds, each followed by one, and a tail
/// without one: there is no text of which nothing is said of its lines.
pub proof fn law_every_text_is_pieces_and_a_tail(text: Seq<char>) -> (parts: (
    Seq<Seq<char>>,
    Seq<char>,
))
    ensures
        text == with_feeds(parts.0) + parts.1,
        forall|i: int| 0 <= i < parts.0.len() ==> !(#[trigger] parts.0[i]).contains('\n'),
        !parts.1.contains('\n'),
    decreases text.len(),
{
    if text.contains('\n') {
        text.index_of_first_ensures('\n');
        let end = text.index_of_first('\n')->0;
        let piece = text.take(end);
        assert(!piece.contains('\n')) by {
            if piece.contains('\n') {
                let k = choose|k: int| 0 <= k < piece.len() && piece[k] == '\n';
                assert(text[k] == '\n');
            }
        }
        let (later, tail) = law_every_text_is_pieces_and_a_tail(text.skip(end + 1));
        let pieces = seq![piece] + later;
        assert(pieces.drop_first() =~= later);
        assert(pieces[0] == piece);
        assert(with_feeds(pieces) + tail =~= piece + seq!['\n'] + (with_feeds(later) + tail));
        assert(text =~= piece + seq!['\n'] + text.skip(end + 1));
        assert forall|i: int| 0 <= i < pieces.len() implies !(#[trigger] pieces[i]).contains(
            '\n',
        ) by {
            if i > 0 {
                assert(pieces[i] == later[i - 1]);
            }
        }
        (pieces, tail)
    } else {
        assert(text =~= with_feeds(seq![]) + text);
        (seq![], text)
    }
}

proof fn lemma_joined_by_feeds(lines: Seq<Seq<char>>)
    ensures
        joined(lines, seq!['\n']) == with_feeds_between(lines),
    decreases lines.len(),
{
    if lines.len() > 1 {
        let first = seq![lines[0]];
        let rest = lines.drop_first();
        assert(lines =~= first + rest);
        lemma_joined_in_parts(first, rest, seq!['\n']);
        lemma_joined_by_feeds(rest);
    }
}

/// A read hands out whole lines and nothing else. A text is pieces that end in a
/// line feed and a tail without one; its lines are the pieces, each less one
/// carriage return at its end, and the tail, if that is anything. The read from a
/// line on, of at most so many lines, is exactly those lines, with a line feed
/// between neighbours.
pub proof fn law_reads_hand_out_whole_lines(
    pieces: Seq<Seq<char>>,
    tail: Seq<char>,
    lines: Seq<Seq<char>>,
    line: Option<u32>,
    limit: Option<u32>,
)
    requires
        forall|i: int| 0 <= i < pieces.len() ==> !(#[trigger] pieces[i]).contains('\n'),
        !tail.contains('\n'),
        lines.len() == pieces.len() + (if tail.len() > 0 {
            1int
        } else {
            0
        }),
        forall|i: int|
            0 <= i < pieces.len() ==> #[trigger] lines[i] == (if pieces[i].len() > 0
                && pieces[i].last() == '\r' {
                pieces[i].drop_last()
            } else {
                pieces[i]
            }),
        tail.len() > 0 ==> lines.last() == tail,
        line is Some || limit is Some,
    ensures
        ({
            let first = if line is Some && line->0 > 0 {
                line->0 - 1
            } else {
                0int
            };
            let from = if first < lines.len() {
                first
            } else {
                lines.len() as int
            };
            let to = if limit is Some && limit->0 < lines.len() - from {
                from + limit->0
            } else {
                lines.len() as int
            };
            sliced(with_feeds(pieces) + tail, line, limit) == with_feeds_between(
                lines.subrange(from, to),
            )
        }),
{
    law_lines_stand_between_line_feeds(pieces, tail);
    let found = text_lines(with_feeds(pieces) + tail);
    assert forall|i: int| 0 <= i < lines.len() implies found[i] == lines[i] by {
        if i < pieces.len() {
            assert(lines[i] == found[i]);
        }
    }
    assert(found =~= lines);
    let first = if line is Some && line->0 > 0 {
        line->0 - 1
    } else {
        0int
    };
    let from = if first < lines.len() {
        first
    } else {
        lines.len() as int
    };
    let to = if limit is Some && limit->0 < lines.len() - from {
        from + limit->0
    } else {
        lines.len() as int
    };
    let window = line_window(lines, lines_before(line), limit);
    assert(window =~= lines.subrange(from, to));
    lemma_joined_by_feeds(window);
}

proof fn lemma_feeds_and_tail(pieces: Seq<Seq<char>>, tail: Seq<char>)
    ensures
        with_feeds_between(pieces.push(tail)) == with_feeds(pieces) + tail,
    decreases pieces.len(),
{
    let all = pieces.push(tail);
    if pieces.len() == 0 {
        assert(with_feeds(pieces) + tail =~= tail);
    } else {
        lemma_feeds_and_tail(pieces.drop_first(), tail);
        assert(all.drop_first() =~= pieces.drop_first().push(tail));
        assert(with_feeds_between(all) =~= with_feeds(pieces) + tail);
    }
}

/// A text without carriage returns is its lines with a line feed between
/// neighbours, but for one final line feed, and so is read back unchanged from its
/// first line on. The same holds of a read that asks for at
/// least as many lines as there are.
pub proof fn law_reading_from_the_first_line_changes_nothing(text: Seq<char>, limit: u32)
    requires
        !text.contains('\r'),
    ensures
        text.len() > 0 && text.last() == '\n' ==> with_feeds_between(text_lines(text))
            == text.drop_last(),
        text.len() == 0 || text.last() != '\n' ==> with_feeds_between(text_lines(text)) == text,
        text.len() > 0 && text.last() == '\n' ==> sliced(text, Some(1), None) == text.drop_last(),
        text.len() == 0 || text.last() != '\n' ==> sliced(text, Some(1), None) == text,
        limit >= text_lines(text).len() ==> sliced(text, Some(1), Some(limit)) == sliced(
            text,
            Some(1),
            None,
        ) && sliced(text, None, Some(limit)) == sliced(text, Some(1), None),
{
    let (pieces, tail) = law_every_text_is_pieces_and_a_tail(text);
    law_lines_stand_between_line_feeds(pieces, tail);
    let lines = text_lines(text);
    assert(line_window(lines, 0, None) =~= lines);
    if limit >= lines.len() {
        assert(line_window(lines, 0, Some(limit)) =~= lines);
    }
    lemma_no_carriage_returns(pieces, tail);
    assert forall|i: int| 0 <= i < pieces.len() implies lines[i] == pieces[i] by {
        if pieces[i].len() > 0 {
            assert(!pieces[i].contains('\r'));
            assert(pieces[i].contains(pieces[i].last()));
        }
    }
    lemma_joined_by_feeds(lines);
    if tail.len() > 0 {
        assert(lines =~= pieces.push(tail));
        lemma_feeds_and_tail(pieces, tail);
        assert(text.last() == tail.last());
        assert(tail.contains(tail.last()));
    } else {
        assert(lines =~= pieces);
        assert(text =~= with_feeds(pieces));
        if pieces.len() > 0 {
            let before = pieces.drop_last();
            assert(pieces =~= before.push(pieces.last()));
            lemma_feeds_and_tail(before, pieces.last());
            lemma_feeds_and_tail(pieces, seq![]);
            lemma_feeds_end(before, pieces.last());
            assert(text.drop_last() =~= with_feeds(before) + pieces.last());
        }
    }
}

proof fn lemma_feeds_end(pieces: Seq<Seq<char>>, last: Seq<char>)
    ensures
        with_feeds(pieces.push(last)) == with_feeds(pieces) + last + seq!['\n'],
    decreases pieces.len(),
{
    let all = pieces.push(last);
    if pieces.len() == 0 {
        assert(all.drop_first() =~= seq![]);
        assert(with_feeds(all.drop_first()) =~= seq![]);
        assert(with_feeds(all) =~= with_feeds(pieces) + last + seq!['\n']);
    } else {
        lemma_feeds_end(pieces.drop_first(), last);
        assert(all.drop_first() =~= pieces.drop_first().push(last));
        assert(with_feeds(all) =~= with_feeds(pieces) + last + seq!['\n']);
    }
}

proof fn lemma_no_carriage_returns(pieces: Seq<Seq<char>>, tail: Seq<char>)
    requires
        !(with_feeds(pieces) + tail).contains('\r'),
    ensures
        forall|i: int| 0 <= i < pieces.len() ==> !(#[trigger] pieces[i]).contains('\r'),
    decreases pieces.len(),
{
    if pieces.len() > 0 {
        let text = with_feeds(pieces) + tail;
        let rest = pieces.drop_first();
        let later = with_feeds(rest) + tail;
        assert(text =~= pieces[0] + seq!['\n'] + later);
        assert(!later.contains('\r')) by {
            if later.contains('\r') {
                let k = choose|k: int| 0 <= k < later.len() && later[k] == '\r';
                assert(text[pieces[0].len() + 1 + k] == '\r');
            }
        }
        assert(!pieces[0].contains('\r')) by {
            if pieces[0].contains('\r') {
                let k = choose|k: int| 0 <= k < pieces[0].len() && pieces[0][k] == '\r';
                assert(text[k] == '\r');
            }
        }
        lemma_no_carriage_returns(rest, tail);
        assert forall|i: int| 0 <= i < pieces.len() implies !(#[trigger] pieces[i]).contains(
            '\r',
        ) by {
            if i > 0 {
                assert(rest[i - 1] == pieces[i]);
            }
        }
    }
}

/// The views of lines are their texts, one for one and in order.
pub proof fn law_line_views_are_faithful(lines: Seq<String>)
    ensures
        line_views(lines).len() == lines.len(),
        forall|i: int| 0 <= i < lines.len() ==> #[trigger] line_views(lines)[i] == lines[i]@,
{
}

/// Joining puts the separator between neighbours and nowhere else.
pub proof fn law_joining_separates_neighbours(
    parts: Seq<Seq<char>>,
    part: Seq<char>,
    separator: Seq<char>,
)
    ensures
        joined(seq![], separator).len() == 0,
        joined(seq![part], separator) == part,
        parts.len() > 0 ==> joined(parts.push(part), separator) == joined(parts, separator)
            + separator + part,
{
    assert(parts.push(part).drop_last() =~= parts);
}

/// No line holds a line feed.
pub proof fn law_no_line_holds_a_line_feed(text: Seq<char>, i: int)
    requires
        0 <= i < text_lines(text).len(),
    ensures
        !text_lines(text)[i].contains('\n'),
{
    let (pieces, tail) = law_every_text_is_pieces_and_a_tail(text);
    law_lines_stand_between_line_feeds(pieces, tail);
    let line = text_lines(text)[i];
    if line.contains('\n') {
        let k = choose|k: int| 0 <= k < line.len() && line[k] == '\n';
        if i < pieces.len() {
            assert(pieces[i][k] == '\n');
        } else {
            assert(tail[k] == '\n');
        }
    }
}

/// One carriage return at the end of a line is taken away, and nothing else is.
pub proof fn law_one_carriage_return_is_taken(line: Seq<char>)
    ensures
        strip_carriage_return(line.push('\r')) == line,
        line.len() == 0 || line.last() != '\r' ==> strip_carriage_return(line) == line,
{
    assert(line.push('\r').drop_last() =~= line);
}

} // verus!
