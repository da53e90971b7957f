use vstd::prelude::*;
use vstd::string::*;
use vstd::utf8::encode_utf8;

use super::args::chars_of;

verus! {

/// The most bytes that one message takes.
pub const MESSAGE_LIMIT: usize = 4096;

/// How `str::len` counts a text: its bytes in UTF-8.
pub open spec fn byte_len(text: Seq<char>) -> usize {
    encode_utf8(text).len() as usize
}

/// The first position at or after `from` where an empty line parts two paragraphs: a line
/// feed followed by a line feed. The end of the text where there is none.
pub open spec fn paragraph_end(s: Seq<char>, from: int) -> int
    decreases s.len() - from,
{
    if 0 <= from && from + 1 < s.len() && !(s[from] == '\n' && s[from + 1] == '\n') {
        paragraph_end(s, from + 1)
    } else if 0 <= from && from + 1 < s.len() {
        from
    } else {
        s.len() as int
    }
}

/// The paragraphs of the text from `from` on: what stands between one pair of line feeds
/// and the next, the pairs taken from the left.
pub open spec fn paragraphs_from(s: Seq<char>, from: int) -> Seq<Seq<char>>
    decreases s.len() - from,
    via paragraphs_from_decreases
{
    let end = paragraph_end(s, from);
    if from < 0 || from > s.len() {
        Seq::empty()
    } else if end >= s.len() {
        seq![s.subrange(from, s.len() as int)]
    } else {
        seq![s.subrange(from, end)] + paragraphs_from(s, end + 2)
    }
}

#[via_fn]
proof fn paragraphs_from_decreases(s: Seq<char>, from: int) {
    if 0 <= from <= s.len() {
        lemma_paragraph_end(s, from);
    }
}

proof fn lemma_paragraph_end(s: Seq<char>, from: int)
    requires
        0 <= from <= s.len(),
    ensures
        from <= paragraph_end(s, from) <= s.len(),
        paragraph_end(s, from) < s.len() ==> paragraph_end(s, from) + 2 <= s.len(),
    decreases s.len() - from,
{
    if from + 1 < s.len() && !(s[from] == '\n' && s[from + 1] == '\n') {
        lemma_paragraph_end(s, from + 1);
    }
}

/// The paragraphs of a text. A text without an empty line is one paragraph.
pub open spec fn spec_paragraphs(s: Seq<char>) -> Seq<Seq<char>> {
    paragraphs_from(s, 0)
}

/// Whether a message that holds `message` bytes is full for a paragraph of `chunk` bytes:
/// the two and the empty line between them would go over the limit.
pub open spec fn is_full(message: usize, chunk: usize) -> bool {
    message + chunk + 2 > MESSAGE_LIMIT
}

/// The messages that the paragraphs fill when `message` has been gathered already. A
/// paragraph goes into the message at hand, behind an empty line, as long as it fits. When
/// it does not, the message at hand is sent as it is, and the paragraph begins the next.
/// What has been gathered at the end is sent unless it is empty.
pub open spec fn packed(chunks: Seq<Seq<char>>, message: Seq<char>) -> Seq<Seq<char>>
    decreases chunks.len(),
{
    if chunks.len() == 0 {
        if message.len() == 0 {
            Seq::empty()
        } else {
            seq![message]
        }
    } else if is_full(byte_len(message), byte_len(chunks[0])) {
        seq![message] + packed(chunks.drop_first(), chunks[0])
    } else {
        packed(chunks.drop_first(), message + "\n\n"@ + chunks[0])
    }
}

/// The messages in which a response is sent.
pub open spec fn spec_paginate(response: Seq<char>) -> Seq<Seq<char>> {
    packed(spec_paragraphs(response), Seq::empty())
}

/// The texts as sequences of characters.
pub open spec fn texts(strings: Seq<String>) -> Seq<Seq<char>> {
    strings.map_values(|s: String| s@)
}

/// Cuts a text into its paragraphs.
pub fn paragraphs(s: &str) -> (chunks: Vec<String>)
    ensures
        texts(chunks@) == spec_paragraphs(s@),
{
    let chars = chars_of(s);
    let n = chars.len();
    let mut chunks: Vec<String> = Vec::new();
    let mut start: usize = 0;
    assert(texts(chunks@) + paragraphs_from(s@, 0) == paragraphs_from(s@, 0));
    loop
        invariant
            chars@ == s@,
            n == chars.len(),
            start <= n,
            spec_paragraphs(s@) == texts(chunks@) + paragraphs_from(s@, start as int),
        decreases n - start,
    {
        let mut end = start;
        while end < n && !(end + 1 < n && chars[end] == '\n' && chars[end + 1] == '\n')
            invariant
                chars@ == s@,
                n == chars.len(),
                start <= end <= n,
                paragraph_end(s@, start as int) == paragraph_end(s@, end as int),
            decreases n - end,
        {
            end += 1;
        }
        let ghost earlier = texts(chunks@);
        let chunk = s.substring_char(start, end).to_owned();
        chunks.push(chunk);
        assert(texts(chunks@) == earlier.push(chunk@));
        if end >= n {
            assert(earlier + seq![chunk@] == earlier.push(chunk@));
            return chunks;
        }
        assert(earlier + (seq![chunk@] + paragraphs_from(s@, end + 2)) == earlier.push(chunk@)
            + paragraphs_from(s@, end + 2));
        start = end + 2;
    }
}

/// Fills messages with the paragraphs, in order.
pub fn pack(chunks: &Vec<String>) -> (messages: Vec<String>)
    ensures
        texts(messages@) == packed(texts(chunks@), Seq::empty()),
{
    let mut messages: Vec<String> = Vec::new();
    let mut message = String::new();
    let mut i: usize = 0;
    assert(texts(chunks@).skip(0) == texts(chunks@));
    assert(texts(messages@) + packed(texts(chunks@), message@) == packed(texts(chunks@), message@));
    while i < chunks.len()
        invariant
            i <= chunks.len(),
            packed(texts(chunks@), Seq::empty()) == texts(messages@) + packed(
                texts(chunks@).skip(i as int),
                message@,
            ),
        decreases chunks.len() - i,
    {
        let chunk = chunks[i].as_str();
        let held = message.as_str().len();
        let more = chunk.len();
        let ghost rest = texts(chunks@).skip(i as int);
        let ghost earlier = texts(messages@);
        assert(rest[0] == chunk@);
        assert(rest.drop_first() == texts(chunks@).skip(i + 1));
        if held > MESSAGE_LIMIT - 2 || more > MESSAGE_LIMIT - 2 - held {
            assert(is_full(byte_len(message@), byte_len(chunk@)));
            messages.push(message);
            assert(texts(messages@) == earlier.push(message@));
            assert(earlier + (seq![message@] + packed(rest.drop_first(), chunk@)) == earlier.push(
                message@,
            ) + packed(rest.drop_first(), chunk@));
            message = String::from_str(chunk);
        } else {
            assert(!is_full(byte_len(message@), byte_len(chunk@)));
            message.append("\n\n");
            message.append(chunk);
        }
        i += 1;
    }
    let ghost earlier = texts(messages@);
    if !message.as_str().is_empty() {
        messages.push(message);
        assert(texts(messages@) == earlier.push(message@));
        assert(earlier + seq![message@] == earlier.push(message@));
    } else {
        assert(earlier + Seq::<Seq<char>>::empty() == earlier);
    }
    messages
}

/// Cuts a response into the messages in which it is sent: its paragraphs, gathered into
/// messages that stay within the limit wherever a paragraph alone does.
pub fn paginate(response: &str) -> (messages: Vec<String>)
    ensures
        texts(messages@) == spec_paginate(response@),
{
    let chunks = paragraphs(response);
    pack(&chunks)
}

/// `String::push` appends the character to the end of the text.
pub assume_specification[ String::push ](s: &mut String, ch: char)
    ensures
        final(s)@ == old(s)@.push(ch),
;

/// The characters that the descriptions of the commands hold and MarkdownV2 reads as
/// markup.
pub open spec fn is_markup(c: char) -> bool {
    c == ':' || c == '.' || c == '(' || c == ')' || c == '-' || c == '!'
}

/// `text` with a backslash put before each character that would be read as markup.
pub open spec fn markup_escaped(text: Seq<char>) -> Seq<char>
    decreases text.len(),
{
    if text.len() == 0 {
        Seq::empty()
    } else if is_markup(text.last()) {
        markup_escaped(text.drop_last()).push('\\').push(text.last())
    } else {
        markup_escaped(text.drop_last()).push(text.last())
    }
}

/// Escapes the description of a command for a message in MarkdownV2.
pub fn escape_description(text: &str) -> (escaped: String)
    ensures
        escaped@ == markup_escaped(text@),
{
    let chars = chars_of(text);
    let mut escaped = String::new();
    let mut i: usize = 0;
    while i < chars.len()
        invariant
            chars@ == text@,
            i <= chars.len(),
            escaped@ == markup_escaped(text@.take(i as int)),
        decreases chars.len() - i,
    {
        let c = chars[i];
        assert(text@.take(i + 1).drop_last() == text@.take(i as int));
        if c == ':' || c == '.' || c == '(' || c == ')' || c == '-' || c == '!' {
            escaped.push('\\');
        }
        escaped.push(c);
        i += 1;
    }
    assert(text@.take(text@.len() as int) == text@);
    escaped
}

/// A duration in whole seconds, as minutes and the seconds left over.
pub fn minutes_seconds(seconds: u64) -> (clock: (u64, u64))
    ensures
        clock.0 == seconds / 60,
        clock.1 == seconds % 60,
{
    (seconds / 60, seconds % 60)
}

} // verus!
