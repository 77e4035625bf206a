//! Framing of a telemetry datagram: from bytes to the lines that hold one
//! record each.
//!
//! A datagram is UTF-8 text of one or more lines, separated by line feeds.
//! Each line is trimmed of white space at both ends, and a line that is
//! empty after that is no record. A datagram that is not valid UTF-8 holds
//! no record at all.

use vstd::prelude::*;
use vstd::string::*;
use vstd::utf8::*;

verus! {

/// `core::str::from_utf8` gives the text that the bytes encode where they
/// are valid UTF-8, and an error where they are not.
#[verifier::external_body]
fn utf8_text(bytes: &[u8]) -> (text: Option<&str>)
    ensures
        text is Some <==> valid_utf8(bytes@),
        text matches Some(s) ==> s.spec_bytes() == bytes@,
{
    core::str::from_utf8(bytes).ok()
}

/// A character with the Unicode property White_Space.
pub open spec fn spec_is_whitespace(c: char) -> bool {
    let u = c as u32;
    ||| 0x09 <= u <= 0x0D
    ||| u == 0x20
    ||| u == 0x85
    ||| u == 0xA0
    ||| u == 0x1680
    ||| 0x2000 <= u <= 0x200A
    ||| u == 0x2028
    ||| u == 0x2029
    ||| u == 0x202F
    ||| u == 0x205F
    ||| u == 0x3000
}

/// The text of a datagram: what the bytes decode to, and nothing where they
/// are not valid UTF-8.
pub open spec fn datagram_text(bytes: Seq<u8>) -> Seq<char> {
    if valid_utf8(bytes) {
        decode_utf8(bytes)
    } else {
        Seq::empty()
    }
}

/// Number of characters of `text` before its first line feed; the length of
/// `text` where it has none.
pub open spec fn line_end(text: Seq<char>) -> int
    decreases text.len(),
{
    if text.len() == 0 || text[0] == '\n' {
        0
    } else {
        1 + line_end(text.skip(1))
    }
}

/// The lines of `text`: the pieces between its line feeds, in order. A text
/// with `n` line feeds has `n + 1` lines, some of which may be empty.
pub open spec fn split_lines(text: Seq<char>) -> Seq<Seq<char>>
    decreases text.len(),
{
    let end = line_end(text);
    if end < 0 || end >= text.len() {
        seq![text]
    } else {
        seq![text.take(end)] + split_lines(text.skip(end + 1))
    }
}

/// `lines` with a line feed between each two of them.
pub open spec fn join_lines(lines: Seq<Seq<char>>) -> Seq<char>
    decreases lines.len(),
{
    if lines.len() == 0 {
        Seq::empty()
    } else if lines.len() == 1 {
        lines[0]
    } else {
        join_lines(lines.drop_last()) + seq!['\n'] + lines.last()
    }
}

/// `s` without the white space at its start.
pub open spec fn trim_start(s: Seq<char>) -> Seq<char>
    decreases s.len(),
{
    if s.len() > 0 && spec_is_whitespace(s[0]) {
        trim_start(s.skip(1))
    } else {
        s
    }
}

/// `s` without the white space at its end.
pub open spec fn trim_end(s: Seq<char>) -> Seq<char>
    decreases s.len(),
{
    if s.len() > 0 && spec_is_whitespace(s.last()) {
        trim_end(s.drop_last())
    } else {
        s
    }
}

/// `s` without the white space at either end.
pub open spec fn trim(s: Seq<char>) -> Seq<char> {
    trim_end(trim_start(s))
}

/// The lines of `raws`, each trimmed, without those that are empty then.
pub open spec fn nonempty_trimmed(raws: Seq<Seq<char>>) -> Seq<Seq<char>>
    decreases raws.len(),
{
    if raws.len() == 0 {
        Seq::empty()
    } else {
        let front = nonempty_trimmed(raws.drop_last());
        let line = trim(raws.last());
        if line.len() > 0 {
            front.push(line)
        } else {
            front
        }
    }
}

/// The records of a text: its lines, trimmed, without the empty ones.
pub open spec fn record_lines(text: Seq<char>) -> Seq<Seq<char>> {
    nonempty_trimmed(split_lines(text))
}

pub fn is_whitespace(c: char) -> (b: bool)
    ensures
        b == spec_is_whitespace(c),
{
    let u = c as u32;
    (0x09 <= u && u <= 0x0D) || u == 0x20 || u == 0x85 || u == 0xA0 || u == 0x1680 || (0x2000 <= u
        && u <= 0x200A) || u == 0x2028 || u == 0x2029 || u == 0x202F || u == 0x205F || u == 0x3000
}

/// The text of `raw` without the white space at either end.
pub fn trimmed(raw: &Vec<char>) -> (line: String)
    ensures
        line@ == trim(raw@),
{
    let len = raw.len();
    let mut start: usize = 0;
    while start < len && is_whitespace(raw[start])
        invariant
            len == raw@.len(),
            start <= len,
            forall|i: int| 0 <= i < start ==> spec_is_whitespace(#[trigger] raw@[i]),
        decreases len - start,
    {
        start += 1;
    }
    let mut end: usize = len;
    while end > start && is_whitespace(raw[end - 1])
        invariant
            len == raw@.len(),
            start <= end <= len,
            forall|i: int| end <= i < len ==> spec_is_whitespace(#[trigger] raw@[i]),
        decreases end,
    {
        end -= 1;
    }
    proof {
        lemma_trim_start_skips(raw@, start as int);
        let rest = raw@.skip(start as int);
        assert forall|i: int| end - start <= i < rest.len() implies spec_is_whitespace(
            #[trigger] rest[i],
        ) by {
            assert(rest[i] == raw@[start + i]);
        }
        lemma_trim_end_takes(rest, end - start);
        assert(rest.take(end - start) =~= raw@.subrange(start as int, end as int));
    }
    let mut line = String::new();
    let mut i: usize = start;
    while i < end
        invariant
            start <= i <= end <= raw@.len(),
            line@ == raw@.subrange(start as int, i as int),
        decreases end - i,
    {
        line.push(raw[i]);
        i += 1;
        assert(line@ =~= raw@.subrange(start as int, i as int));
    }
    line
}

/// Adds the record of the line `raw` to `lines`, if the line holds one.
fn keep_record(lines: &mut Vec<String>, raw: &Vec<char>)
    ensures
        final(lines).deep_view() == if trim(raw@).len() > 0 {
            old(lines).deep_view().push(trim(raw@))
        } else {
            old(lines).deep_view()
        },
{
    let line = trimmed(raw);
    if !line.as_str().is_empty() {
        lines.push(line);
        assert(lines.deep_view() =~= old(lines).deep_view().push(line@));
    }
}

/// The records of `text`, in order.
pub fn text_records(text: &str) -> (lines: Vec<String>)
    ensures
        lines.deep_view() == record_lines(text@),
{
    let mut lines: Vec<String> = Vec::new();
    let mut raw: Vec<char> = Vec::new();
    // The lines that ended before the one in `raw`.
    let ghost mut done: Seq<Seq<char>> = Seq::empty();
    proof {
        assert(text@.take(0) =~= Seq::<char>::empty());
        assert(split_lines(Seq::<char>::empty()) =~= done.push(raw@));
        assert(lines.deep_view() =~= nonempty_trimmed(done));
    }
    let chars = text.chars();
    for c in it: chars
        invariant
            it.seq() == text@,
            split_lines(text@.take(it.index())) == done.push(raw@),
            lines.deep_view() == nonempty_trimmed(done),
    {
        proof {
            let seen = text@.take(it.index());
            lemma_split_push(seen, c);
            assert(text@.take(it.index() + 1) =~= seen.push(c));
            assert(done.push(raw@).drop_last() =~= done);
        }
        if c == '\n' {
            keep_record(&mut lines, &raw);
            proof {
                done = done.push(raw@);
            }
            raw = Vec::new();
        } else {
            raw.push(c);
        }
    }
    proof {
        assert(text@.take(text@.len() as int) =~= text@);
        assert(done.push(raw@).drop_last() =~= done);
    }
    keep_record(&mut lines, &raw);
    lines
}

/// The records of a datagram, in order; none where the bytes are not valid
/// UTF-8.
pub fn split_records(datagram: &[u8]) -> (lines: Vec<String>)
    ensures
        lines.deep_view() == record_lines(datagram_text(datagram@)),
        !valid_utf8(datagram@) ==> lines@.len() == 0,
{
    match utf8_text(datagram) {
        Some(text) => {
            proof {
                encode_utf8_decode_utf8(text@);
            }
            text_records(text)
        },
        None => {
            let lines: Vec<String> = Vec::new();
            proof {
                lemma_no_text_no_records();
                assert(lines.deep_view() =~= Seq::<Seq<char>>::empty());
            }
            lines
        },
    }
}

/// An empty text holds no record.
pub proof fn lemma_no_text_no_records()
    ensures
        record_lines(Seq::<char>::empty()) == Seq::<Seq<char>>::empty(),
{
    let lines = split_lines(Seq::<char>::empty());
    assert(lines =~= seq![Seq::<char>::empty()]);
    assert(lines.drop_last() =~= Seq::<Seq<char>>::empty());
    assert(nonempty_trimmed(lines.drop_last()) =~= Seq::<Seq<char>>::empty());
}

/// Where the first `k` characters of `s` are white space and the next one,
/// if there is one, is not, trimming the start drops exactly those `k`.
pub proof fn lemma_trim_start_skips(s: Seq<char>, k: int)
    requires
        0 <= k <= s.len(),
        forall|i: int| 0 <= i < k ==> spec_is_whitespace(#[trigger] s[i]),
        k == s.len() || !spec_is_whitespace(s[k]),
    ensures
        trim_start(s) == s.skip(k),
    decreases k,
{
    if k == 0 {
        assert(s.skip(0) =~= s);
    } else {
        let rest = s.skip(1);
        assert forall|i: int| 0 <= i < k - 1 implies spec_is_whitespace(#[trigger] rest[i]) by {
            assert(rest[i] == s[i + 1]);
        }
        lemma_trim_start_skips(rest, k - 1);
        assert(rest.skip(k - 1) =~= s.skip(k));
    }
}

/// Where all of `s` from position `e` on is white space and the character
/// before, if there is one, is not, trimming the end keeps exactly the
/// first `e`.
pub proof fn lemma_trim_end_takes(s: Seq<char>, e: int)
    requires
        0 <= e <= s.len(),
        forall|i: int| e <= i < s.len() ==> spec_is_whitespace(#[trigger] s[i]),
        e == 0 || !spec_is_whitespace(s[e - 1]),
    ensures
        trim_end(s) == s.take(e),
    decreases s.len() - e,
{
    if e == s.len() {
        assert(s.take(e) =~= s);
    } else {
        let front = s.drop_last();
        lemma_trim_end_takes(front, e);
        assert(front.take(e) =~= s.take(e));
    }
}

/// What one more character does to the place of the first line feed.
pub proof fn lemma_line_end_push(text: Seq<char>, c: char)
    ensures
        0 <= line_end(text) <= text.len(),
        line_end(text) < text.len() ==> text[line_end(text)] == '\n',
        forall|i: int| 0 <= i < line_end(text) ==> #[trigger] text[i] != '\n',
        line_end(text) < text.len() ==> line_end(text.push(c)) == line_end(text),
        line_end(text) == text.len() && c == '\n' ==> line_end(text.push(c)) == text.len(),
        line_end(text) == text.len() && c != '\n' ==> line_end(text.push(c)) == text.len() + 1,
    decreases text.len(),
{
    if text.len() == 0 {
        let one = text.push(c);
        assert(one.skip(1) =~= Seq::<char>::empty());
        assert(line_end(one.skip(1)) == 0);
        assert(one[0] == c);
    } else if text[0] == '\n' {
    } else {
        let rest = text.skip(1);
        lemma_line_end_push(rest, c);
        assert(text.push(c).skip(1) =~= rest.push(c));
        assert forall|i: int| 0 <= i < line_end(text) implies #[trigger] text[i] != '\n' by {
            if i > 0 {
                assert(rest[i - 1] == text[i]);
            }
        }
    }
}

/// What one more character does to the lines: a line feed opens a new,
/// empty line; any other character joins the last line.
pub proof fn lemma_split_push(text: Seq<char>, c: char)
    ensures
        split_lines(text).len() >= 1,
        c == '\n' ==> split_lines(text.push(c)) == split_lines(text).push(Seq::<char>::empty()),
        c != '\n' ==> split_lines(text.push(c)) == split_lines(text).drop_last().push(
            split_lines(text).last().push(c),
        ),
    decreases text.len(),
{
    lemma_line_end_push(text, c);
    let end = line_end(text);
    let more = text.push(c);
    if end >= text.len() {
        if c == '\n' {
            assert(more.take(end) =~= text);
            assert(more.skip(end + 1) =~= Seq::<char>::empty());
            assert(split_lines(more.skip(end + 1)) =~= seq![Seq::<char>::empty()]);
            assert(split_lines(more) =~= split_lines(text).push(Seq::<char>::empty()));
        } else {
            assert(split_lines(more) =~= split_lines(text).drop_last().push(
                split_lines(text).last().push(c),
            ));
        }
    } else {
        let rest = text.skip(end + 1);
        lemma_split_push(rest, c);
        assert(more.take(end) =~= text.take(end));
        assert(more.skip(end + 1) =~= rest.push(c));
        if c == '\n' {
            assert(split_lines(more) =~= split_lines(text).push(Seq::<char>::empty()));
        } else {
            assert(split_lines(more) =~= split_lines(text).drop_last().push(
                split_lines(text).last().push(c),
            ));
        }
    }
}

/// Splitting loses nothing: the lines of a text, joined with line feeds,
/// are the text.
pub proof fn lemma_join_undoes_split(text: Seq<char>)
    ensures
        join_lines(split_lines(text)) == text,
    decreases text.len(),
{
    if text.len() == 0 {
        assert(split_lines(text) =~= seq![text]);
    } else {
        let front = text.drop_last();
        let c = text.last();
        lemma_join_undoes_split(front);
        lemma_split_push(front, c);
        assert(front.push(c) =~= text);
        let before = split_lines(front);
        let after = split_lines(text);
        if c == '\n' {
            assert(after.drop_last() =~= before);
            assert(join_lines(after) =~= text);
        } else {
            let grown = before.last().push(c);
            assert(after.last() == grown);
            assert(after.drop_last() =~= before.drop_last());
            if before.len() == 1 {
                assert(join_lines(after) =~= text);
            } else {
                assert(join_lines(after) =~= join_lines(before).push(c));
            }
        }
    }
}

/// No line of a text holds a line feed.
pub proof fn lemma_lines_hold_no_line_feed(text: Seq<char>)
    ensures
        forall|i: int, k: int|
            0 <= i < split_lines(text).len() && 0 <= k < split_lines(text)[i].len() ==> (
            #[trigger] split_lines(text)[i][k]) != '\n',
    decreases text.len(),
{
    lemma_line_end_push(text, ' ');
    let end = line_end(text);
    if end < text.len() {
        let rest = text.skip(end + 1);
        lemma_lines_hold_no_line_feed(rest);
        assert forall|i: int, k: int|
            0 <= i < split_lines(text).len() && 0 <= k < split_lines(text)[i].len() implies (
        #[trigger] split_lines(text)[i][k]) != '\n' by {
            if i == 0 {
                assert(split_lines(text)[0] == text.take(end));
            } else {
                assert(split_lines(text)[i] == split_lines(rest)[i - 1]);
            }
        }
    }
}

/// What trimming leaves neither begins nor ends with white space.
pub proof fn lemma_trim_is_tight(s: Seq<char>)
    ensures
        trim(s).len() > 0 ==> !spec_is_whitespace(trim(s)[0]) && !spec_is_whitespace(
            trim(s).last(),
        ),
        trim(s).len() <= s.len(),
{
    lemma_trim_start_is_tight(s);
    lemma_trim_end_is_tight(trim_start(s));
}

proof fn lemma_trim_start_is_tight(s: Seq<char>)
    ensures
        trim_start(s).len() > 0 ==> !spec_is_whitespace(trim_start(s)[0]),
        trim_start(s).len() <= s.len(),
    decreases s.len(),
{
    if s.len() > 0 && spec_is_whitespace(s[0]) {
        lemma_trim_start_is_tight(s.skip(1));
    }
}

proof fn lemma_trim_end_is_tight(s: Seq<char>)
    ensures
        trim_end(s).len() > 0 ==> !spec_is_whitespace(trim_end(s).last()) && trim_end(s)[0]
            == s[0],
        trim_end(s).len() <= s.len(),
    decreases s.len(),
{
    if s.len() > 0 && spec_is_whitespace(s.last()) {
        lemma_trim_end_is_tight(s.drop_last());
    }
}

/// Every record of a text holds at least one character and neither begins
/// nor ends with white space, and there are no more records than lines.
pub proof fn lemma_records_are_tight(text: Seq<char>)
    ensures
        record_lines(text).len() <= split_lines(text).len(),
        forall|i: int|
            0 <= i < record_lines(text).len() ==> {
                let record = #[trigger] record_lines(text)[i];
                &&& record.len() > 0
                &&& !spec_is_whitespace(record[0])
                &&& !spec_is_whitespace(record.last())
            },
{
    lemma_nonempty_trimmed_is_tight(split_lines(text));
}

proof fn lemma_nonempty_trimmed_is_tight(raws: Seq<Seq<char>>)
    ensures
        nonempty_trimmed(raws).len() <= raws.len(),
        forall|i: int|
            0 <= i < nonempty_trimmed(raws).len() ==> {
                let record = #[trigger] nonempty_trimmed(raws)[i];
                &&& record.len() > 0
                &&& !spec_is_whitespace(record[0])
                &&& !spec_is_whitespace(record.last())
            },
    decreases raws.len(),
{
    if raws.len() > 0 {
        lemma_nonempty_trimmed_is_tight(raws.drop_last());
        lemma_trim_is_tight(raws.last());
    }
}

} // verus!
