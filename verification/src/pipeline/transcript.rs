//! Assembly of recognition segments into the final text.

use vstd::prelude::*;
use crate::text::texts;

verus! {

/// Characters with the Unicode property White_Space.
pub open spec fn is_white_space(c: char) -> bool {
    let u = c as u32;
    ||| 0x09 <= u <= 0x0d
    ||| u == 0x20
    ||| u == 0x85
    ||| u == 0xa0
    ||| u == 0x1680
    ||| 0x2000 <= u <= 0x200a
    ||| u == 0x2028
    ||| u == 0x2029
    ||| u == 0x202f
    ||| u == 0x205f
    ||| u == 0x3000
}

/// `s` without its leading white space.
pub open spec fn trim_start(s: Seq<char>) -> Seq<char>
    decreases s.len(),
{
    if s.len() > 0 && is_white_space(s[0]) {
        trim_start(s.subrange(1, s.len() as int))
    } else {
        s
    }
}

/// `s` without its trailing white space.
pub open spec fn trim_end(s: Seq<char>) -> Seq<char>
    decreases s.len(),
{
    if s.len() > 0 && is_white_space(s.last()) {
        trim_end(s.drop_last())
    } else {
        s
    }
}

/// `s` without leading and trailing white space.
pub open spec fn trimmed(s: Seq<char>) -> Seq<char> {
    trim_end(trim_start(s))
}

/// The transcript of a list of segment texts: each trimmed, empty ones
/// dropped, the rest joined by single spaces.
pub open spec fn joined(segments: Seq<Seq<char>>) -> Seq<char>
    decreases segments.len(),
{
    if segments.len() == 0 {
        Seq::<char>::empty()
    } else {
        let before = joined(segments.drop_last());
        let piece = trimmed(segments.last());
        if piece.len() == 0 {
            before
        } else if before.len() == 0 {
            piece
        } else {
            before + seq![' '] + piece
        }
    }
}

/// Final text with its derived figures.
#[derive(Clone, Debug, PartialEq, Eq)]
pub struct TranscriptionResult {
    /// The transcript.
    pub text: String,
    /// Number of segments that the session reported.
    pub segment_count: usize,
    /// Number of characters of the transcript.
    pub char_len: usize,
}

impl TranscriptionResult {
    /// The recorded length is that of the text.
    pub open spec fn well_formed(self) -> bool {
        self.char_len == self.text@.len()
    }
}

/// Whether a character has the Unicode property White_Space.
pub fn is_whitespace(c: char) -> (white: bool)
    ensures
        white == is_white_space(c),
{
    let u: u32 = c as u32;
    (0x09 <= u && u <= 0x0d) || u == 0x20 || u == 0x85 || u == 0xa0 || u == 0x1680 || (0x2000
        <= u && u <= 0x200a) || u == 0x2028 || u == 0x2029 || u == 0x202f || u == 0x205f || u
        == 0x3000
}

/// Leading white space can be skipped one character at a time.
proof fn lemma_trim_start_skips(s: Seq<char>, k: int)
    requires
        0 <= k <= s.len(),
        forall|j: int| 0 <= j < k ==> is_white_space(s[j]),
    ensures
        trim_start(s) == trim_start(s.subrange(k, s.len() as int)),
    decreases k,
{
    if k > 0 {
        let rest = s.subrange(1, s.len() as int);
        assert forall|j: int| 0 <= j < k - 1 implies is_white_space(rest[j]) by {
            assert(rest[j] == s[j + 1]);
        }
        lemma_trim_start_skips(rest, k - 1);
        assert(rest.subrange(k - 1, rest.len() as int) =~= s.subrange(k, s.len() as int));
    } else {
        assert(s.subrange(0, s.len() as int) =~= s);
    }
}

/// Trailing white space can be dropped one character at a time.
proof fn lemma_trim_end_drops(s: Seq<char>, k: int)
    requires
        0 <= k <= s.len(),
        forall|j: int| k <= j < s.len() ==> is_white_space(s[j]),
    ensures
        trim_end(s) == trim_end(s.subrange(0, k)),
    decreases s.len() - k,
{
    if k < s.len() {
        let shorter = s.drop_last();
        lemma_trim_end_drops(shorter, k);
        assert(shorter.subrange(0, k) =~= s.subrange(0, k));
    } else {
        assert(s.subrange(0, k) =~= s);
    }
}

/// The text without its leading and trailing white space.
pub fn trim_text<'a>(s: &'a str) -> (t: &'a str)
    ensures
        t@ == trimmed(s@),
{
    let n: usize = s.unicode_len();
    let mut start: usize = 0;
    while start < n && is_whitespace(s.get_char(start))
        invariant
            n == s@.len(),
            start <= n,
            forall|j: int| 0 <= j < start ==> is_white_space(s@[j]),
        decreases n - start,
    {
        start = start + 1;
    }
    let ghost inner = s@.subrange(start as int, n as int);
    proof {
        lemma_trim_start_skips(s@, start as int);
        assert(trim_start(inner) == inner);
    }
    let mut end: usize = n;
    while end > start && is_whitespace(s.get_char(end - 1))
        invariant
            n == s@.len(),
            start <= end <= n,
            inner == s@.subrange(start as int, n as int),
            forall|j: int| end <= j < n ==> is_white_space(s@[j]),
        decreases end,
    {
        end = end - 1;
    }
    proof {
        let kept = inner.subrange(0, end - start);
        assert forall|j: int| end - start <= j < inner.len() implies is_white_space(inner[j]) by {
            assert(inner[j] == s@[start + j]);
        }
        lemma_trim_end_drops(inner, end - start);
        assert(kept =~= s@.subrange(start as int, end as int));
        if kept.len() > 0 {
            assert(kept.last() == s@[end - 1]);
        }
        assert(trim_end(kept) == kept);
    }
    s.substring_char(start, end)
}

/// Assembles the transcript from the segments of a finished session, in
/// order. No usable segment gives the empty text, which is no failure.
pub fn assemble(segments: &Vec<String>) -> (result: TranscriptionResult)
    ensures
        result.well_formed(),
        result.text@ == joined(texts(segments@)),
        result.segment_count == segments@.len(),
        result.char_len == result.text@.len(),
{
    let mut text: String = String::new();
    let mut any: bool = false;
    let n: usize = segments.len();
    let mut i: usize = 0;
    while i < n
        invariant
            n == segments@.len(),
            i <= n,
            text@ == joined(texts(segments@).take(i as int)),
            any == (text@.len() > 0),
        decreases n - i,
    {
        let piece: &str = trim_text(segments[i].as_str());
        proof {
            let upto = texts(segments@).take(i + 1);
            assert(upto.drop_last() =~= texts(segments@).take(i as int));
            assert(upto.last() == segments@[i as int]@);
            reveal_strlit(" ");
            assert(" "@ =~= seq![' ']);
        }
        if piece.unicode_len() > 0 {
            if any {
                text.append(" ");
            }
            text.append(piece);
            any = true;
        }
        i = i + 1;
    }
    assert(texts(segments@).take(n as int) =~= texts(segments@));
    let char_len: usize = text.as_str().unicode_len();
    TranscriptionResult { text, segment_count: n, char_len }
}

/// A text is tidy if it is empty, or begins and ends with a character that
/// is no white space.
pub open spec fn is_tidy(s: Seq<char>) -> bool {
    s.len() == 0 || (!is_white_space(s[0]) && !is_white_space(s.last()))
}

/// What is left of a text without its leading white space is empty or
/// begins with a character that is no white space, and it ends as the text does.
proof fn lemma_trim_start_shape(s: Seq<char>)
    ensures
        trim_start(s).len() == 0 || !is_white_space(trim_start(s)[0]),
        trim_start(s).len() <= s.len(),
        trim_start(s).len() > 0 ==> trim_start(s).last() == s.last(),
    decreases s.len(),
{
    if s.len() > 0 && is_white_space(s[0]) {
        let rest = s.subrange(1, s.len() as int);
        lemma_trim_start_shape(rest);
        if trim_start(rest).len() > 0 {
            assert(rest.last() == s.last());
        }
    }
}

/// What is left of a text without its trailing white space is empty or ends
/// with a character that is no white space; if the text begins with a
/// character that is no white space, what is left begins with it.
proof fn lemma_trim_end_shape(s: Seq<char>)
    ensures
        trim_end(s).len() == 0 || !is_white_space(trim_end(s).last()),
        s.len() > 0 && !is_white_space(s[0]) ==> trim_end(s).len() > 0 && trim_end(s)[0] == s[0],
    decreases s.len(),
{
    if s.len() > 0 && is_white_space(s.last()) {
        let shorter = s.drop_last();
        lemma_trim_end_shape(shorter);
        if !is_white_space(s[0]) {
            assert(shorter.len() > 0);
            assert(shorter[0] == s[0]);
        }
    }
}

/// A trimmed text is tidy.
pub proof fn lemma_trimmed_is_tidy(s: Seq<char>)
    ensures
        is_tidy(trimmed(s)),
{
    lemma_trim_start_shape(s);
    lemma_trim_end_shape(trim_start(s));
}

/// Trimming a tidy text changes nothing.
pub proof fn lemma_tidy_is_kept(s: Seq<char>)
    requires
        is_tidy(s),
    ensures
        trimmed(s) == s,
{
}

/// The transcript is tidy: it never begins or ends with white space, so
/// trimming it once more changes nothing.
pub proof fn lemma_transcript_is_tidy(segments: Seq<Seq<char>>)
    ensures
        is_tidy(joined(segments)),
        trimmed(joined(segments)) == joined(segments),
    decreases segments.len(),
{
    if segments.len() > 0 {
        let before = joined(segments.drop_last());
        let piece = trimmed(segments.last());
        lemma_transcript_is_tidy(segments.drop_last());
        lemma_trimmed_is_tidy(segments.last());
        if piece.len() > 0 && before.len() > 0 {
            let all = before + seq![' '] + piece;
            assert(all[0] == before[0]);
            assert(all.last() == piece.last());
        }
    }
    lemma_tidy_is_kept(joined(segments));
}

/// Segments that are all empty once trimmed give the empty transcript.
pub proof fn lemma_blank_segments_give_empty(segments: Seq<Seq<char>>)
    requires
        forall|i: int| 0 <= i < segments.len() ==> trimmed(#[trigger] segments[i]).len() == 0,
    ensures
        joined(segments).len() == 0,
    decreases segments.len(),
{
    if segments.len() > 0 {
        let front = segments.drop_last();
        assert forall|i: int| 0 <= i < front.len() implies trimmed(#[trigger] front[i]).len()
            == 0 by {
            assert(front[i] == segments[i]);
        }
        lemma_blank_segments_give_empty(front);
        assert(trimmed(segments.last()).len() == 0);
    }
}

/// A segment that is empty once trimmed leaves no trace in the transcript,
/// wherever it stands: the transcript is that of the other segments.
pub proof fn lemma_blank_segment_is_dropped(segments: Seq<Seq<char>>, at: int)
    requires
        0 <= at < segments.len(),
        trimmed(segments[at]).len() == 0,
    ensures
        joined(segments) == joined(segments.remove(at)),
    decreases segments.len(),
{
    let rest = segments.remove(at);
    if at == segments.len() - 1 {
        assert(rest =~= segments.drop_last());
    } else {
        lemma_blank_segment_is_dropped(segments.drop_last(), at);
        assert(rest.drop_last() =~= segments.drop_last().remove(at));
        assert(rest.last() == segments.last());
    }
}

/// The transcript of usable segments never begins or ends with a space that
/// joining put there: it is empty, or it ends with the last usable segment,
/// trimmed.
pub proof fn lemma_transcript_ends_with_last_usable(segments: Seq<Seq<char>>)
    requires
        segments.len() > 0,
        trimmed(segments.last()).len() > 0,
    ensures
        joined(segments).len() >= trimmed(segments.last()).len(),
        joined(segments).subrange(
            joined(segments).len() - trimmed(segments.last()).len(),
            joined(segments).len() as int,
        ) == trimmed(segments.last()),
{
    let before = joined(segments.drop_last());
    let piece = trimmed(segments.last());
    let all = joined(segments);
    if before.len() == 0 {
        assert(all.subrange(0, all.len() as int) =~= piece);
    } else {
        assert(all =~= before + seq![' '] + piece);
        assert(all.subrange(all.len() - piece.len(), all.len() as int) =~= piece);
    }
}

} // verus!
