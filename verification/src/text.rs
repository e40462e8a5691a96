//! Text as sequences of characters: lines, padding, and the decoding of what
//! a command printed.

use vstd::prelude::*;
use vstd::utf8::encode_utf8;

verus! {

/// `String::push` of the standard library: the string afterwards is the
/// string before with `ch` as one more character at its end.
pub assume_specification[ String::push ](s: &mut String, ch: char)
    ensures
        final(s)@ == old(s)@.push(ch),
;

/// What `String::from_utf8_lossy` makes of `bytes`: the text they encode,
/// with a replacement character in place of every stretch that is not UTF-8.
pub uninterp spec fn utf8_lossy(bytes: Seq<u8>) -> Seq<char>;

/// `String::from_utf8_lossy` of the standard library, with the result
/// copied into a `String`. The contract only gives the result its name,
/// [`utf8_lossy`]; nothing is claimed about which characters come out.
#[verifier::external_body]
pub(crate) fn decode_lossy(bytes: &[u8]) -> (text: String)
    ensures
        text@ == utf8_lossy(bytes@),
{
    String::from_utf8_lossy(bytes).into_owned()
}

/// The number of bytes that `s` takes in UTF-8. Columns are aligned by it.
pub open spec fn byte_len(s: Seq<char>) -> nat {
    encode_utf8(s).len()
}

/// `n` spaces.
pub open spec fn blanks(n: nat) -> Seq<char> {
    Seq::new(n, |i: int| ' ')
}

/// `c`, or a space where `c` is a line feed.
pub open spec fn flat_char(c: char) -> char {
    if c == '\n' {
        ' '
    } else {
        c
    }
}

/// `s` with a space in place of every line feed.
pub open spec fn flatten(s: Seq<char>) -> Seq<char> {
    Seq::new(s.len(), |i: int| flat_char(s[i]))
}

/// `k` is the place of the first line feed in `text`.
pub open spec fn is_first_line_feed(text: Seq<char>, k: int) -> bool {
    &&& 0 <= k < text.len()
    &&& text[k] == '\n'
    &&& forall|j: int| 0 <= j < k ==> text[j] != '\n'
}

/// `line` without the carriage return at its end, if it has one.
pub open spec fn without_cr(line: Seq<char>) -> Seq<char> {
    if line.len() > 0 && line.last() == '\r' {
        line.drop_last()
    } else {
        line
    }
}

/// The lines of `text`. Every line feed ends a line, and a carriage return
/// just before the line feed belongs to the line ending. What follows the
/// last line feed is a line of its own unless it is empty; it keeps a
/// carriage return at its end.
pub open spec fn lines(text: Seq<char>) -> Seq<Seq<char>>
    decreases text.len(),
{
    if text.len() == 0 {
        Seq::empty()
    } else if exists|k: int| is_first_line_feed(text, k) {
        let k = choose|k: int| is_first_line_feed(text, k);
        seq![without_cr(text.take(k))] + lines(text.skip(k + 1))
    } else {
        seq![text]
    }
}

/// The number of bytes of `s` in UTF-8.
pub fn str_byte_len(s: &str) -> (n: usize)
    ensures
        n == byte_len(s@),
{
    s.as_bytes().len()
}

/// A string of `n` spaces.
pub fn spaces(n: usize) -> (s: String)
    ensures
        s@ == blanks(n as nat),
{
    let mut s = String::new();
    let mut i: usize = 0;
    while i < n
        invariant
            i <= n,
            s@ == blanks(i as nat),
        decreases n - i,
    {
        s.push(' ');
        i += 1;
    }
    s
}

/// The characters of `s`, in order.
pub fn chars_of(s: &str) -> (chars: Vec<char>)
    ensures
        chars@ == s@,
{
    let mut chars: Vec<char> = Vec::new();
    for c in it: s.chars()
        invariant
            it.seq() == s@,
            chars@ == s@.take(it.index()),
    {
        chars.push(c);
    }
    chars
}

/// The characters `chars[from..to]` as a string.
pub fn string_of(chars: &Vec<char>, from: usize, to: usize) -> (s: String)
    requires
        from <= to <= chars.len(),
    ensures
        s@ == chars@.subrange(from as int, to as int),
{
    let mut s = String::new();
    let mut i: usize = from;
    while i < to
        invariant
            from <= i <= to <= chars.len(),
            s@ == chars@.subrange(from as int, i as int),
        decreases to - i,
    {
        s.push(chars[i]);
        i += 1;
    }
    s
}

/// Splits `text` into its lines, as [`lines`] defines them.
pub fn split_lines(text: &str) -> (found: Vec<String>)
    ensures
        found.deep_view() == lines(text@),
{
    let chars = chars_of(text);
    let n: usize = chars.len();
    let mut found: Vec<String> = Vec::new();
    let mut start: usize = 0;
    let mut i: usize = 0;
    proof {
        assert(text@.skip(0) =~= text@);
    }
    while i < n
        invariant
            chars@ == text@,
            n == chars.len(),
            start <= i <= n,
            forall|j: int| start <= j < i ==> chars@[j] != '\n',
            lines(text@) == found.deep_view() + lines(text@.skip(start as int)),
        decreases n - i,
    {
        if chars[i] == '\n' {
            let mut end: usize = i;
            if end > start && chars[end - 1] == '\r' {
                end -= 1;
            }
            let line = string_of(&chars, start, end);
            proof {
                let rest: Seq<char> = text@.skip(start as int);
                let k: int = i - start;
                lemma_first_line_feed_is_unique(rest, k);
                assert(line@ =~= without_cr(rest.take(k)));
                assert(rest.skip(k + 1) =~= text@.skip(i + 1));
            }
            found.push(line);
            start = i + 1;
        }
        i += 1;
    }
    if start < n {
        found.push(string_of(&chars, start, n));
    }
    found
}

/// A text has at most one first line feed, so the choice in [`lines`] is
/// that one.
pub proof fn lemma_first_line_feed_is_unique(text: Seq<char>, k: int)
    requires
        is_first_line_feed(text, k),
    ensures
        (choose|j: int| is_first_line_feed(text, j)) == k,
        lines(text) == seq![without_cr(text.take(k))] + lines(text.skip(k + 1)),
{
}

/// A text without a first line feed holds no line feed at all.
proof fn lemma_no_first_line_feed(text: Seq<char>, i: int)
    requires
        !exists|k: int| is_first_line_feed(text, k),
        0 <= i < text.len(),
    ensures
        text[i] != '\n',
    decreases i,
{
    if text[i] == '\n' {
        assert forall|j: int| 0 <= j < i implies text[j] != '\n' by {
            lemma_no_first_line_feed(text, j);
        }
        assert(is_first_line_feed(text, i));
    }
}

/// No line holds a line feed.
pub proof fn lemma_lines_hold_no_line_feed(text: Seq<char>)
    ensures
        forall|i: int| 0 <= i < lines(text).len() ==> !(#[trigger] lines(text)[i]).contains('\n'),
    decreases text.len(),
{
    if text.len() == 0 {
    } else if exists|k: int| is_first_line_feed(text, k) {
        let k: int = choose|k: int| is_first_line_feed(text, k);
        let first = without_cr(text.take(k));
        let rest = lines(text.skip(k + 1));
        lemma_lines_hold_no_line_feed(text.skip(k + 1));
        assert forall|i: int| 0 <= i < lines(text).len() implies !(#[trigger] lines(
            text,
        )[i]).contains('\n') by {
            if i == 0 {
                assert(lines(text)[0] == first);
            } else {
                assert(lines(text)[i] == rest[i - 1]);
            }
        }
    } else {
        assert forall|j: int| 0 <= j < text.len() implies text[j] != '\n' by {
            lemma_no_first_line_feed(text, j);
        }
    }
}

/// A line that can be written into a listing and read back as it is: it
/// holds no line feed and does not end in a carriage return.
pub open spec fn is_plain_line(line: Seq<char>) -> bool {
    !line.contains('\n') && (line.len() > 0 ==> line.last() != '\r')
}

/// `entries`, each followed by a line feed.
pub open spec fn unlines(entries: Seq<Seq<char>>) -> Seq<char>
    decreases entries.len(),
{
    if entries.len() == 0 {
        Seq::empty()
    } else {
        entries.first() + seq!['\n'] + unlines(entries.drop_first())
    }
}

/// Reading lines undoes writing them: the lines of plain lines written one
/// after the other, each with its line feed, are those lines.
pub proof fn lemma_lines_of_unlines(entries: Seq<Seq<char>>)
    requires
        forall|i: int| 0 <= i < entries.len() ==> is_plain_line(#[trigger] entries[i]),
    ensures
        lines(unlines(entries)) == entries,
    decreases entries.len(),
{
    if entries.len() > 0 {
        let first = entries.first();
        let text = unlines(entries);
        let k: int = first.len() as int;
        assert(is_first_line_feed(text, k));
        lemma_first_line_feed_is_unique(text, k);
        assert(text.take(k) =~= first);
        assert(text.skip(k + 1) =~= unlines(entries.drop_first()));
        lemma_lines_of_unlines(entries.drop_first());
    }
}

/// `s` with every line feed turned into a space, so that it fits one row.
pub fn flatten_newlines(s: &str) -> (flat: String)
    ensures
        flat@ == flatten(s@),
        !flat@.contains('\n'),
{
    let mut flat = String::new();
    for c in it: s.chars()
        invariant
            it.seq() == s@,
            flat@ == flatten(s@.take(it.index())),
    {
        flat.push(if c == '\n' { ' ' } else { c });
    }
    proof {
        lemma_flatten_has_no_line_feed(s@);
    }
    flat
}

/// Flattening keeps the length and leaves no line feed behind; a text
/// without line feeds is left as it is.
pub proof fn lemma_flatten_has_no_line_feed(s: Seq<char>)
    ensures
        flatten(s).len() == s.len(),
        !flatten(s).contains('\n'),
        !s.contains('\n') ==> flatten(s) == s,
{
    if !s.contains('\n') {
        assert forall|i: int| 0 <= i < s.len() implies flatten(s)[i] == s[i] by {
            assert(s.contains(s[i]));
        }
        assert(flatten(s) =~= s);
    }
}

} // verus!
