//! Text helpers: the two conversions that the standard library performs for
//! us, and joining pieces of text.
use vstd::prelude::*;
use vstd::utf8::*;

verus! {

/// The text that lossy UTF-8 decoding makes of `bytes`: well-formed input is
/// decoded as it stands, every malformed sequence becomes U+FFFD.
pub uninterp spec fn utf8_lossy(bytes: Seq<u8>) -> Seq<char>;

/// The `Debug` rendering of a piece of text: the text between double quotes,
/// with quotes, backslashes and control characters escaped.
pub uninterp spec fn debug_quoted(text: Seq<char>) -> Seq<char>;

/// Trusted: `String::from_utf8_lossy` of the standard library. The result is
/// a function of the bytes alone; on well-formed UTF-8 it is the text those
/// bytes encode.
#[verifier::external_body]
fn lossy_text(bytes: &[u8]) -> (r: String)
    ensures
        r@ == utf8_lossy(bytes@),
        valid_utf8(bytes@) ==> r@ == decode_utf8(bytes@),
{
    String::from_utf8_lossy(bytes).into_owned()
}

/// Trusted: the `Debug` formatting of `str` in the standard library, as
/// `format!("{:?}", ..)` gives it. The result is a function of the text
/// alone.
#[verifier::external_body]
pub(crate) fn quoted_text(text: &str) -> (r: String)
    ensures
        r@ == debug_quoted(text@),
{
    format!("{:?}", text)
}

/// The text of `bytes`: what they encode where they are well-formed UTF-8,
/// and what lossy decoding makes of them where they are not.
pub open spec fn text_of(bytes: Seq<u8>) -> Seq<char> {
    if valid_utf8(bytes) {
        decode_utf8(bytes)
    } else {
        utf8_lossy(bytes)
    }
}

/// The text of `bytes`. Bytes that are no UTF-8 are replaced, never refused.
pub fn read_text(bytes: &[u8]) -> (r: String)
    ensures
        r@ == text_of(bytes@),
{
    lossy_text(bytes)
}

/// `head` followed by `tail`.
pub fn join2(head: &str, tail: &str) -> (r: String)
    ensures
        r@ == head@ + tail@,
{
    let mut out = String::from_str(head);
    out.append(tail);
    out
}

/// How many bytes of `s` stand before the first `b`; all of them where there
/// is none.
pub open spec fn first_index(s: Seq<u8>, b: u8) -> int
    decreases s.len(),
{
    if s.len() == 0 || s[0] == b {
        0
    } else {
        1 + first_index(s.skip(1), b)
    }
}

/// `first_index(s, b)` is the one `n` with no `b` before it and a `b`, or the
/// end, at it.
pub proof fn lemma_first_index(s: Seq<u8>, b: u8, n: int)
    requires
        0 <= n <= s.len(),
        forall|i: int| 0 <= i < n ==> s[i] != b,
        n == s.len() || s[n] == b,
    ensures
        first_index(s, b) == n,
    decreases n,
{
    if n > 0 {
        lemma_first_index(s.skip(1), b, n - 1);
    }
}

/// The place of the first `b` in `s`, or the length of `s` where there is
/// none.
pub fn find_byte(s: &[u8], b: u8) -> (n: usize)
    ensures
        n == first_index(s@, b),
        n <= s@.len(),
{
    let mut n: usize = 0;
    while n < s.len() && s[n] != b
        invariant
            n <= s@.len(),
            forall|i: int| 0 <= i < n ==> s@[i] != b,
        decreases s@.len() - n,
    {
        n += 1;
    }
    proof {
        lemma_first_index(s@, b, n as int);
    }
    n
}

/// Whether two runs of bytes are the same.
pub fn same_bytes(a: &[u8], b: &[u8]) -> (r: bool)
    ensures
        r == (a@ == b@),
{
    if a.len() != b.len() {
        return false;
    }
    let mut i: usize = 0;
    while i < a.len()
        invariant
            i <= a@.len(),
            a@.len() == b@.len(),
            forall|j: int| 0 <= j < i ==> a@[j] == b@[j],
        decreases a@.len() - i,
    {
        if a[i] != b[i] {
            return false;
        }
        i += 1;
    }
    assert(a@ =~= b@);
    true
}

/// The character that ends a line.
pub const LINE_BREAK: char = '\n';

/// `text` with its line breaks left out and every other character kept, in
/// order.
pub open spec fn without_line_breaks(text: Seq<char>) -> Seq<char>
    decreases text.len(),
{
    if text.len() == 0 {
        text
    } else if text.last() == LINE_BREAK {
        without_line_breaks(text.drop_last())
    } else {
        without_line_breaks(text.drop_last()).push(text.last())
    }
}

/// What is left of a text holds no line break, and a text without line
/// breaks is left as it is.
pub proof fn lemma_without_line_breaks(text: Seq<char>)
    ensures
        forall|i: int|
            0 <= i < without_line_breaks(text).len() ==> without_line_breaks(text)[i]
                != LINE_BREAK,
        (forall|i: int| 0 <= i < text.len() ==> text[i] != LINE_BREAK) ==> without_line_breaks(
            text,
        ) == text,
    decreases text.len(),
{
    if text.len() > 0 {
        lemma_without_line_breaks(text.drop_last());
        let kept = without_line_breaks(text);
        let before = without_line_breaks(text.drop_last());
        assert forall|i: int| 0 <= i < kept.len() implies kept[i] != LINE_BREAK by {
            if i < before.len() {
                assert(kept[i] == before[i]);
            }
        }
        if forall|i: int| 0 <= i < text.len() ==> text[i] != LINE_BREAK {
            assert forall|i: int| 0 <= i < text.drop_last().len() implies text.drop_last()[i]
                != LINE_BREAK by {
                assert(text.drop_last()[i] == text[i]);
            }
            assert(text.drop_last().push(text.last()) =~= text);
        }
    }
}

/// A run without line breaks that follows `head` is kept whole.
proof fn lemma_run_is_kept(head: Seq<char>, run: Seq<char>)
    requires
        forall|i: int| 0 <= i < run.len() ==> run[i] != LINE_BREAK,
    ensures
        without_line_breaks(head + run) == without_line_breaks(head) + run,
    decreases run.len(),
{
    if run.len() == 0 {
        assert(head + run =~= head);
        assert(without_line_breaks(head) + run =~= without_line_breaks(head));
    } else {
        lemma_run_is_kept(head, run.drop_last());
        assert((head + run).drop_last() =~= head + run.drop_last());
        assert((head + run).last() == run.last());
        assert((without_line_breaks(head) + run.drop_last()).push(run.last())
            =~= without_line_breaks(head) + run);
    }
}

/// `text` with its line breaks left out.
pub fn strip_line_breaks(text: &str) -> (r: String)
    ensures
        r@ == without_line_breaks(text@),
{
    let n = text.unicode_len();
    let mut out = String::new();
    let mut start: usize = 0;
    let mut i: usize = 0;
    proof {
        assert(text@.take(0) =~= Seq::<char>::empty());
    }
    for c in it: text.chars()
        invariant
            i == it.index(),
            it.seq() == text@,
            n == text@.len(),
            start <= i <= n,
            out@ == without_line_breaks(text@.take(start as int)),
            forall|j: int| start <= j < i ==> text@[j] != LINE_BREAK,
    {
        if c == LINE_BREAK {
            out.append(text.substring_char(start, i));
            proof {
                let head = text@.take(start as int);
                let run = text@.subrange(start as int, i as int);
                lemma_run_is_kept(head, run);
                assert(head + run =~= text@.take(i as int));
                assert(text@.take(i + 1).drop_last() =~= text@.take(i as int));
            }
            start = i + 1;
        }
        i += 1;
    }
    out.append(text.substring_char(start, n));
    proof {
        let head = text@.take(start as int);
        let run = text@.subrange(start as int, n as int);
        lemma_run_is_kept(head, run);
        assert(head + run =~= text@);
    }
    out
}

} // verus!
