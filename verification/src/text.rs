//! Decoding of bytes into text, and the few string operations that file names need.

use vstd::prelude::*;
use vstd::string::*;
use vstd::utf8::*;

verus! {

/// The text that `String::from_utf8_lossy` makes of `bytes`.
pub uninterp spec fn utf8_lossy(bytes: Seq<u8>) -> Seq<char>;

/// Calls `String::from_utf8`: the text is there exactly when the bytes are valid UTF-8, and it
/// is then what the bytes encode.
#[verifier::external_body]
pub(crate) fn utf8_text(bytes: &[u8]) -> (text: Option<String>)
    ensures
        text is Some <==> valid_utf8(bytes@),
        text matches Some(text) ==> text@ == decode_utf8(bytes@),
{
    String::from_utf8(bytes.to_vec()).ok()
}

/// Calls `String::from_utf8_lossy`: the result depends on the bytes alone, and valid UTF-8 is
/// decoded as it stands. What is invalid is replaced, not dropped, so that only empty bytes give
/// an empty text. How many replacement characters stand for which invalid bytes is left unsaid.
#[verifier::external_body]
pub(crate) fn utf8_lossy_text(bytes: &[u8]) -> (text: String)
    ensures
        text@ == utf8_lossy(bytes@),
        valid_utf8(bytes@) ==> text@ == decode_utf8(bytes@),
        bytes@.len() > 0 ==> text@.len() > 0,
{
    String::from_utf8_lossy(bytes).into_owned()
}

/// The text that bytes from outside are shown as: what they encode where they are valid UTF-8,
/// and else a text with replacement characters.
pub open spec fn shown(bytes: Seq<u8>) -> Seq<char> {
    if valid_utf8(bytes) {
        decode_utf8(bytes)
    } else {
        utf8_lossy(bytes)
    }
}

/// An ASCII capital letter in lower case; any other character as it is.
pub open spec fn ascii_lower(c: char) -> char {
    if 'A' <= c <= 'Z' {
        ((c as u32 - 'A' as u32) + 'a' as u32) as char
    } else {
        c
    }
}

/// A text with its ASCII capital letters in lower case.
pub open spec fn ascii_lowercase(text: Seq<char>) -> Seq<char> {
    text.map_values(|c: char| ascii_lower(c))
}

/// Whether `part` stands in `text` from position `at` on.
pub open spec fn occurs_at(text: Seq<char>, part: Seq<char>, at: int) -> bool {
    &&& 0 <= at <= text.len() - part.len()
    &&& text.subrange(at, at + part.len()) == part
}

/// Whether `part` stands anywhere in `text`.
pub open spec fn has_part(text: Seq<char>, part: Seq<char>) -> bool {
    exists|at: int| #[trigger] occurs_at(text, part, at)
}

/// Whether `text` ends with `part`.
pub open spec fn has_ending(text: Seq<char>, part: Seq<char>) -> bool {
    occurs_at(text, part, text.len() - part.len())
}

/// Whether `a` comes before `b` in the lexicographic order of byte sequences: they agree up to
/// some position, where `a` ends and `b` does not, or where `a` has the smaller byte.
pub open spec fn bytes_precede(a: Seq<u8>, b: Seq<u8>) -> bool {
    exists|at: int| #[trigger] differ_first_at(a, b, at) && (at == a.len() || a[at] < b[at])
}

/// Whether `a` and `b` agree before position `at`, and `b` goes on there.
pub open spec fn differ_first_at(a: Seq<u8>, b: Seq<u8>, at: int) -> bool {
    &&& 0 <= at <= a.len()
    &&& at < b.len()
    &&& a.take(at) == b.take(at)
}

/// The characters of a text.
pub(crate) fn characters(text: &str) -> (chars: Vec<char>)
    ensures
        chars@ == text@,
{
    let mut chars: Vec<char> = Vec::new();
    for c in it: text.chars()
        invariant
            it.seq() == text@,
            chars@ == text@.take(it.index() as int),
    {
        assert(text@.take(it.index() + 1) =~= text@.take(it.index() as int).push(c));
        chars.push(c);
    }
    assert(text@.take(text@.len() as int) =~= text@);
    chars
}

/// The characters of a text, in lower case as far as they are ASCII.
pub(crate) fn lowercase_chars(text: &str) -> (chars: Vec<char>)
    ensures
        chars@ == ascii_lowercase(text@),
{
    let mut chars: Vec<char> = Vec::new();
    for c in it: text.chars()
        invariant
            it.seq() == text@,
            chars@ == ascii_lowercase(text@.take(it.index() as int)),
    {
        let lower: char = if 'A' <= c && c <= 'Z' {
            ((c as u8 - 65u8) + 97u8) as char
        } else {
            c
        };
        assert(lower == ascii_lower(c));
        assert(ascii_lowercase(text@.take(it.index() + 1)) =~= ascii_lowercase(
            text@.take(it.index() as int),
        ).push(lower));
        chars.push(lower);
    }
    assert(text@.take(text@.len() as int) =~= text@);
    chars
}

/// Whether `part` stands in `text` from position `at` on.
fn stands_at(text: &Vec<char>, part: &Vec<char>, at: usize) -> (found: bool)
    requires
        at + part@.len() <= text@.len(),
    ensures
        found == occurs_at(text@, part@, at as int),
{
    let mut i: usize = 0;
    while i < part.len()
        invariant
            at + part@.len() <= text.len(),
            i <= part@.len(),
            forall|j: int| 0 <= j < i ==> text@[at + j] == part@[j],
        decreases part@.len() - i,
    {
        if text[at + i] != part[i] {
            assert(text@.subrange(at as int, at + part@.len())[i as int] != part@[i as int]);
            return false;
        }
        i = i + 1;
    }
    assert(text@.subrange(at as int, at + part@.len()) =~= part@);
    true
}

/// Whether `part` stands anywhere in `text`.
pub(crate) fn contains(text: &Vec<char>, part: &Vec<char>) -> (found: bool)
    ensures
        found == has_part(text@, part@),
{
    if part.len() > text.len() {
        return false;
    }
    let last: usize = text.len() - part.len();
    let mut at: usize = 0;
    loop
        invariant
            at <= last,
            last + part@.len() == text@.len(),
            forall|before: int| 0 <= before < at ==> !occurs_at(text@, part@, before),
        decreases last - at,
    {
        if stands_at(text, part, at) {
            return true;
        }
        if at == last {
            return false;
        }
        at = at + 1;
    }
}

/// Whether `text` ends with `part`.
pub(crate) fn ends_with(text: &Vec<char>, part: &Vec<char>) -> (found: bool)
    ensures
        found == has_ending(text@, part@),
{
    part.len() <= text.len() && stands_at(text, part, text.len() - part.len())
}

/// Whether `a` comes before `b` in the lexicographic order of byte sequences.
pub(crate) fn comes_before(a: &[u8], b: &[u8]) -> (before: bool)
    ensures
        before == bytes_precede(a@, b@),
{
    let mut i: usize = 0;
    while i < a.len() && i < b.len() && a[i] == b[i]
        invariant
            i <= a@.len(),
            i <= b@.len(),
            a@.take(i as int) == b@.take(i as int),
        decreases a@.len() - i,
    {
        assert(a@.take(i + 1) =~= a@.take(i as int).push(a@[i as int]));
        assert(b@.take(i + 1) =~= b@.take(i as int).push(b@[i as int]));
        i = i + 1;
    }
    let before: bool = i < b.len() && (i == a.len() || a[i] < b[i]);
    proof {
        if before {
            assert(differ_first_at(a@, b@, i as int));
        } else if bytes_precede(a@, b@) {
            let at = choose|at: int|
                #[trigger] differ_first_at(a@, b@, at) && (at == a@.len() || a@[at] < b@[at]);
            if at < i {
                assert(a@.take(i as int)[at] == b@.take(i as int)[at]);
            } else if at > i {
                assert(a@.take(at)[i as int] == b@.take(at)[i as int]);
            }
        }
    }
    before
}

/// The order of byte sequences is strict: nothing comes before itself, and of two sequences at
/// most one comes before the other.
pub proof fn bytes_precede_is_strict(a: Seq<u8>, b: Seq<u8>)
    ensures
        bytes_precede(a, b) ==> a != b && !bytes_precede(b, a),
{
    if bytes_precede(a, b) {
        let i = choose|at: int|
            #[trigger] differ_first_at(a, b, at) && (at == a.len() || a[at] < b[at]);
        if bytes_precede(b, a) {
            let j = choose|at: int|
                #[trigger] differ_first_at(b, a, at) && (at == b.len() || b[at] < a[at]);
            if i < j {
                assert(b.take(j)[i] == a.take(j)[i]);
            } else if j < i {
                assert(a.take(i)[j] == b.take(i)[j]);
            }
        }
    }
}

/// The order of byte sequences is transitive.
pub proof fn bytes_precede_is_transitive(a: Seq<u8>, b: Seq<u8>, c: Seq<u8>)
    requires
        bytes_precede(a, b),
        bytes_precede(b, c),
    ensures
        bytes_precede(a, c),
{
    let i = choose|at: int|
        #[trigger] differ_first_at(a, b, at) && (at == a.len() || a[at] < b[at]);
    let j = choose|at: int|
        #[trigger] differ_first_at(b, c, at) && (at == b.len() || b[at] < c[at]);
    let k = if i < j {
        i
    } else {
        j
    };
    assert(a.take(k) =~= a.take(i).take(k));
    assert(b.take(k) =~= b.take(i).take(k));
    assert(b.take(k) =~= b.take(j).take(k));
    assert(c.take(k) =~= c.take(j).take(k));
    if i < j {
        assert(b.take(j)[i] == c.take(j)[i]);
    } else if j < i {
        assert(a.take(i)[j] == b.take(i)[j]);
    }
    assert(differ_first_at(a, c, k));
}

/// Of two different byte sequences one comes before the other.
pub proof fn bytes_precede_is_total(a: Seq<u8>, b: Seq<u8>)
    requires
        a != b,
    ensures
        bytes_precede(a, b) || bytes_precede(b, a),
    decreases a.len(),
{
    if a.len() == 0 {
        if b.len() == 0 {
            assert(a =~= b);
        }
        assert(a.take(0) =~= b.take(0));
        assert(differ_first_at(a, b, 0));
    } else if b.len() == 0 || a[0] != b[0] {
        assert(a.take(0) =~= b.take(0));
        if b.len() > 0 {
            assert(differ_first_at(a, b, 0));
        }
        assert(differ_first_at(b, a, 0));
    } else {
        let (a1, b1) = (a.drop_first(), b.drop_first());
        assert(a =~= seq![a[0]] + a1);
        assert(b =~= seq![b[0]] + b1);
        bytes_precede_is_total(a1, b1);
        if bytes_precede(a1, b1) {
            a_common_beginning_keeps_the_order(seq![a[0]], a1, b1);
        } else {
            a_common_beginning_keeps_the_order(seq![a[0]], b1, a1);
        }
    }
}

/// A common beginning does not change the order of byte sequences.
pub proof fn a_common_beginning_keeps_the_order(beginning: Seq<u8>, a: Seq<u8>, b: Seq<u8>)
    ensures
        bytes_precede(beginning + a, beginning + b) == bytes_precede(a, b),
{
    let n = beginning.len() as int;
    let (longer_a, longer_b) = (beginning + a, beginning + b);
    if bytes_precede(a, b) {
        let at = choose|at: int|
            #[trigger] differ_first_at(a, b, at) && (at == a.len() || a[at] < b[at]);
        assert(longer_a.take(n + at) =~= beginning + a.take(at));
        assert(longer_b.take(n + at) =~= beginning + b.take(at));
        assert(differ_first_at(longer_a, longer_b, n + at));
    }
    if bytes_precede(longer_a, longer_b) {
        let at = choose|at: int|
            #[trigger] differ_first_at(longer_a, longer_b, at) && (at == longer_a.len()
                || longer_a[at] < longer_b[at]);
        assert(at >= n) by {
            if at < n {
                assert(longer_a[at] == longer_b[at]);
            }
        }
        assert(a.take(at - n) =~= longer_a.take(at).skip(n));
        assert(b.take(at - n) =~= longer_b.take(at).skip(n));
        assert(differ_first_at(a, b, at - n));
    }
}

} // verus!
