use vstd::prelude::*;
use vstd::string::*;

verus! {

/// What is left of `text` once every `c` at its start is gone.
pub open spec fn strip_leading(text: Seq<char>, c: char) -> Seq<char>
    decreases text.len(),
{
    if text.len() > 0 && text[0] == c {
        strip_leading(text.drop_first(), c)
    } else {
        text
    }
}

/// `needle` stands in `hay` from position `at` on.
pub open spec fn occurs_at(hay: Seq<char>, needle: Seq<char>, at: int) -> bool {
    &&& 0 <= at
    &&& at + needle.len() <= hay.len()
    &&& hay.subrange(at, at + needle.len()) =~= needle
}

/// `needle` stands somewhere in `hay`.
pub open spec fn contains(hay: Seq<char>, needle: Seq<char>) -> bool {
    exists|at: int| occurs_at(hay, needle, at)
}

/// The lowercase form that `str::to_lowercase` gives a text.
pub uninterp spec fn lowercase_of(text: Seq<char>) -> Seq<char>;

/// Calls `str::to_lowercase`, which maps each character by the Unicode
/// lowercase tables; the result is known only by its name.
#[verifier::external_body]
pub(crate) fn lowercase(text: &str) -> (lowered: String)
    ensures
        lowered@ == lowercase_of(text@),
{
    text.to_lowercase()
}

/// The stripped text is the end of the given one, what was removed holds
/// only `c`, and what is left does not start with `c`: characters `c`
/// further inside stay where they are.
pub proof fn lemma_strip_leading(text: Seq<char>, c: char)
    ensures
        strip_leading(text, c).len() <= text.len(),
        strip_leading(text, c) == text.skip(text.len() - strip_leading(text, c).len()),
        forall|i: int| 0 <= i < text.len() - strip_leading(text, c).len() ==> text[i] == c,
        strip_leading(text, c).len() > 0 ==> strip_leading(text, c)[0] != c,
    decreases text.len(),
{
    if text.len() > 0 && text[0] == c {
        let rest = text.drop_first();
        lemma_strip_leading(rest, c);
        let kept = strip_leading(rest, c);
        assert forall|i: int| 0 <= i < text.len() - kept.len() implies text[i] == c by {
            if i > 0 {
                assert(text[i] == rest[i - 1]);
            }
        }
    }
}

/// Removes every `c` at the start of `text`.
pub fn trim_leading(text: &str, c: char) -> (rest: String)
    ensures
        rest@ == strip_leading(text@, c),
{
    let n = text.unicode_len();
    let mut i: usize = 0;
    proof {
        assert(text@.skip(0) =~= text@);
    }
    while i < n && text.get_char(i) == c
        invariant
            i <= n,
            n == text@.len(),
            strip_leading(text@, c) == strip_leading(text@.skip(i as int), c),
        decreases n - i,
    {
        proof {
            assert(text@.skip(i as int).drop_first() =~= text@.skip(i + 1));
        }
        i += 1;
    }
    text.substring_char(i, n).to_owned()
}

/// The characters of `text`, one by one.
pub fn chars_of(text: &str) -> (chars: Vec<char>)
    ensures
        chars@ == text@,
{
    let n = text.unicode_len();
    let mut chars: Vec<char> = Vec::new();
    let mut i: usize = 0;
    while i < n
        invariant
            i <= n,
            n == text@.len(),
            chars@ == text@.subrange(0, i as int),
        decreases n - i,
    {
        chars.push(text.get_char(i));
        i += 1;
    }
    chars
}

fn matches_at(hay: &Vec<char>, needle: &Vec<char>, at: usize) -> (found: bool)
    requires
        at + needle.len() <= hay.len(),
    ensures
        found == occurs_at(hay@, needle@, at as int),
{
    let m = needle.len();
    let mut j: usize = 0;
    while j < m
        invariant
            j <= m,
            m == needle.len(),
            at + m <= hay.len(),
            forall|k: int| 0 <= k < j ==> hay@[at + k] == needle@[k],
        decreases m - j,
    {
        if hay[at + j] != needle[j] {
            return false;
        }
        j += 1;
    }
    true
}

/// Whether `needle` stands somewhere in `hay`; the empty text stands in
/// every text.
pub fn contains_text(hay: &str, needle: &str) -> (found: bool)
    ensures
        found == contains(hay@, needle@),
{
    let hay_chars = chars_of(hay);
    let needle_chars = chars_of(needle);
    let n = hay_chars.len();
    let m = needle_chars.len();
    if m > n {
        return false;
    }
    let last = n - m;
    let mut at: usize = 0;
    while at <= last
        invariant
            at <= last + 1,
            last == n - m,
            n == hay_chars.len(),
            m == needle_chars.len(),
            hay_chars@ == hay@,
            needle_chars@ == needle@,
            forall|k: int| 0 <= k < at ==> !occurs_at(hay@, needle@, k),
        decreases last + 1 - at,
    {
        if matches_at(&hay_chars, &needle_chars, at) {
            return true;
        }
        at += 1;
    }
    false
}

} // verus!
