//! Character-level helpers shared by the validator and the executors.

use vstd::prelude::*;

verus! {

/// The characters with the Unicode `White_Space` property, which
/// `char::is_whitespace` reports.
pub open spec fn unicode_whitespace(c: char) -> bool {
    ('\u{9}' <= c && c <= '\u{d}') || c == ' ' || c == '\u{85}' || c == '\u{a0}' || c
        == '\u{1680}' || ('\u{2000}' <= c && c <= '\u{200a}') || c == '\u{2028}' || c
        == '\u{2029}' || c == '\u{202f}' || c == '\u{205f}' || c == '\u{3000}'
}

/// Whether `c` is a whitespace character, as `unicode_whitespace` says.
pub fn is_whitespace(c: char) -> (r: bool)
    ensures
        r == unicode_whitespace(c),
{
    ('\u{9}' <= c && c <= '\u{d}') || c == ' ' || c == '\u{85}' || c == '\u{a0}' || c
        == '\u{1680}' || ('\u{2000}' <= c && c <= '\u{200a}') || c == '\u{2028}' || c
        == '\u{2029}' || c == '\u{202f}' || c == '\u{205f}' || c == '\u{3000}'
}

/// Relies on `String::push`, which appends one character.
#[verifier::external_body]
fn push_char(s: &mut String, c: char)
    ensures
        final(s)@ == old(s)@.push(c),
{
    s.push(c)
}

/// The views of a sequence of strings.
pub open spec fn view_strings(v: Seq<String>) -> Seq<Seq<char>> {
    v.map_values(|w: String| w@)
}

/// The maximal runs of non-whitespace characters of `s`, in order: what
/// `str::split_whitespace` yields.
pub open spec fn words(s: Seq<char>) -> Seq<Seq<char>>
    decreases s.len(),
{
    if s.len() == 0 {
        seq![]
    } else {
        let p = words(s.drop_last());
        let c = s.last();
        if unicode_whitespace(c) {
            p
        } else if s.len() >= 2 && !unicode_whitespace(s[s.len() - 2]) {
            p.drop_last().push(p.last().push(c))
        } else {
            p.push(seq![c])
        }
    }
}

/// `needle` occurs in `hay` as a contiguous run of characters.
pub open spec fn contains_sub(hay: Seq<char>, needle: Seq<char>) -> bool {
    exists|k: int|
        0 <= k && k + needle.len() <= hay.len() && #[trigger] hay.subrange(k, k + needle.len())
            == needle
}

/// The characters of `s`, one per element.
pub(crate) fn to_chars(s: &str) -> (r: Vec<char>)
    ensures
        r@ == s@,
{
    let n = s.unicode_len();
    let mut r: Vec<char> = Vec::new();
    let mut i: usize = 0;
    while i < n
        invariant
            n == s@.len(),
            i <= n,
            r@ == s@.subrange(0, i as int),
        decreases n - i,
    {
        let c = s.get_char(i);
        r.push(c);
        i = i + 1;
        assert(r@ =~= s@.subrange(0, i as int));
    }
    assert(r@ =~= s@);
    r
}

/// The string made of the characters of `v`.
pub(crate) fn from_chars(v: &Vec<char>) -> (r: String)
    ensures
        r@ == v@,
{
    let mut r = String::new();
    let mut i: usize = 0;
    while i < v.len()
        invariant
            i <= v@.len(),
            r@ == v@.subrange(0, i as int),
        decreases v@.len() - i,
    {
        push_char(&mut r, v[i]);
        i = i + 1;
        assert(r@ =~= v@.subrange(0, i as int));
    }
    assert(r@ =~= v@);
    r
}

/// The characters of `v` from `from` up to `to`.
pub(crate) fn sub_chars(v: &Vec<char>, from: usize, to: usize) -> (r: Vec<char>)
    requires
        from <= to <= v@.len(),
    ensures
        r@ == v@.subrange(from as int, to as int),
{
    let mut r: Vec<char> = Vec::new();
    let mut i: usize = from;
    while i < to
        invariant
            from <= i <= to,
            to <= v@.len(),
            r@ == v@.subrange(from as int, i as int),
        decreases to - i,
    {
        r.push(v[i]);
        i = i + 1;
        assert(r@ =~= v@.subrange(from as int, i as int));
    }
    r
}

/// The two character sequences are equal.
pub(crate) fn chars_eq(a: &Vec<char>, b: &Vec<char>) -> (r: bool)
    ensures
        r == (a@ == b@),
{
    if a.len() != b.len() {
        return false;
    }
    let mut i: usize = 0;
    while i < a.len()
        invariant
            a@.len() == b@.len(),
            i <= a@.len(),
            forall|j: int| 0 <= j < i ==> a@[j] == b@[j],
        decreases a@.len() - i,
    {
        if a[i] != b[i] {
            return false;
        }
        i = i + 1;
    }
    assert(a@ =~= b@);
    true
}

/// The string equals one of the strings of `v`.
pub(crate) fn contains_string(v: &Vec<String>, s: &str) -> (r: bool)
    ensures
        r == view_strings(v@).contains(s@),
{
    let target = to_chars(s);
    let mut i: usize = 0;
    while i < v.len()
        invariant
            target@ == s@,
            i <= v@.len(),
            forall|j: int| 0 <= j < i ==> v@[j]@ != s@,
        decreases v@.len() - i,
    {
        let cand = to_chars(v[i].as_str());
        if chars_eq(&cand, &target) {
            assert(view_strings(v@)[i as int] == s@);
            return true;
        }
        i = i + 1;
    }
    assert(!view_strings(v@).contains(s@)) by {
        if view_strings(v@).contains(s@) {
            let j = choose|j: int| 0 <= j < view_strings(v@).len() && view_strings(v@)[j] == s@;
            assert(v@[j]@ == s@);
        }
    }
    false
}

/// `needle` occurs in `hay` at position `k`.
fn occurs_at(hay: &Vec<char>, needle: &Vec<char>, k: usize) -> (r: bool)
    requires
        k + needle@.len() <= hay@.len(),
    ensures
        r == (hay@.subrange(k as int, k + needle@.len()) == needle@),
{
    let n = needle.len();
    let h = hay.len();
    let mut j: usize = 0;
    while j < n
        invariant
            n == needle@.len(),
            h == hay@.len(),
            k + n <= hay@.len(),
            j <= n,
            forall|j2: int| 0 <= j2 < j ==> hay@[k + j2] == needle@[j2],
        decreases n - j,
    {
        if hay[k + j] != needle[j] {
            assert(hay@.subrange(k as int, k + n)[j as int] != needle@[j as int]);
            return false;
        }
        j = j + 1;
    }
    assert(hay@.subrange(k as int, k + n) =~= needle@);
    true
}

/// `needle` occurs in `hay`.
pub(crate) fn has_substring(hay: &Vec<char>, needle: &Vec<char>) -> (r: bool)
    ensures
        r == contains_sub(hay@, needle@),
{
    let h = hay.len();
    let n = needle.len();
    if n > h {
        return false;
    }
    let mut k: usize = 0;
    while k < h - n
        invariant
            h == hay@.len(),
            n == needle@.len(),
            n <= h,
            k <= h - n,
            forall|k2: int| 0 <= k2 < k ==> #[trigger] hay@.subrange(k2, k2 + n) != needle@,
        decreases h - n - k,
    {
        if occurs_at(hay, needle, k) {
            return true;
        }
        k = k + 1;
    }
    if occurs_at(hay, needle, k) {
        return true;
    }
    assert(!contains_sub(hay@, needle@)) by {
        if contains_sub(hay@, needle@) {
            let k2 = choose|k2: int|
                0 <= k2 && k2 + n <= h && #[trigger] hay@.subrange(k2, k2 + n) == needle@;
            assert(hay@.subrange(k2, k2 + n) != needle@);
        }
    }
    false
}

/// Splits `s` at whitespace into its words, as `words` describes.
pub fn split_words(s: &str) -> (r: Vec<String>)
    ensures
        view_strings(r@) == words(s@),
{
    let chars = to_chars(s);
    let n = chars.len();
    let mut out: Vec<String> = Vec::new();
    let mut cur: Vec<char> = Vec::new();
    let mut i: usize = 0;
    while i < n
        invariant
            n == chars@.len(),
            chars@ == s@,
            i <= n,
            words(s@.subrange(0, i as int)) == view_strings(out@) + (if cur@.len() > 0 {
                seq![cur@]
            } else {
                seq![]
            }),
            cur@.len() > 0 <==> (i > 0 && !unicode_whitespace(s@[i - 1])),
        decreases n - i,
    {
        let c = chars[i];
        let ghost t = s@.subrange(0, i + 1);
        let ghost prev_out = view_strings(out@);
        let ghost prev_cur = cur@;
        assert(t.drop_last() =~= s@.subrange(0, i as int));
        assert(t.last() == c);
        if is_whitespace(c) {
            assert(words(t) == words(s@.subrange(0, i as int)));
            if cur.len() > 0 {
                let w = from_chars(&cur);
                out.push(w);
                cur = Vec::new();
                assert(view_strings(out@) =~= prev_out.push(prev_cur));
            }
        } else {
            cur.push(c);
            proof {
                if prev_cur.len() > 0 {
                    let p = prev_out + seq![prev_cur];
                    assert(p.drop_last() =~= prev_out);
                    assert(p.last() == prev_cur);
                    assert(words(t) == p.drop_last().push(p.last().push(c)));
                    assert(words(t) =~= prev_out + seq![cur@]);
                } else {
                    assert(words(t) == prev_out.push(seq![c]));
                    assert(cur@ =~= seq![c]);
                    assert(words(t) =~= prev_out + seq![cur@]);
                }
            }
        }
        i = i + 1;
        assert(words(s@.subrange(0, i as int)) =~= view_strings(out@) + (if cur@.len() > 0 {
            seq![cur@]
        } else {
            seq![]
        }));
    }
    if cur.len() > 0 {
        let ghost prev_out = view_strings(out@);
        let w = from_chars(&cur);
        out.push(w);
        assert(view_strings(out@) =~= prev_out.push(cur@));
    }
    assert(s@.subrange(0, n as int) =~= s@);
    assert(view_strings(out@) =~= words(s@));
    out
}

} // verus!
