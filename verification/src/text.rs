//! Character classes and whole-string operations on text.

use vstd::prelude::*;
use vstd::string::*;

verus! {

broadcast use vstd::string::group_string_axioms;

/// Whether `c` has the Unicode `White_Space` property: the 25 code points
/// U+0009 to U+000D, U+0020, U+0085, U+00A0, U+1680, U+2000 to U+200A,
/// U+2028, U+2029, U+202F, U+205F and U+3000.
pub open spec fn char_is_whitespace(c: char) -> bool {
    ||| '\u{9}' <= c <= '\u{d}'
    ||| c == ' ' || c == '\u{85}' || c == '\u{a0}' || c == '\u{1680}'
    ||| '\u{2000}' <= c <= '\u{200a}'
    ||| c == '\u{2028}' || c == '\u{2029}' || c == '\u{202f}' || c == '\u{205f}'
    ||| c == '\u{3000}'
}

/// Whether `c` is in the Unicode general category `Cc` (control codes): the
/// code points U+0000 to U+001F and U+007F to U+009F.
pub open spec fn char_is_control(c: char) -> bool {
    c <= '\u{1f}' || ('\u{7f}' <= c && c <= '\u{9f}')
}

/// Calls `char::is_whitespace`, which holds of a character with the Unicode
/// `White_Space` property; the contract lists those code points.
#[verifier::external_body]
fn is_whitespace(c: char) -> (r: bool)
    ensures
        r == char_is_whitespace(c),
{
    c.is_whitespace()
}

/// Calls `char::is_control`, which holds of a character in the Unicode
/// general category `Cc`; the contract lists those code points.
#[verifier::external_body]
fn is_control(c: char) -> (r: bool)
    ensures
        r == char_is_control(c),
{
    c.is_control()
}

/// `s` with its leading whitespace removed.
pub open spec fn trim_start(s: Seq<char>) -> Seq<char>
    decreases s.len(),
{
    if s.len() > 0 && char_is_whitespace(s[0]) {
        trim_start(s.drop_first())
    } else {
        s
    }
}

/// `s` with its trailing whitespace removed.
pub open spec fn trim_end(s: Seq<char>) -> Seq<char>
    decreases s.len(),
{
    if s.len() > 0 && char_is_whitespace(s.last()) {
        trim_end(s.drop_last())
    } else {
        s
    }
}

/// `s` with leading and trailing whitespace removed, as `str::trim` does.
pub open spec fn trimmed(s: Seq<char>) -> Seq<char> {
    trim_end(trim_start(s))
}

/// Whether some character of `s` is a control character.
pub open spec fn has_control(s: Seq<char>) -> bool {
    exists|i: int| 0 <= i < s.len() && char_is_control(#[trigger] s[i])
}

/// The characters of `s`, one by one.
pub fn chars_of(s: &str) -> (v: Vec<char>)
    ensures
        v@ == s@,
{
    let mut v: Vec<char> = Vec::new();
    for c in it: s.chars()
        invariant
            it.seq() == s@,
            v@.len() == it.index(),
            v@ == s@.take(v@.len() as int),
    {
        proof {
            assert(s@.take(v@.len() as int + 1) =~= s@.take(v@.len() as int).push(c));
        }
        v.push(c);
    }
    assert(v@ =~= s@);
    v
}

proof fn lemma_trim_start_skip(s: Seq<char>, i: int)
    requires
        0 <= i <= s.len(),
        forall|j: int| 0 <= j < i ==> char_is_whitespace(#[trigger] s[j]),
    ensures
        trim_start(s) == trim_start(s.subrange(i, s.len() as int)),
    decreases i,
{
    if i > 0 {
        lemma_trim_start_skip(s, i - 1);
        let rest = s.subrange(i - 1, s.len() as int);
        assert(rest[0] == s[i - 1]);
        assert(rest.drop_first() =~= s.subrange(i, s.len() as int));
    } else {
        assert(s.subrange(0, s.len() as int) =~= s);
    }
}

proof fn lemma_trim_end_drop(s: Seq<char>, k: int)
    requires
        0 <= k <= s.len(),
        forall|j: int| k <= j < s.len() ==> char_is_whitespace(#[trigger] s[j]),
    ensures
        trim_end(s) == trim_end(s.subrange(0, k)),
    decreases s.len() - k,
{
    if k < s.len() {
        lemma_trim_end_drop(s, k + 1);
        let head = s.subrange(0, k + 1);
        assert(head.last() == s[k]);
        assert(head.drop_last() =~= s.subrange(0, k));
    } else {
        assert(s.subrange(0, k) =~= s);
    }
}

/// `s` with leading and trailing whitespace removed.
pub fn trim(s: &str) -> (r: &str)
    ensures
        r@ == trimmed(s@),
{
    let chars = chars_of(s);
    let n: usize = chars.len();
    let mut start: usize = 0;
    while start < n && is_whitespace(chars[start])
        invariant
            chars@ == s@,
            n == chars.len(),
            start <= n,
            forall|j: int| 0 <= j < start ==> char_is_whitespace(#[trigger] s@[j]),
        decreases n - start,
    {
        start = start + 1;
    }
    proof {
        lemma_trim_start_skip(s@, start as int);
    }
    let ghost rest = s@.subrange(start as int, n as int);
    assert(start == n || !char_is_whitespace(rest[0]));
    assert(trim_start(s@) == rest);
    let mut end: usize = n;
    while end > start && is_whitespace(chars[end - 1])
        invariant
            chars@ == s@,
            n == chars.len(),
            start <= end <= n,
            rest == s@.subrange(start as int, n as int),
            forall|j: int| end <= j < n ==> char_is_whitespace(#[trigger] s@[j]),
        decreases end - start,
    {
        end = end - 1;
    }
    proof {
        assert forall|j: int| end - start <= j < rest.len() implies char_is_whitespace(
            #[trigger] rest[j],
        ) by {
            assert(rest[j] == s@[start + j]);
        }
        lemma_trim_end_drop(rest, end - start);
        let kept = rest.subrange(0, end - start);
        assert(kept =~= s@.subrange(start as int, end as int));
        if end > start {
            assert(kept.last() == s@[end - 1]);
        }
    }
    s.substring_char(start, end)
}

/// Whether some character of `s` is a control character.
pub fn contains_control(s: &str) -> (r: bool)
    ensures
        r == has_control(s@),
{
    let chars = chars_of(s);
    let n: usize = chars.len();
    let mut i: usize = 0;
    while i < n
        invariant
            chars@ == s@,
            n == chars.len(),
            i <= n,
            forall|j: int| 0 <= j < i ==> !char_is_control(#[trigger] s@[j]),
        decreases n - i,
    {
        if is_control(chars[i]) {
            assert(char_is_control(s@[i as int]));
            return true;
        }
        i = i + 1;
    }
    false
}

/// Whether `a` and `b` hold the same characters.
pub fn same_text(a: &str, b: &str) -> (r: bool)
    ensures
        r == (a@ == b@),
{
    String::from_str(a) == String::from_str(b)
}

/// The code of `c` once an ASCII capital letter is mapped to its small letter;
/// every other character keeps its code.
pub open spec fn ascii_lower_code(c: char) -> u32 {
    if 'A' <= c && c <= 'Z' {
        (c as u32 + 32) as u32
    } else {
        c as u32
    }
}

/// Whether `a` and `b` are the same text but for the case of ASCII letters.
pub open spec fn ascii_case_insensitive_eq(a: Seq<char>, b: Seq<char>) -> bool {
    &&& a.len() == b.len()
    &&& forall|i: int| 0 <= i < a.len() ==> ascii_lower_code(#[trigger] a[i]) == ascii_lower_code(b[i])
}

fn lower_code(c: char) -> (r: u32)
    ensures
        r == ascii_lower_code(c),
{
    if 'A' <= c && c <= 'Z' {
        c as u32 + 32
    } else {
        c as u32
    }
}

/// Whether `a` and `b` are the same text but for the case of ASCII letters.
pub fn eq_ignore_ascii_case(a: &str, b: &str) -> (r: bool)
    ensures
        r == ascii_case_insensitive_eq(a@, b@),
{
    let x = chars_of(a);
    let y = chars_of(b);
    if x.len() != y.len() {
        return false;
    }
    let n: usize = x.len();
    let mut i: usize = 0;
    while i < n
        invariant
            x@ == a@,
            y@ == b@,
            n == x.len(),
            n == y.len(),
            i <= n,
            forall|j: int| 0 <= j < i ==> ascii_lower_code(#[trigger] a@[j]) == ascii_lower_code(b@[j]),
        decreases n - i,
    {
        if lower_code(x[i]) != lower_code(y[i]) {
            return false;
        }
        i = i + 1;
    }
    true
}

proof fn lemma_trim_start_first(s: Seq<char>)
    ensures
        trim_start(s).len() > 0 ==> !char_is_whitespace(trim_start(s)[0]),
    decreases s.len(),
{
    if s.len() > 0 && char_is_whitespace(s[0]) {
        lemma_trim_start_first(s.drop_first());
    }
}

proof fn lemma_trim_end_prefix(s: Seq<char>)
    ensures
        trim_end(s).len() <= s.len(),
        forall|i: int| 0 <= i < trim_end(s).len() ==> #[trigger] trim_end(s)[i] == s[i],
        trim_end(s).len() > 0 ==> !char_is_whitespace(trim_end(s).last()),
    decreases s.len(),
{
    if s.len() > 0 && char_is_whitespace(s.last()) {
        lemma_trim_end_prefix(s.drop_last());
    }
}

/// Trimming leaves nothing for a second trim to remove: the text has neither
/// leading nor trailing whitespace, and trimming it again changes nothing.
pub proof fn lemma_trimmed_idempotent(s: Seq<char>)
    ensures
        trimmed(s).len() > 0 ==> !char_is_whitespace(trimmed(s)[0]),
        trimmed(s).len() > 0 ==> !char_is_whitespace(trimmed(s).last()),
        trimmed(trimmed(s)) == trimmed(s),
{
    let u = trim_start(s);
    let t = trim_end(u);
    lemma_trim_start_first(s);
    lemma_trim_end_prefix(u);
    if t.len() > 0 {
        assert(t[0] == u[0]);
        assert(trim_start(t) == t);
        assert(trim_end(t) == t);
    } else {
        assert(trim_start(t) == t);
        assert(trim_end(t) == t);
    }
}

/// Whether every character of `s` is whitespace.
pub open spec fn all_whitespace(s: Seq<char>) -> bool {
    forall|i: int| 0 <= i < s.len() ==> char_is_whitespace(#[trigger] s[i])
}

proof fn lemma_trim_start_cut(s: Seq<char>) -> (k: int)
    ensures
        0 <= k <= s.len(),
        trim_start(s) == s.subrange(k, s.len() as int),
        all_whitespace(s.subrange(0, k)),
    decreases s.len(),
{
    if s.len() > 0 && char_is_whitespace(s[0]) {
        let k0 = lemma_trim_start_cut(s.drop_first());
        assert(s.drop_first().subrange(k0, s.len() - 1) =~= s.subrange(k0 + 1, s.len() as int));
        assert forall|i: int| 0 <= i < k0 + 1 implies char_is_whitespace(
            #[trigger] s.subrange(0, k0 + 1)[i],
        ) by {
            if i > 0 {
                assert(s.subrange(0, k0 + 1)[i] == s.drop_first().subrange(0, k0)[i - 1]);
            }
        }
        k0 + 1
    } else {
        assert(s.subrange(0, s.len() as int) =~= s);
        0
    }
}

proof fn lemma_trim_end_cut(s: Seq<char>) -> (k: int)
    ensures
        0 <= k <= s.len(),
        trim_end(s) == s.subrange(0, k),
        all_whitespace(s.subrange(k, s.len() as int)),
    decreases s.len(),
{
    if s.len() > 0 && char_is_whitespace(s.last()) {
        let k0 = lemma_trim_end_cut(s.drop_last());
        assert(s.drop_last().subrange(0, k0) =~= s.subrange(0, k0));
        assert forall|i: int| 0 <= i < s.len() - k0 implies char_is_whitespace(
            #[trigger] s.subrange(k0, s.len() as int)[i],
        ) by {
            if i < s.len() - 1 - k0 {
                assert(s.subrange(k0, s.len() as int)[i] == s.drop_last().subrange(
                    k0,
                    s.len() - 1,
                )[i]);
            }
        }
        k0
    } else {
        assert(s.subrange(s.len() as int, s.len() as int) =~= Seq::<char>::empty());
        assert(s.subrange(0, s.len() as int) =~= s);
        s.len() as int
    }
}

/// Trimming only removes whitespace, and only at the ends: every text is
/// whitespace, then its trimmed text, then whitespace.
pub proof fn lemma_trimmed_is_inside_padding(s: Seq<char>)
    ensures
        exists|before: Seq<char>, after: Seq<char>|
            all_whitespace(before) && all_whitespace(after) && s == before + trimmed(s) + after,
{
    let k = lemma_trim_start_cut(s);
    let u = s.subrange(k, s.len() as int);
    let j = lemma_trim_end_cut(u);
    let before = s.subrange(0, k);
    let after = u.subrange(j, u.len() as int);
    assert(s =~= before + u.subrange(0, j) + after);
    assert(trimmed(s) == u.subrange(0, j));
    assert(all_whitespace(before) && all_whitespace(after) && s == before + trimmed(s) + after);
}

/// Trimming removes all the whitespace at the ends: text that neither starts
/// nor ends with whitespace, padded with whitespace on both sides, trims back
/// to itself.
pub proof fn lemma_trim_removes_padding(before: Seq<char>, body: Seq<char>, after: Seq<char>)
    requires
        all_whitespace(before),
        all_whitespace(after),
        body.len() > 0,
        !char_is_whitespace(body[0]),
        !char_is_whitespace(body.last()),
    ensures
        trimmed(before + body + after) == body,
{
    let s = before + body + after;
    assert forall|j: int| 0 <= j < before.len() implies char_is_whitespace(#[trigger] s[j]) by {
        assert(s[j] == before[j]);
    }
    lemma_trim_start_skip(s, before.len() as int);
    let rest = s.subrange(before.len() as int, s.len() as int);
    assert(rest =~= body + after);
    assert(rest[0] == body[0]);
    assert(trim_start(rest) == rest);
    assert forall|j: int| body.len() <= j < rest.len() implies char_is_whitespace(
        #[trigger] rest[j],
    ) by {
        assert(rest[j] == after[j - body.len()]);
    }
    lemma_trim_end_drop(rest, body.len() as int);
    assert(rest.subrange(0, body.len() as int) =~= body);
    assert(trim_end(body) == body);
}

} // verus!
