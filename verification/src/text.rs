//! Text normalisation used by every prompt and menu: trimming surrounding
//! whitespace, lower-casing, and exact comparison of strings.

use vstd::prelude::*;
use vstd::string::*;

verus! {

/// Whether `c` carries the Unicode `White_Space` property (the characters
/// `char::is_whitespace` accepts): tab, line feed, vertical tab, form feed,
/// carriage return, space, next line, no-break space, ogham space mark, the
/// spaces U+2000 to U+200A, line and paragraph separators, narrow no-break
/// space, medium mathematical space and ideographic space.
pub open spec fn is_whitespace_char(c: char) -> bool {
    let n = c as u32;
    ||| 0x09 <= n <= 0x0D
    ||| n == 0x20
    ||| n == 0x85
    ||| n == 0xA0
    ||| n == 0x1680
    ||| 0x2000 <= n <= 0x200A
    ||| n == 0x2028
    ||| n == 0x2029
    ||| n == 0x202F
    ||| n == 0x205F
    ||| n == 0x3000
}

/// Decides the `White_Space` property of one character.
pub fn is_whitespace(c: char) -> (b: bool)
    ensures
        b == is_whitespace_char(c),
{
    let n = c as u32;
    (0x09 <= n && n <= 0x0D) || n == 0x20 || n == 0x85 || n == 0xA0 || n == 0x1680 || (0x2000
        <= n && n <= 0x200A) || n == 0x2028 || n == 0x2029 || n == 0x202F || n == 0x205F || n
        == 0x3000
}

/// `s` without its leading whitespace.
pub open spec fn trim_start_seq(s: Seq<char>) -> Seq<char>
    decreases s.len(),
{
    if s.len() > 0 && is_whitespace_char(s[0]) {
        trim_start_seq(s.drop_first())
    } else {
        s
    }
}

/// `s` without its trailing whitespace.
pub open spec fn trim_end_seq(s: Seq<char>) -> Seq<char>
    decreases s.len(),
{
    if s.len() > 0 && is_whitespace_char(s.last()) {
        trim_end_seq(s.drop_last())
    } else {
        s
    }
}

/// `s` without leading and trailing whitespace (what `str::trim` gives).
pub open spec fn trimmed(s: Seq<char>) -> Seq<char> {
    trim_end_seq(trim_start_seq(s))
}

proof fn lemma_trim_start_at(s: Seq<char>, i: int)
    requires
        0 <= i <= s.len(),
        forall|k: int| 0 <= k < i ==> is_whitespace_char(#[trigger] s[k]),
        i == s.len() || !is_whitespace_char(s[i]),
    ensures
        trim_start_seq(s) == s.subrange(i, s.len() as int),
    decreases i,
{
    if i == 0 {
        assert(s.subrange(0, s.len() as int) =~= s);
    } else {
        let t = s.drop_first();
        assert forall|k: int| 0 <= k < i - 1 implies is_whitespace_char(#[trigger] t[k]) by {
            assert(t[k] == s[k + 1]);
        }
        assert(i - 1 == t.len() || t[i - 1] == s[i]);
        lemma_trim_start_at(t, i - 1);
        assert(t.subrange(i - 1, t.len() as int) =~= s.subrange(i, s.len() as int));
    }
}

proof fn lemma_trim_end_at(s: Seq<char>, j: int)
    requires
        0 <= j <= s.len(),
        forall|k: int| j <= k < s.len() ==> is_whitespace_char(#[trigger] s[k]),
        j == 0 || !is_whitespace_char(s[j - 1]),
    ensures
        trim_end_seq(s) == s.subrange(0, j),
    decreases s.len() - j,
{
    if j == s.len() {
        assert(s.subrange(0, j) =~= s);
    } else {
        let t = s.drop_last();
        assert forall|k: int| j <= k < t.len() implies is_whitespace_char(#[trigger] t[k]) by {
            assert(t[k] == s[k]);
        }
        assert(j == 0 || t[j - 1] == s[j - 1]);
        assert(is_whitespace_char(s[s.len() - 1]));
        lemma_trim_end_at(t, j);
        assert(t.subrange(0, j) =~= s.subrange(0, j));
    }
}

proof fn lemma_trim_start_shape(s: Seq<char>)
    ensures
        trim_start_seq(s).len() == 0 || !is_whitespace_char(trim_start_seq(s)[0]),
        trim_start_seq(s).len() <= s.len(),
    decreases s.len(),
{
    if s.len() > 0 && is_whitespace_char(s[0]) {
        lemma_trim_start_shape(s.drop_first());
    }
}

proof fn lemma_trim_end_shape(s: Seq<char>)
    ensures
        trim_end_seq(s).len() <= s.len(),
        trim_end_seq(s) == s.subrange(0, trim_end_seq(s).len() as int),
        trim_end_seq(s).len() == 0 || !is_whitespace_char(trim_end_seq(s).last()),
    decreases s.len(),
{
    if s.len() > 0 && is_whitespace_char(s.last()) {
        let t = s.drop_last();
        lemma_trim_end_shape(t);
        let e = trim_end_seq(t);
        assert(e =~= s.subrange(0, e.len() as int));
    } else {
        assert(s =~= s.subrange(0, s.len() as int));
    }
}

/// A trimmed text neither starts nor ends with whitespace, and is no longer
/// than the text it came from.
pub proof fn lemma_trimmed_has_no_outer_whitespace(s: Seq<char>)
    ensures
        trimmed(s).len() <= s.len(),
        trimmed(s).len() > 0 ==> !is_whitespace_char(trimmed(s)[0]),
        trimmed(s).len() > 0 ==> !is_whitespace_char(trimmed(s).last()),
{
    let t = trim_start_seq(s);
    lemma_trim_start_shape(s);
    lemma_trim_end_shape(t);
    let r = trim_end_seq(t);
    if r.len() > 0 {
        assert(r[0] == t[0]);
    }
}

/// A text without any whitespace is its own trimmed form.
pub proof fn lemma_trim_noop(s: Seq<char>)
    requires
        forall|k: int| 0 <= k < s.len() ==> !is_whitespace_char(#[trigger] s[k]),
    ensures
        trimmed(s) == s,
{
    if s.len() > 0 {
        assert(!is_whitespace_char(s[0]));
        assert(!is_whitespace_char(s[s.len() - 1]));
    }
    assert(trim_start_seq(s) == s);
    assert(trim_end_seq(s) == s);
}

/// Trimming an already trimmed text changes nothing.
pub proof fn lemma_trim_idempotent(s: Seq<char>)
    ensures
        trimmed(trimmed(s)) == trimmed(s),
{
    let t = trim_start_seq(s);
    lemma_trim_start_shape(s);
    lemma_trim_end_shape(t);
    let r = trim_end_seq(t);
    if r.len() > 0 {
        assert(r[0] == t[0]);
    }
    assert(trim_start_seq(r) == r);
    if r.len() > 0 {
        assert(!is_whitespace_char(r.last()));
    }
    assert(trim_end_seq(r) == r);
}

/// Removes leading and trailing whitespace, as `str::trim` does.
pub fn trim(s: &str) -> (r: String)
    ensures
        r@ == trimmed(s@),
{
    let n = s.unicode_len();
    let mut i: usize = 0;
    while i < n && is_whitespace(s.get_char(i))
        invariant
            n == s@.len(),
            i <= n,
            forall|k: int| 0 <= k < i ==> is_whitespace_char(#[trigger] s@[k]),
        decreases n - i,
    {
        i = i + 1;
    }
    proof {
        lemma_trim_start_at(s@, i as int);
    }
    let ghost front = s@.subrange(i as int, n as int);
    let mut j: usize = n;
    while j > i && is_whitespace(s.get_char(j - 1))
        invariant
            n == s@.len(),
            i <= j <= n,
            front == s@.subrange(i as int, n as int),
            forall|k: int| j <= k < n ==> is_whitespace_char(#[trigger] s@[k]),
        decreases j,
    {
        j = j - 1;
    }
    proof {
        assert forall|k: int| j - i <= k < front.len() implies is_whitespace_char(
            #[trigger] front[k],
        ) by {
            assert(front[k] == s@[k + i]);
        }
        if j > i {
            assert(front[j - i - 1] == s@[j - 1]);
        }
        lemma_trim_end_at(front, j - i);
        assert(front.subrange(0, j - i) =~= s@.subrange(i as int, j as int));
    }
    s.substring_char(i, j).to_owned()
}


/// The lower-case form of `s`, as `str::to_lowercase` computes it (Unicode
/// `Lowercase` mapping).
pub uninterp spec fn lowercase_of(s: Seq<char>) -> Seq<char>;

/// Calls `str::to_lowercase`; its result is the named mapping above.
#[verifier::external_body]
pub(crate) fn to_lowercase(s: &str) -> (r: String)
    ensures
        r@ == lowercase_of(s@),
{
    s.to_lowercase()
}

/// How a menu answer is read: surrounding whitespace dropped, then lower-cased.
pub open spec fn normalized(input: Seq<char>) -> Seq<char> {
    lowercase_of(trimmed(input))
}

/// Normalises a raw menu answer (trim, then lower-case).
pub fn normalize_choice(input: &str) -> (r: String)
    ensures
        r@ == normalized(input@),
{
    let t = trim(input);
    to_lowercase(t.as_str())
}

/// Exact, character-by-character equality of two strings.
pub fn text_equals(a: &str, b: &str) -> (r: bool)
    ensures
        r == (a@ == b@),
{
    let n = a.unicode_len();
    let m = b.unicode_len();
    if n != m {
        return false;
    }
    let mut i: usize = 0;
    while i < n
        invariant
            n == a@.len(),
            m == b@.len(),
            n == m,
            i <= n,
            forall|k: int| 0 <= k < i ==> a@[k] == b@[k],
        decreases n - i,
    {
        if a.get_char(i) != b.get_char(i) {
            return false;
        }
        i = i + 1;
    }
    assert(a@ =~= b@);
    true
}

/// Whether `prefix` is a prefix of `s`.
pub open spec fn has_prefix(s: Seq<char>, prefix: Seq<char>) -> bool {
    prefix.len() <= s.len() && s.subrange(0, prefix.len() as int) == prefix
}

/// `s` with `prefix` removed from its front, when `s` starts with it
/// (what `str::strip_prefix` gives).
pub fn strip_prefix(s: &str, prefix: &str) -> (r: Option<String>)
    ensures
        r is Some <==> has_prefix(s@, prefix@),
        r matches Some(rest) ==> s@ == prefix@ + rest@,
{
    let n = s.unicode_len();
    let m = prefix.unicode_len();
    if m > n {
        return None;
    }
    let mut i: usize = 0;
    while i < m
        invariant
            n == s@.len(),
            m == prefix@.len(),
            m <= n,
            i <= m,
            forall|k: int| 0 <= k < i ==> s@[k] == prefix@[k],
        decreases m - i,
    {
        if s.get_char(i) != prefix.get_char(i) {
            assert(s@.subrange(0, m as int)[i as int] != prefix@[i as int]);
            return None;
        }
        i = i + 1;
    }
    assert(s@.subrange(0, m as int) =~= prefix@);
    let rest = s.substring_char(m, n).to_owned();
    assert(s@ =~= prefix@ + rest@);
    Some(rest)
}

} // verus!
