//! Character-level helpers on `str` and `String`, each stated over the
//! `Seq<char>` view of the text.
use vstd::prelude::*;
use vstd::string::StrSliceExecFns;
use vstd::string::StringExecFns;
use vstd::string::StringSliceAdditionalSpecFns;
use vstd::utf8::encode_utf8;
use vstd::utf8::is_char_boundary;

verus! {

/// The character of a decimal digit `d` (`d < 10`).
pub open spec fn digit_char(d: nat) -> char {
    (48 + d) as char
}

/// The decimal representation of `n`, without leading zeros ("0" for zero).
pub open spec fn dec(n: nat) -> Seq<char>
    decreases n,
{
    if n < 10 {
        seq![digit_char(n)]
    } else {
        dec(n / 10).push(digit_char(n % 10))
    }
}

/// `text` occurs in `hay` as a contiguous run of characters.
pub open spec fn contains_seq(hay: Seq<char>, text: Seq<char>) -> bool {
    exists|i: int| 0 <= i <= hay.len() - text.len() && #[trigger] hay.subrange(i, i + text.len()) == text
}

/// `hay` ends with `suffix`.
pub open spec fn ends_with_seq(hay: Seq<char>, suffix: Seq<char>) -> bool {
    suffix.len() <= hay.len() && hay.subrange(hay.len() - suffix.len(), hay.len() as int) == suffix
}

/// The Unicode `White_Space` characters, which `char::is_whitespace` recognises.
pub open spec fn is_white_space(c: char) -> bool {
    ||| c == '\t' || c == '\n' || c == '\u{0B}' || c == '\u{0C}' || c == '\r' || c == ' '
    ||| c == '\u{85}' || c == '\u{A0}' || c == '\u{1680}'
    ||| ('\u{2000}' <= c && c <= '\u{200A}')
    ||| c == '\u{2028}' || c == '\u{2029}' || c == '\u{202F}' || c == '\u{205F}' || c == '\u{3000}'
}

/// Number of leading white-space characters of `s`.
pub open spec fn leading_ws(s: Seq<char>) -> nat
    decreases s.len(),
{
    if s.len() > 0 && is_white_space(s[0]) {
        1 + leading_ws(s.drop_first())
    } else {
        0
    }
}

/// Number of trailing white-space characters of `s`.
pub open spec fn trailing_ws(s: Seq<char>) -> nat
    decreases s.len(),
{
    if s.len() > 0 && is_white_space(s.last()) {
        1 + trailing_ws(s.drop_last())
    } else {
        0
    }
}

/// `s` without its leading and trailing white space, as `str::trim` gives it.
pub open spec fn trimmed(s: Seq<char>) -> Seq<char> {
    let t = s.skip(leading_ws(s) as int);
    t.take(t.len() - trailing_ws(t))
}

/// The full-Unicode lower-case mapping of `s`, as `str::to_lowercase` computes it.
pub uninterp spec fn lowercase(s: Seq<char>) -> Seq<char>;

/// Calls `str::to_lowercase`; the result is the lower-case mapping named `lowercase`.
#[verifier::external_body]
pub(crate) fn to_lowercase(s: &str) -> (r: String)
    ensures
        r@ == lowercase(s@),
{
    s.to_lowercase()
}

/// Calls `String::push`, which appends one character.
#[verifier::external_body]
pub(crate) fn push_char(s: &mut String, c: char)
    ensures
        final(s)@ == old(s)@.push(c),
{
    s.push(c)
}

/// Calls `String::pop`, which removes and returns the last character.
#[verifier::external_body]
pub(crate) fn pop_char(s: &mut String) -> (r: Option<char>)
    ensures
        old(s)@.len() == 0 ==> r is None && final(s)@ == old(s)@,
        old(s)@.len() > 0 ==> r == Some(old(s)@.last()) && final(s)@ == old(s)@.drop_last(),
{
    s.pop()
}

/// An owned copy of `s`.
pub fn owned(s: &str) -> (r: String)
    ensures
        r@ == s@,
{
    String::from_str(s)
}

/// `a` followed by `b`.
pub fn concat(a: &str, b: &str) -> (r: String)
    ensures
        r@ == a@ + b@,
{
    let mut r = String::from_str(a);
    r.append(b);
    r
}

/// `shown` is `text` when the UTF-8 form of `text` takes at most `max_bytes`
/// bytes, and otherwise `...` followed by the text of its last `keep` bytes.
pub open spec fn is_shortened(shown: Seq<char>, text: Seq<char>, max_bytes: nat, keep: nat) -> bool {
    let b = encode_utf8(text);
    &&& b.len() <= max_bytes ==> shown == text
    &&& b.len() > max_bytes ==> {
        &&& shown.take(3) == "..."@
        &&& encode_utf8(shown.skip(3)) == b.subrange(b.len() - keep, b.len() as int)
    }
}

/// `text` itself when its UTF-8 form takes at most `max_bytes` bytes;
/// otherwise `...` followed by the text of its last `keep` bytes.
pub fn shorten_front(text: &str, max_bytes: usize, keep: usize) -> (r: String)
    requires
        keep <= max_bytes,
        text.spec_bytes().len() > max_bytes ==> is_char_boundary(
            text.spec_bytes(),
            text.spec_bytes().len() - keep,
        ),
    ensures
        is_shortened(r@, text@, max_bytes as nat, keep as nat),
{
    let n = text.as_bytes().len();
    if n > max_bytes {
        let (_head, tail) = text.split_at(n - keep);
        let r = concat("...", tail);
        proof {
            reveal_strlit("...");
            assert(r@.take(3) == "..."@);
            assert(r@.skip(3) == tail@);
        }
        r
    } else {
        owned(text)
    }
}

/// `text` can be cut to its last `keep` bytes behind `...` whenever it is
/// longer than `max_bytes` bytes: the cut falls on a character boundary.
pub open spec fn cuttable(text: Seq<char>, max_bytes: nat, keep: nat) -> bool {
    encode_utf8(text).len() > max_bytes ==> is_char_boundary(encode_utf8(text), encode_utf8(text).len() - keep)
}

/// Whether `text` can be cut as `cuttable` says.
pub fn can_cut(text: &str, max_bytes: usize, keep: usize) -> (r: bool)
    requires
        keep <= max_bytes,
    ensures
        r == cuttable(text@, max_bytes as nat, keep as nat),
{
    let n = text.as_bytes().len();
    if n > max_bytes {
        text.is_char_boundary(n - keep)
    } else {
        true
    }
}

/// The characters of `s`, one per element.
pub fn chars_of(s: &str) -> (r: Vec<char>)
    ensures
        r@ == s@,
{
    let n = s.unicode_len();
    let mut v: Vec<char> = Vec::new();
    let mut i: usize = 0;
    while i < n
        invariant
            n == s@.len(),
            i <= n,
            v@ == s@.take(i as int),
        decreases n - i,
    {
        let c = s.get_char(i);
        v.push(c);
        assert(s@.take(i + 1) == s@.take(i as int).push(c));
        i = i + 1;
    }
    assert(s@.take(n as int) == s@);
    v
}

/// A `String` whose characters are `v[from..to]`.
pub fn string_of(v: &Vec<char>, from: usize, to: usize) -> (r: String)
    requires
        from <= to <= v@.len(),
    ensures
        r@ == v@.subrange(from as int, to as int),
{
    let mut r = String::new();
    let mut i: usize = from;
    while i < to
        invariant
            from <= i <= to <= v@.len(),
            r@ == v@.subrange(from as int, i as int),
        decreases to - i,
    {
        push_char(&mut r, v[i]);
        assert(v@.subrange(from as int, i + 1) == v@.subrange(from as int, i as int).push(v@[i as int]));
        i = i + 1;
    }
    r
}

/// Whether `a` and `b` hold the same characters.
pub fn str_eq(a: &str, b: &str) -> (r: bool)
    ensures
        r == (a@ == b@),
{
    let x = chars_of(a);
    let y = chars_of(b);
    chars_eq(&x, &y)
}

/// Whether two character vectors are equal.
pub fn chars_eq(x: &Vec<char>, y: &Vec<char>) -> (r: bool)
    ensures
        r == (x@ == y@),
{
    if x.len() != y.len() {
        return false;
    }
    let mut i: usize = 0;
    while i < x.len()
        invariant
            x@.len() == y@.len(),
            i <= x@.len(),
            forall|k: int| 0 <= k < i ==> x@[k] == y@[k],
        decreases x.len() - i,
    {
        if x[i] != y[i] {
            return false;
        }
        i = i + 1;
    }
    assert(x@ == y@);
    true
}

/// Whether `hay` ends with `suffix`.
pub fn ends_with(hay: &str, suffix: &str) -> (r: bool)
    ensures
        r == ends_with_seq(hay@, suffix@),
{
    let h = chars_of(hay);
    let s = chars_of(suffix);
    if s.len() > h.len() {
        return false;
    }
    let off: usize = h.len() - s.len();
    let mut i: usize = 0;
    while i < s.len()
        invariant
            h@ == hay@,
            s@ == suffix@,
            off == h@.len() - s@.len(),
            s@.len() <= h@.len() <= usize::MAX,
            i <= s@.len(),
            forall|k: int| 0 <= k < i ==> h@[off + k] == s@[k],
        decreases s.len() - i,
    {
        if h[off + i] != s[i] {
            assert(h@.subrange(off as int, h@.len() as int)[i as int] != s@[i as int]);
            return false;
        }
        i = i + 1;
    }
    assert(h@.subrange(off as int, h@.len() as int) == s@);
    true
}

/// Whether `text` occurs in `hay`.
pub fn contains_chars(hay: &Vec<char>, text: &Vec<char>) -> (r: bool)
    ensures
        r == contains_seq(hay@, text@),
{
    if text.len() > hay.len() {
        return false;
    }
    if text.len() == 0 {
        assert(hay@.subrange(0int, 0int + text@.len()) == text@);
        return true;
    }
    let last: usize = hay.len() - text.len();
    let mut i: usize = 0;
    while i <= last
        invariant
            last == hay@.len() - text@.len(),
            1 <= text@.len() <= hay@.len() <= usize::MAX,
            i <= last + 1,
            forall|j: int| 0 <= j < i ==> #[trigger] hay@.subrange(j, j + text@.len()) != text@,
        decreases last + 1 - i,
    {
        let mut k: usize = 0;
        let mut same = true;
        while k < text.len()
            invariant
                i <= last,
                last == hay@.len() - text@.len(),
                1 <= text@.len() <= hay@.len() <= usize::MAX,
                k <= text@.len(),
                same ==> forall|m: int| 0 <= m < k ==> hay@[i + m] == text@[m],
                !same ==> hay@.subrange(i as int, i + text@.len()) != text@,
            decreases text.len() - k,
        {
            if hay[i + k] != text[k] {
                assert(hay@.subrange(i as int, i + text@.len())[k as int] != text@[k as int]);
                same = false;
            }
            k = k + 1;
        }
        if same {
            assert(hay@.subrange(i as int, i + text@.len()) == text@);
            return true;
        }
        i = i + 1;
    }
    assert forall|j: int| 0 <= j <= hay@.len() - text@.len() implies #[trigger] hay@.subrange(j, j + text@.len()) != text@ by {}
    false
}

/// Whether `text` occurs in `hay`.
pub fn contains_str(hay: &str, text: &str) -> (r: bool)
    ensures
        r == contains_seq(hay@, text@),
{
    let h = chars_of(hay);
    let t = chars_of(text);
    contains_chars(&h, &t)
}

/// Whether `c` is a Unicode white-space character.
pub fn is_whitespace_char(c: char) -> (r: bool)
    ensures
        r == is_white_space(c),
{
    c == '\t' || c == '\n' || c == '\u{0B}' || c == '\u{0C}' || c == '\r' || c == ' ' || c
        == '\u{85}' || c == '\u{A0}' || c == '\u{1680}' || ('\u{2000}' <= c && c <= '\u{200A}')
        || c == '\u{2028}' || c == '\u{2029}' || c == '\u{202F}' || c == '\u{205F}' || c
        == '\u{3000}'
}

proof fn lemma_leading_ws(s: Seq<char>, i: int)
    requires
        0 <= i <= s.len(),
        forall|k: int| 0 <= k < i ==> is_white_space(#[trigger] s[k]),
        i == s.len() || !is_white_space(s[i]),
    ensures
        leading_ws(s) == i,
    decreases i,
{
    if i > 0 {
        assert forall|k: int| 0 <= k < i - 1 implies is_white_space(#[trigger] s.drop_first()[k]) by {
            assert(s.drop_first()[k] == s[k + 1]);
        }
        if i < s.len() {
            assert(s.drop_first()[i - 1] == s[i]);
        }
        lemma_leading_ws(s.drop_first(), i - 1);
    }
}

proof fn lemma_trailing_ws(s: Seq<char>, j: int)
    requires
        0 <= j <= s.len(),
        forall|k: int| j <= k < s.len() ==> is_white_space(#[trigger] s[k]),
        j == 0 || !is_white_space(s[j - 1]),
    ensures
        trailing_ws(s) == s.len() - j,
    decreases s.len() - j,
{
    if j < s.len() {
        assert forall|k: int| j <= k < s.drop_last().len() implies is_white_space(#[trigger] s.drop_last()[k]) by {
            assert(s.drop_last()[k] == s[k]);
        }
        if j > 0 {
            assert(s.drop_last()[j - 1] == s[j - 1]);
        }
        lemma_trailing_ws(s.drop_last(), j);
    }
}

/// `s` without leading and trailing white space, as `str::trim` gives it.
pub fn trim(s: &str) -> (r: String)
    ensures
        r@ == trimmed(s@),
{
    let v = chars_of(s);
    let mut i: usize = 0;
    while i < v.len() && is_whitespace_char(v[i])
        invariant
            v@ == s@,
            i <= v@.len(),
            forall|k: int| 0 <= k < i ==> is_white_space(#[trigger] v@[k]),
        decreases v.len() - i,
    {
        i = i + 1;
    }
    proof {
        lemma_leading_ws(s@, i as int);
    }
    let mut j: usize = v.len();
    while j > i && is_whitespace_char(v[j - 1])
        invariant
            v@ == s@,
            i <= j <= v@.len(),
            forall|k: int| j <= k < v@.len() ==> is_white_space(#[trigger] v@[k]),
        decreases j,
    {
        j = j - 1;
    }
    proof {
        let t = s@.skip(i as int);
        assert forall|k: int| j - i <= k < t.len() implies is_white_space(#[trigger] t[k]) by {
            assert(t[k] == v@[k + i]);
        }
        if j > i {
            assert(t[j - i - 1] == v@[j - 1]);
        }
        lemma_trailing_ws(t, j - i);
        assert(t.take(t.len() - trailing_ws(t)) == v@.subrange(i as int, j as int));
    }
    string_of(&v, i, j)
}

/// The decimal representation of `n`.
pub fn decimal(n: u64) -> (r: String)
    ensures
        r@ == dec(n as nat),
    decreases n,
{
    let d: u64 = n % 10;
    let c: char = ((48u8 + d as u8) as char);
    if n < 10 {
        let mut r = String::new();
        push_char(&mut r, c);
        assert(r@ == seq![digit_char(n as nat)]);
        r
    } else {
        let mut r = decimal(n / 10);
        push_char(&mut r, c);
        r
    }
}

} // verus!
