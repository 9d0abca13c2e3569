//! Character-level helpers: substring search and number rendering.

use vstd::prelude::*;

verus! {

/// `needle` occurs in `hay` as a contiguous run of characters.
pub open spec fn occurs_in(hay: Seq<char>, needle: Seq<char>) -> bool {
    exists|i: int|
        0 <= i && i + needle.len() <= hay.len() && #[trigger] hay.subrange(i, i + needle.len())
            == needle
}

/// The characters of `s`, one per element.
pub fn chars_of(s: &str) -> (v: Vec<char>)
    ensures
        v@ == s@,
{
    let n = s.unicode_len();
    let mut v: Vec<char> = Vec::new();
    let mut i: usize = 0;
    while i < n
        invariant
            n == s@.len(),
            i <= n,
            v@ == s@.take(i as int),
        decreases n - i,
    {
        v.push(s.get_char(i));
        i = i + 1;
    }
    assert(s@.take(n as int) == s@);
    v
}

/// Whether two texts hold the same characters.
pub fn str_equal(a: &str, b: &str) -> (res: bool)
    ensures
        res == (a@ == b@),
{
    let x = String::from_str(a);
    let y = String::from_str(b);
    x == y
}

/// Does `needle` match the characters of `hay` starting at `start`?
fn matches_at(hay: &Vec<char>, needle: &Vec<char>, start: usize) -> (res: bool)
    requires
        start + needle@.len() <= hay@.len(),
    ensures
        res == (hay@.subrange(start as int, start + needle@.len()) == needle@),
{
    let m = needle.len();
    let n = hay.len();
    let mut j: usize = 0;
    while j < m
        invariant
            m == needle@.len(),
            n == hay@.len(),
            start + m <= hay@.len(),
            j <= m,
            forall|k: int| 0 <= k < j ==> hay@[start + k] == needle@[k],
        decreases m - j,
    {
        if hay[start + j] != needle[j] {
            assert(hay@.subrange(start as int, start + m)[j as int] != needle@[j as int]);
            return false;
        }
        j = j + 1;
    }
    assert(hay@.subrange(start as int, start + m) =~= needle@);
    true
}

/// Whether `needle` occurs in `hay`, as `str::contains` answers it.
pub fn contains(hay: &str, needle: &str) -> (res: bool)
    ensures
        res == occurs_in(hay@, needle@),
{
    let h = chars_of(hay);
    let p = chars_of(needle);
    if p.len() > h.len() {
        return false;
    }
    let last = h.len() - p.len();
    let mut i: usize = 0;
    loop
        invariant
            h@ == hay@,
            p@ == needle@,
            last == h@.len() - p@.len(),
            i <= last,
            forall|k: int| 0 <= k < i ==> #[trigger] h@.subrange(k, k + p@.len()) != p@,
        ensures
            forall|k: int| 0 <= k <= last ==> #[trigger] h@.subrange(k, k + p@.len()) != p@,
        decreases last - i,
    {
        if matches_at(&h, &p, i) {
            return true;
        }
        if i == last {
            break;
        }
        i = i + 1;
    }
    false
}

/// The digit characters, in the order of their values.
pub open spec fn digit_chars() -> Seq<char> {
    seq!['0', '1', '2', '3', '4', '5', '6', '7', '8', '9', 'a', 'b', 'c', 'd', 'e', 'f']
}

/// `n` written in decimal, without leading zeros.
pub open spec fn decimal_text(n: nat) -> Seq<char>
    decreases n,
{
    if n < 10 {
        seq![digit_chars()[n as int]]
    } else {
        decimal_text(n / 10) + seq![digit_chars()[(n % 10) as int]]
    }
}

/// `n` written in lower-case hexadecimal, without leading zeros.
pub open spec fn hex_text(n: nat) -> Seq<char>
    decreases n,
{
    if n < 16 {
        seq![digit_chars()[n as int]]
    } else {
        hex_text(n / 16) + seq![digit_chars()[(n % 16) as int]]
    }
}

/// The one-character text of the digit `d`.
fn digit_str(d: u64) -> (r: &'static str)
    requires
        d < 16,
    ensures
        r@ == seq![digit_chars()[d as int]],
{
    let all = "0123456789abcdef";
    proof {
        reveal_strlit("0123456789abcdef");
    }
    let from = d as usize;
    let r = all.substring_char(from, from + 1);
    assert(r@ =~= seq![digit_chars()[d as int]]);
    r
}

/// Appends `n` in decimal to `out`.
pub fn push_decimal(out: &mut String, n: u64)
    ensures
        final(out)@ == old(out)@ + decimal_text(n as nat),
    decreases n,
{
    if n >= 10 {
        push_decimal(out, n / 10);
    }
    out.append(digit_str(n % 10));
}

/// Appends `n` in lower-case hexadecimal to `out`.
pub fn push_hex(out: &mut String, n: u64)
    ensures
        final(out)@ == old(out)@ + hex_text(n as nat),
    decreases n,
{
    if n >= 16 {
        push_hex(out, n / 16);
    }
    out.append(digit_str(n % 16));
}

/// A character that can stand in a number written by `decimal_text` or `hex_text`.
pub open spec fn is_digit_char(c: char) -> bool {
    ('0' <= c && c <= '9') || ('a' <= c && c <= 'f')
}

proof fn lemma_digit_char(d: int)
    requires
        0 <= d < 16,
    ensures
        is_digit_char(digit_chars()[d]),
{
    if d == 0 {
        assert(digit_chars()[0] == '0');
    } else if d == 1 {
        assert(digit_chars()[1] == '1');
    } else if d == 2 {
        assert(digit_chars()[2] == '2');
    } else if d == 3 {
        assert(digit_chars()[3] == '3');
    } else if d == 4 {
        assert(digit_chars()[4] == '4');
    } else if d == 5 {
        assert(digit_chars()[5] == '5');
    } else if d == 6 {
        assert(digit_chars()[6] == '6');
    } else if d == 7 {
        assert(digit_chars()[7] == '7');
    } else if d == 8 {
        assert(digit_chars()[8] == '8');
    } else if d == 9 {
        assert(digit_chars()[9] == '9');
    } else if d == 10 {
        assert(digit_chars()[10] == 'a');
    } else if d == 11 {
        assert(digit_chars()[11] == 'b');
    } else if d == 12 {
        assert(digit_chars()[12] == 'c');
    } else if d == 13 {
        assert(digit_chars()[13] == 'd');
    } else if d == 14 {
        assert(digit_chars()[14] == 'e');
    } else if d == 15 {
        assert(digit_chars()[15] == 'f');
    }
}

/// Every character of `decimal_text(n)` is a digit.
pub proof fn lemma_decimal_digits(n: nat)
    ensures
        forall|i: int| 0 <= i < decimal_text(n).len() ==> is_digit_char(#[trigger] decimal_text(n)[i]),
    decreases n,
{
    if n < 10 {
        lemma_digit_char(n as int);
    } else {
        lemma_decimal_digits(n / 10);
        lemma_digit_char((n % 10) as int);
        let s = decimal_text(n);
        assert forall|i: int| 0 <= i < s.len() implies is_digit_char(#[trigger] s[i]) by {
            if i < decimal_text(n / 10).len() {
                assert(s[i] == decimal_text(n / 10)[i]);
            }
        }
    }
}

/// Every character of `hex_text(n)` is a digit.
pub proof fn lemma_hex_digits(n: nat)
    ensures
        forall|i: int| 0 <= i < hex_text(n).len() ==> is_digit_char(#[trigger] hex_text(n)[i]),
    decreases n,
{
    if n < 16 {
        lemma_digit_char(n as int);
    } else {
        lemma_hex_digits(n / 16);
        lemma_digit_char((n % 16) as int);
        let s = hex_text(n);
        assert forall|i: int| 0 <= i < s.len() implies is_digit_char(#[trigger] s[i]) by {
            if i < hex_text(n / 16).len() {
                assert(s[i] == hex_text(n / 16)[i]);
            }
        }
    }
}

/// No run of `needle` that starts at position `i` of `prefix` fits it.
pub open spec fn mismatch_at(prefix: Seq<char>, needle: Seq<char>, i: int) -> bool {
    exists|j: int| 0 <= j < needle.len() && i + j < prefix.len() && #[trigger] prefix[i + j] != needle[j]
}

/// With `needle` laid at position `i` of `prefix`, one of its characters from
/// position `j` on differs from the character of `prefix` under it.
pub open spec fn differs_from(prefix: Seq<char>, needle: Seq<char>, i: int, j: int) -> bool
    decreases needle.len() - j,
{
    if 0 <= j < needle.len() && i + j < prefix.len() {
        prefix[i + j] != needle[j] || differs_from(prefix, needle, i, j + 1)
    } else {
        false
    }
}

/// `needle` fits at no position of `prefix` from `i` on, not even partly at
/// its end.
pub open spec fn fits_nowhere_from(prefix: Seq<char>, needle: Seq<char>, i: int) -> bool
    decreases prefix.len() - i,
{
    if 0 <= i < prefix.len() {
        differs_from(prefix, needle, i, 0) && fits_nowhere_from(prefix, needle, i + 1)
    } else {
        true
    }
}

proof fn lemma_differs_from(prefix: Seq<char>, needle: Seq<char>, i: int, j: int)
    requires
        differs_from(prefix, needle, i, j),
    ensures
        mismatch_at(prefix, needle, i),
    decreases needle.len() - j,
{
    if prefix[i + j] != needle[j] {
        assert(prefix[i + j] != needle[j]);
    } else {
        lemma_differs_from(prefix, needle, i, j + 1);
    }
}

proof fn lemma_fits_nowhere_from(prefix: Seq<char>, needle: Seq<char>, i: int)
    requires
        0 <= i,
        fits_nowhere_from(prefix, needle, i),
    ensures
        forall|k: int| i <= k < prefix.len() ==> #[trigger] mismatch_at(prefix, needle, k),
    decreases prefix.len() - i,
{
    if i < prefix.len() {
        lemma_differs_from(prefix, needle, i, 0);
        lemma_fits_nowhere_from(prefix, needle, i + 1);
    }
}

/// A needle that starts with a non-digit and fits nowhere in `prefix`, not
/// even partly at its end, does not occur in `prefix` followed by digits.
pub proof fn lemma_absent_before_digits(prefix: Seq<char>, digits: Seq<char>, needle: Seq<char>)
    requires
        needle.len() > 0,
        !is_digit_char(needle[0]),
        forall|i: int| 0 <= i < digits.len() ==> is_digit_char(#[trigger] digits[i]),
        fits_nowhere_from(prefix, needle, 0),
    ensures
        !occurs_in(prefix + digits, needle),
{
    lemma_fits_nowhere_from(prefix, needle, 0);
    let hay = prefix + digits;
    assert forall|i: int| 0 <= i && i + needle.len() <= hay.len() implies #[trigger] hay.subrange(
        i,
        i + needle.len(),
    ) != needle by {
        if hay.subrange(i, i + needle.len()) == needle {
            if i < prefix.len() {
                assert(mismatch_at(prefix, needle, i));
                let j = choose|j: int|
                    0 <= j < needle.len() && i + j < prefix.len() && #[trigger] prefix[i + j] != needle[j];
                assert(hay.subrange(i, i + needle.len())[j] == hay[i + j]);
            } else {
                assert(hay.subrange(i, i + needle.len())[0] == hay[i]);
                assert(hay[i] == digits[i - prefix.len()]);
            }
        }
    }
}

/// Two texts of the same length differ at some position from `k` on.
pub open spec fn chars_differ_from(a: Seq<char>, b: Seq<char>, k: int) -> bool
    decreases a.len() - k,
{
    if 0 <= k < a.len() && k < b.len() {
        a[k] != b[k] || chars_differ_from(a, b, k + 1)
    } else {
        false
    }
}

/// `a` and `b` differ in length or in some character.
pub open spec fn texts_differ(a: Seq<char>, b: Seq<char>) -> bool {
    a.len() != b.len() || chars_differ_from(a, b, 0)
}

/// `t` differs from every text of `texts` from position `j` on.
pub open spec fn differs_from_all(texts: Seq<Seq<char>>, t: Seq<char>, j: int) -> bool
    decreases texts.len() - j,
{
    if 0 <= j < texts.len() {
        texts_differ(t, texts[j]) && differs_from_all(texts, t, j + 1)
    } else {
        true
    }
}

/// The texts of `texts` from position `i` on differ pairwise.
pub open spec fn pairwise_differ_from(texts: Seq<Seq<char>>, i: int) -> bool
    decreases texts.len() - i,
{
    if 0 <= i < texts.len() {
        differs_from_all(texts, texts[i], i + 1) && pairwise_differ_from(texts, i + 1)
    } else {
        true
    }
}

proof fn lemma_chars_differ_from(a: Seq<char>, b: Seq<char>, k: int)
    requires
        chars_differ_from(a, b, k),
    ensures
        a != b,
    decreases a.len() - k,
{
    if a[k] == b[k] {
        lemma_chars_differ_from(a, b, k + 1);
    }
}

proof fn lemma_differs_from_all(texts: Seq<Seq<char>>, t: Seq<char>, j: int)
    requires
        0 <= j,
        differs_from_all(texts, t, j),
    ensures
        forall|k: int| j <= k < texts.len() ==> #[trigger] texts[k] != t,
    decreases texts.len() - j,
{
    if j < texts.len() {
        if t.len() == texts[j].len() {
            lemma_chars_differ_from(t, texts[j], 0);
        }
        lemma_differs_from_all(texts, t, j + 1);
    }
}

/// Texts that pass the pairwise check from position `i` on are distinct there.
pub proof fn lemma_pairwise_differ(texts: Seq<Seq<char>>, i: int)
    requires
        0 <= i,
        pairwise_differ_from(texts, i),
    ensures
        forall|a: int, b: int| i <= a < b < texts.len() ==> #[trigger] texts[a] != #[trigger] texts[b],
    decreases texts.len() - i,
{
    if i < texts.len() {
        lemma_differs_from_all(texts, texts[i], i + 1);
        lemma_pairwise_differ(texts, i + 1);
    }
}

} // verus!
