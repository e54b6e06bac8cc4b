//! Text helpers over the character view of strings: decimal rendering,
//! decimal parsing with the rules of `u16`'s `FromStr`, prefix and
//! substring tests, and prefix stripping.
use vstd::prelude::*;

verus! {

/// The character of a decimal digit.
pub open spec fn digit_char(d: nat) -> char {
    if d == 0 {
        '0'
    } else if d == 1 {
        '1'
    } else if d == 2 {
        '2'
    } else if d == 3 {
        '3'
    } else if d == 4 {
        '4'
    } else if d == 5 {
        '5'
    } else if d == 6 {
        '6'
    } else if d == 7 {
        '7'
    } else if d == 8 {
        '8'
    } else {
        '9'
    }
}

/// The value of a decimal digit character, if it is one.
pub open spec fn digit_value(c: char) -> Option<nat> {
    if c == '0' {
        Some(0)
    } else if c == '1' {
        Some(1)
    } else if c == '2' {
        Some(2)
    } else if c == '3' {
        Some(3)
    } else if c == '4' {
        Some(4)
    } else if c == '5' {
        Some(5)
    } else if c == '6' {
        Some(6)
    } else if c == '7' {
        Some(7)
    } else if c == '8' {
        Some(8)
    } else if c == '9' {
        Some(9)
    } else {
        None
    }
}

/// The decimal rendering of a natural number, without sign or leading zeros.
pub open spec fn dec(n: nat) -> Seq<char>
    decreases n,
{
    if n < 10 {
        seq![digit_char(n)]
    } else {
        dec(n / 10).push(digit_char(n % 10))
    }
}

/// The value of a sequence of decimal digits (0 for the empty sequence),
/// or `None` where some character is not a digit.
pub open spec fn digits_value(s: Seq<char>) -> Option<nat>
    decreases s.len(),
{
    if s.len() == 0 {
        Some(0)
    } else {
        match (digits_value(s.drop_last()), digit_value(s.last())) {
            (Some(v), Some(d)) => Some(v * 10 + d),
            _ => None,
        }
    }
}

/// What parsing `s` as a `u16` gives: an optional `+`, then at least one
/// decimal digit, and a value that fits in 16 bits.
pub open spec fn parse_u16_spec(s: Seq<char>) -> Option<u16> {
    let body = if s.len() > 0 && s[0] == '+' {
        s.drop_first()
    } else {
        s
    };
    if body.len() == 0 {
        None
    } else {
        match digits_value(body) {
            Some(v) => if v <= 65535 {
                Some(v as u16)
            } else {
                None
            },
            None => None,
        }
    }
}

/// `p` is a prefix of `s`.
pub open spec fn has_prefix(s: Seq<char>, p: Seq<char>) -> bool {
    p.len() <= s.len() && s.subrange(0, p.len() as int) == p
}

/// `p` occurs in `s` at position `i`.
pub open spec fn occurs_at(s: Seq<char>, p: Seq<char>, i: int) -> bool {
    0 <= i && i + p.len() <= s.len() && s.subrange(i, i + p.len()) == p
}

/// `p` occurs somewhere in `s` (the empty pattern occurs in every string).
pub open spec fn has_substring(s: Seq<char>, p: Seq<char>) -> bool {
    exists|i: int| occurs_at(s, p, i)
}

/// `s` with every leading repetition of a non-empty `p` removed.
pub open spec fn strip_prefixes(s: Seq<char>, p: Seq<char>) -> Seq<char>
    decreases s.len(),
{
    if p.len() > 0 && has_prefix(s, p) {
        strip_prefixes(s.skip(p.len() as int), p)
    } else {
        s
    }
}

pub proof fn lemma_digit_roundtrip(d: nat)
    requires
        d < 10,
    ensures
        digit_value(digit_char(d)) == Some(d),
{
}

pub proof fn lemma_dec_nonempty_digits(n: nat)
    ensures
        dec(n).len() >= 1,
        forall|i: int| 0 <= i < dec(n).len() ==> digit_value(#[trigger] dec(n)[i]) is Some,
    decreases n,
{
    if n >= 10 {
        lemma_dec_nonempty_digits(n / 10);
    }
}

/// Reading back a decimal rendering gives the number rendered.
pub proof fn lemma_digits_value_dec(n: nat)
    ensures
        digits_value(dec(n)) == Some(n),
    decreases n,
{
    if n < 10 {
        let s = dec(n);
        assert(s.drop_last() =~= Seq::<char>::empty());
        assert(digits_value(s.drop_last()) == Some(0nat));
        lemma_digit_roundtrip(n);
    } else {
        lemma_digits_value_dec(n / 10);
        let s = dec(n);
        assert(s.drop_last() =~= dec(n / 10));
        lemma_digit_roundtrip(n % 10);
        assert((n / 10) * 10 + n % 10 == n);
    }
}

/// Parsing the decimal rendering of a 16-bit number gives the number back.
pub proof fn lemma_parse_u16_dec(n: u16)
    ensures
        parse_u16_spec(dec(n as nat)) == Some(n),
{
    lemma_digits_value_dec(n as nat);
    lemma_dec_nonempty_digits(n as nat);
    assert(digit_value(dec(n as nat)[0]) is Some);
}

/// A digit prefix never has a larger value than the digit string it starts.
pub proof fn lemma_digits_value_prefix(s: Seq<char>, i: int)
    requires
        0 <= i <= s.len(),
        digits_value(s) is Some,
    ensures
        digits_value(s.take(i)) is Some,
        digits_value(s.take(i))->0 <= digits_value(s)->0,
    decreases s.len(),
{
    if i == s.len() {
        assert(s.take(i) =~= s);
    } else {
        assert(s.drop_last().take(i) =~= s.take(i));
        lemma_digits_value_prefix(s.drop_last(), i);
    }
}

/// The exec rendering of one digit.
fn push_digit(s: &mut String, d: u64)
    requires
        d < 10,
    ensures
        final(s)@ == old(s)@.push(digit_char(d as nat)),
{
    proof {
        reveal_strlit("0");
        reveal_strlit("1");
        reveal_strlit("2");
        reveal_strlit("3");
        reveal_strlit("4");
        reveal_strlit("5");
        reveal_strlit("6");
        reveal_strlit("7");
        reveal_strlit("8");
        reveal_strlit("9");
    }
    let ghost before = s@;
    if d == 0 {
        s.append("0");
    } else if d == 1 {
        s.append("1");
    } else if d == 2 {
        s.append("2");
    } else if d == 3 {
        s.append("3");
    } else if d == 4 {
        s.append("4");
    } else if d == 5 {
        s.append("5");
    } else if d == 6 {
        s.append("6");
    } else if d == 7 {
        s.append("7");
    } else if d == 8 {
        s.append("8");
    } else {
        s.append("9");
    }
    assert(s@ =~= before.push(digit_char(d as nat)));
}

/// Appends the decimal rendering of `n` to `s`.
pub fn append_decimal(s: &mut String, n: u64)
    ensures
        final(s)@ == old(s)@ + dec(n as nat),
    decreases n,
{
    if n < 10 {
        push_digit(s, n);
        assert(old(s)@.push(digit_char(n as nat)) =~= old(s)@ + dec(n as nat));
    } else {
        append_decimal(s, n / 10);
        push_digit(s, n % 10);
        assert(old(s)@ + dec(n as nat / 10) + seq![digit_char(n as nat % 10)] =~= old(s)@ + dec(
            n as nat,
        ));
    }
}

/// The decimal rendering of `n` as a new string.
pub fn decimal(n: u64) -> (s: String)
    ensures
        s@ == dec(n as nat),
{
    let mut s = String::new();
    append_decimal(&mut s, n);
    assert(Seq::<char>::empty() + dec(n as nat) =~= dec(n as nat));
    s
}

/// Whether `p` occurs in `s` at character position `i`.
pub fn matches_at(s: &str, p: &str, i: usize) -> (r: bool)
    ensures
        r == occurs_at(s@, p@, i as int),
{
    let slen: usize = s.unicode_len();
    let plen: usize = p.unicode_len();
    if i > slen || plen > slen - i {
        return false;
    }
    let mut k: usize = 0;
    while k < plen
        invariant
            slen == s@.len(),
            plen == p@.len(),
            i + plen <= slen,
            k <= plen,
            forall|j: int| 0 <= j < k ==> s@[i + j] == p@[j],
        decreases plen - k,
    {
        if s.get_char(i + k) != p.get_char(k) {
            assert(s@.subrange(i as int, i + plen)[k as int] != p@[k as int]);
            return false;
        }
        k += 1;
    }
    assert(s@.subrange(i as int, i + plen) =~= p@);
    true
}

/// Whether two strings are equal.
pub fn same_text(a: &str, b: &str) -> (r: bool)
    ensures
        r == (a@ == b@),
{
    let alen: usize = a.unicode_len();
    let blen: usize = b.unicode_len();
    if alen != blen {
        return false;
    }
    let r = matches_at(a, b, 0);
    assert(r ==> a@.subrange(0, blen as int) =~= a@);
    assert(a@ == b@ ==> a@.subrange(0, blen as int) =~= b@);
    r
}

/// Whether `s` starts with `p`.
pub fn starts_with(s: &str, p: &str) -> (r: bool)
    ensures
        r == has_prefix(s@, p@),
{
    matches_at(s, p, 0)
}

/// Whether `p` occurs anywhere in `s`.
pub fn contains(s: &str, p: &str) -> (r: bool)
    ensures
        r == has_substring(s@, p@),
{
    let slen: usize = s.unicode_len();
    let plen: usize = p.unicode_len();
    if plen > slen {
        assert forall|i: int| !occurs_at(s@, p@, i) by {}
        return false;
    }
    let mut i: usize = 0;
    loop
        invariant
            slen == s@.len(),
            plen == p@.len(),
            plen <= slen,
            i <= slen - plen,
            forall|j: int| 0 <= j < i ==> !occurs_at(s@, p@, j),
        ensures
            forall|j: int| 0 <= j <= slen - plen ==> !occurs_at(s@, p@, j),
        decreases slen - plen - i,
    {
        if matches_at(s, p, i) {
            return true;
        }
        if i == slen - plen {
            break;
        }
        i += 1;
    }
    assert forall|j: int| !occurs_at(s@, p@, j) by {
        if 0 <= j <= slen - plen {
        }
    }
    false
}

/// `s` with every leading repetition of `p` removed (`s` itself for an empty `p`).
pub fn strip_repeated_prefix<'a>(s: &'a str, p: &str) -> (r: &'a str)
    ensures
        r@ == strip_prefixes(s@, p@),
{
    let slen: usize = s.unicode_len();
    let plen: usize = p.unicode_len();
    let mut pos: usize = 0;
    if plen == 0 {
        assert(s@.skip(0) =~= s@);
        return s.substring_char(0, slen);
    }
    assert(s@.skip(0) =~= s@);
    while matches_at(s, p, pos)
        invariant
            slen == s@.len(),
            plen == p@.len(),
            plen > 0,
            pos <= slen,
            strip_prefixes(s@, p@) == strip_prefixes(s@.skip(pos as int), p@),
        decreases slen - pos,
    {
        assert(s@.skip(pos as int).subrange(0, plen as int) =~= s@.subrange(
            pos as int,
            pos + plen,
        ));
        assert(s@.skip(pos as int).skip(plen as int) =~= s@.skip(pos + plen));
        pos = pos + plen;
    }
    assert(s@.skip(pos as int).subrange(0, plen as int) =~= s@.subrange(pos as int, pos + plen)
        || plen > s@.skip(pos as int).len());
    let r = s.substring_char(pos, slen);
    assert(r@ =~= s@.skip(pos as int));
    r
}

/// Parses `s` as a `u16` the way `u16`'s `FromStr` does.
pub fn parse_u16(s: &str) -> (r: Option<u16>)
    ensures
        r == parse_u16_spec(s@),
{
    let slen: usize = s.unicode_len();
    let mut start: usize = 0;
    if slen > 0 && s.get_char(0) == '+' {
        start = 1;
    }
    let ghost body = if s@.len() > 0 && s@[0] == '+' {
        s@.drop_first()
    } else {
        s@
    };
    assert(body =~= s@.skip(start as int));
    if start == slen {
        return None;
    }
    let mut acc: u32 = 0;
    let mut i: usize = start;
    while i < slen
        invariant
            slen == s@.len(),
            start <= i <= slen,
            body =~= s@.skip(start as int),
            body == (if s@.len() > 0 && s@[0] == '+' {
                s@.drop_first()
            } else {
                s@
            }),
            acc <= 65535,
            digits_value(body.take(i - start)) == Some(acc as nat),
        decreases slen - i,
    {
        let c: char = s.get_char(i);
        let d: u32 = if c == '0' {
            0
        } else if c == '1' {
            1
        } else if c == '2' {
            2
        } else if c == '3' {
            3
        } else if c == '4' {
            4
        } else if c == '5' {
            5
        } else if c == '6' {
            6
        } else if c == '7' {
            7
        } else if c == '8' {
            8
        } else if c == '9' {
            9
        } else {
            proof {
                assert(digit_value(c) is None);
                assert(body.take(i - start + 1).drop_last() =~= body.take(i - start));
                assert(body.take(i - start + 1).last() == c);
                assert(digits_value(body.take(i - start + 1)) is None);
                if digits_value(body) is Some {
                    lemma_digits_value_prefix(body, i - start + 1);
                }
                assert(digits_value(body) is None);
                assert(body.len() > 0);
            }
            return None;
        };
        proof {
            assert(body.take(i - start + 1).drop_last() =~= body.take(i - start));
            assert(body.take(i - start + 1).last() == c);
            assert(digit_value(c) == Some(d as nat));
        }
        let next: u32 = acc * 10 + d;
        assert(digits_value(body.take(i - start + 1)) == Some(next as nat));
        if next > 65535 {
            proof {
                if digits_value(body) is Some {
                    lemma_digits_value_prefix(body, i - start + 1);
                    assert(digits_value(body)->0 > 65535);
                }
                assert(body.len() > 0);
            }
            return None;
        }
        acc = next;
        i += 1;
    }
    assert(body.take(slen - start) =~= body);
    Some(acc as u16)
}

/// Name for what `str::to_lowercase` gives for a string (Unicode lower case,
/// character by character, with the final-sigma rule).
pub uninterp spec fn lowercase_of(s: Seq<char>) -> Seq<char>;

/// Calls `str::to_lowercase`. Claims only that the result is the named
/// lower-case form of `s`: the Unicode case tables are not restated.
#[verifier::external_body]
pub(crate) fn to_lowercase(s: &str) -> (r: String)
    ensures
        r@ == lowercase_of(s@),
{
    s.to_lowercase()
}

/// The Unicode white space characters (the `White_Space` property), which
/// `char::is_whitespace` accepts.
pub open spec fn white_space(c: char) -> bool {
    c == ' ' || ('\t' <= c && c <= '\r') || c == '\u{85}' || c == '\u{A0}' || c == '\u{1680}'
        || ('\u{2000}' <= c && c <= '\u{200A}') || c == '\u{2028}' || c == '\u{2029}' || c
        == '\u{202F}' || c == '\u{205F}' || c == '\u{3000}'
}

/// `s` without its leading white space.
pub open spec fn trim_front(s: Seq<char>) -> Seq<char>
    decreases s.len(),
{
    if s.len() > 0 && white_space(s[0]) {
        trim_front(s.drop_first())
    } else {
        s
    }
}

/// `s` without its trailing white space.
pub open spec fn trim_back(s: Seq<char>) -> Seq<char>
    decreases s.len(),
{
    if s.len() > 0 && white_space(s.last()) {
        trim_back(s.drop_last())
    } else {
        s
    }
}

/// `s` without leading and trailing white space, as `str::trim` gives it.
pub open spec fn trimmed(s: Seq<char>) -> Seq<char> {
    trim_back(trim_front(s))
}

/// Whether a character is Unicode white space.
pub fn is_white_space(c: char) -> (r: bool)
    ensures
        r == white_space(c),
{
    c == ' ' || ('\t' <= c && c <= '\r') || c == '\u{85}' || c == '\u{A0}' || c == '\u{1680}'
        || ('\u{2000}' <= c && c <= '\u{200A}') || c == '\u{2028}' || c == '\u{2029}' || c
        == '\u{202F}' || c == '\u{205F}' || c == '\u{3000}'
}

/// `s` without leading and trailing white space.
pub fn trim(s: &str) -> (r: &str)
    ensures
        r@ == trimmed(s@),
{
    let len: usize = s.unicode_len();
    let mut i: usize = 0;
    assert(s@.skip(0) =~= s@);
    while i < len && is_white_space(s.get_char(i))
        invariant
            len == s@.len(),
            i <= len,
            trim_front(s@) == trim_front(s@.skip(i as int)),
        decreases len - i,
    {
        assert(s@.skip(i as int).drop_first() =~= s@.skip(i + 1));
        assert(s@.skip(i as int)[0] == s@[i as int]);
        i += 1;
    }
    if i == len {
        assert(s@.skip(i as int) =~= Seq::<char>::empty());
    } else {
        assert(s@.skip(i as int)[0] == s@[i as int]);
    }
    assert(trim_front(s@) == s@.skip(i as int));
    assert(s@.skip(i as int) =~= s@.subrange(i as int, len as int));
    let mut j: usize = len;
    while j > i && is_white_space(s.get_char(j - 1))
        invariant
            len == s@.len(),
            i <= j <= len,
            trimmed(s@) == trim_back(s@.subrange(i as int, j as int)),
        decreases j - i,
    {
        assert(s@.subrange(i as int, j as int).drop_last() =~= s@.subrange(i as int, j - 1));
        assert(s@.subrange(i as int, j as int).last() == s@[j - 1]);
        j -= 1;
    }
    if j > i {
        assert(s@.subrange(i as int, j as int).last() == s@[j - 1]);
    }
    let r = s.substring_char(i, j);
    r
}


/// Leading white space is dropped up to the first other character.
pub proof fn lemma_trim_front_cut(s: Seq<char>) -> (i: int)
    ensures
        0 <= i <= s.len(),
        trim_front(s) == s.skip(i),
        forall|k: int| 0 <= k < i ==> white_space(#[trigger] s[k]),
        i < s.len() ==> !white_space(s[i]),
    decreases s.len(),
{
    if s.len() > 0 && white_space(s[0]) {
        let i0 = lemma_trim_front_cut(s.drop_first());
        assert(s.drop_first().skip(i0) =~= s.skip(i0 + 1));
        assert forall|k: int| 0 <= k < i0 + 1 implies white_space(#[trigger] s[k]) by {
            if k > 0 {
                assert(s[k] == s.drop_first()[k - 1]);
            }
        }
        i0 + 1
    } else {
        assert(s.skip(0) =~= s);
        0
    }
}

/// Trailing white space is dropped back to the last other character.
pub proof fn lemma_trim_back_cut(s: Seq<char>) -> (j: int)
    ensures
        0 <= j <= s.len(),
        trim_back(s) == s.take(j),
        forall|k: int| j <= k < s.len() ==> white_space(#[trigger] s[k]),
        j > 0 ==> !white_space(s[j - 1]),
    decreases s.len(),
{
    if s.len() > 0 && white_space(s.last()) {
        let j0 = lemma_trim_back_cut(s.drop_last());
        assert(s.drop_last().take(j0) =~= s.take(j0));
        assert forall|k: int| j0 <= k < s.len() implies white_space(#[trigger] s[k]) by {
            if k < s.len() - 1 {
                assert(s[k] == s.drop_last()[k]);
            }
        }
        j0
    } else {
        assert(s.take(s.len() as int) =~= s);
        s.len() as int
    }
}

/// Trimming keeps the stretch of `s` from its first to its last character
/// that is not white space, unchanged, and drops only white space around
/// it (everything, when `s` is all white space).
pub proof fn lemma_trim_keeps_middle(s: Seq<char>)
    ensures
        exists|i: int, j: int|
            0 <= i <= j <= s.len() && trimmed(s) == s.subrange(i, j) && (forall|k: int|
                0 <= k < i ==> white_space(#[trigger] s[k])) && (forall|k: int|
                j <= k < s.len() ==> white_space(#[trigger] s[k])) && (i < j ==> !white_space(
                s[i],
            ) && !white_space(s[j - 1])),
{
    let i = lemma_trim_front_cut(s);
    let t = s.skip(i);
    let j0 = lemma_trim_back_cut(t);
    assert(t.take(j0) =~= s.subrange(i, i + j0));
    assert forall|k: int| i + j0 <= k < s.len() implies white_space(#[trigger] s[k]) by {
        assert(s[k] == t[k - i]);
    }
    if j0 > 0 {
        assert(s[i + j0 - 1] == t[j0 - 1]);
        assert(s[i] == t[0]);
        if i == s.len() {
        }
    }
    assert(trimmed(s) == s.subrange(i, i + j0));
}

} // verus!
