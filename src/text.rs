//! Small verified operations on text: substring search, prefixes and decimal numerals.
use vstd::prelude::*;

verus! {

/// Text with leading and trailing white space removed.
pub uninterp spec fn trim_of(s: Seq<char>) -> Seq<char>;

/// Relies on `str::trim` to remove leading and trailing white space.
#[verifier::external_body]
pub(crate) fn trimmed<'a>(s: &'a str) -> (r: &'a str)
    ensures
        r@ == trim_of(s@),
{
    s.trim()
}

/// `needle` occurs in `hay` starting at position `i`.
pub open spec fn occurs_at(hay: Seq<char>, needle: Seq<char>, i: int) -> bool {
    0 <= i && i + needle.len() <= hay.len() && hay.subrange(i, i + needle.len()) == needle
}

/// `needle` occurs somewhere in `hay`.
pub open spec fn occurs_in(hay: Seq<char>, needle: Seq<char>) -> bool {
    exists|i: int| occurs_at(hay, needle, i)
}

/// The text of each of a list of strings.
pub open spec fn texts(v: Seq<String>) -> Seq<Seq<char>> {
    v.map_values(|s: String| s@)
}

/// `prefix` begins `s`.
pub open spec fn begins_with(s: Seq<char>, prefix: Seq<char>) -> bool {
    prefix.len() <= s.len() && s.subrange(0, prefix.len() as int) == prefix
}

/// The character of a decimal digit.
pub open spec fn digit_char(d: nat) -> char {
    if d == 0 { '0' }
    else if d == 1 { '1' }
    else if d == 2 { '2' }
    else if d == 3 { '3' }
    else if d == 4 { '4' }
    else if d == 5 { '5' }
    else if d == 6 { '6' }
    else if d == 7 { '7' }
    else if d == 8 { '8' }
    else { '9' }
}

/// The decimal numeral of `n`, without leading zeros.
pub open spec fn decimal(n: nat) -> Seq<char>
    decreases n,
{
    if n < 10 {
        seq![digit_char(n)]
    } else {
        decimal(n / 10).push(digit_char(n % 10))
    }
}

/// The decimal numeral of `n`, padded on the left with zeros to at least `width` characters.
pub open spec fn zero_padded(n: nat, width: nat) -> Seq<char> {
    let d = decimal(n);
    if d.len() < width {
        Seq::new((width - d.len()) as nat, |_i: int| '0') + d
    } else {
        d
    }
}

/// Whether `needle` occurs at position `i` of `hay`.
fn matches_at(hay: &str, hay_len: usize, needle: &str, needle_len: usize, i: usize) -> (r: bool)
    requires
        hay_len == hay@.len(),
        needle_len == needle@.len(),
        i + needle_len <= hay_len,
    ensures
        r == occurs_at(hay@, needle@, i as int),
{
    let mut j: usize = 0;
    while j < needle_len
        invariant
            hay_len == hay@.len(),
            needle_len == needle@.len(),
            i + needle_len <= hay_len,
            j <= needle_len,
            forall|k: int| 0 <= k < j ==> hay@[i + k] == needle@[k],
        decreases needle_len - j,
    {
        if hay.get_char(i + j) != needle.get_char(j) {
            assert(hay@.subrange(i as int, i + needle_len)[j as int] != needle@[j as int]);
            return false;
        }
        j = j + 1;
    }
    assert(hay@.subrange(i as int, i + needle_len) =~= needle@);
    true
}

/// Whether `needle` occurs in `hay`.
pub fn contains(hay: &str, needle: &str) -> (r: bool)
    ensures
        r == occurs_in(hay@, needle@),
{
    let hay_len = hay.unicode_len();
    let needle_len = needle.unicode_len();
    if needle_len > hay_len {
        return false;
    }
    let last = hay_len - needle_len;
    let mut i: usize = 0;
    while i < last
        invariant
            hay_len == hay@.len(),
            needle_len == needle@.len(),
            last == hay_len - needle_len,
            i <= last,
            forall|k: int| 0 <= k < i ==> !occurs_at(hay@, needle@, k),
        decreases last - i,
    {
        if matches_at(hay, hay_len, needle, needle_len, i) {
            return true;
        }
        i = i + 1;
    }
    let r = matches_at(hay, hay_len, needle, needle_len, last);
    assert(r || forall|k: int| 0 <= k <= last ==> !occurs_at(hay@, needle@, k));
    r
}

/// Whether `s` begins with `prefix`.
pub fn starts_with(s: &str, prefix: &str) -> (r: bool)
    ensures
        r == begins_with(s@, prefix@),
{
    let s_len = s.unicode_len();
    let p_len = prefix.unicode_len();
    if p_len > s_len {
        return false;
    }
    let r = matches_at(s, s_len, prefix, p_len, 0);
    r
}

/// Whether `a` and `b` hold the same characters.
pub fn equals(a: &str, b: &str) -> (r: bool)
    ensures
        r == (a@ == b@),
{
    let a_len = a.unicode_len();
    let b_len = b.unicode_len();
    if a_len != b_len {
        return false;
    }
    let r = matches_at(a, a_len, b, b_len, 0);
    assert(a@.subrange(0, a_len as int) =~= a@);
    r
}

/// The one-character text of a decimal digit.
fn digit_text(d: u64) -> (r: &'static str)
    requires
        d < 10,
    ensures
        r@ == seq![digit_char(d as nat)],
{
    proof {
        reveal_strlit("0");
        reveal_strlit("1");
        reveal_strlit("2");
        reveal_strlit("3");
        reveal_strlit("4");
        reveal_strlit("5");
        reveal_strlit("6");
        reveal_strlit("7");
        reveal_strlit("8");
        reveal_strlit("9");
    }
    if d == 0 { "0" }
    else if d == 1 { "1" }
    else if d == 2 { "2" }
    else if d == 3 { "3" }
    else if d == 4 { "4" }
    else if d == 5 { "5" }
    else if d == 6 { "6" }
    else if d == 7 { "7" }
    else if d == 8 { "8" }
    else { "9" }
}

/// Appends the decimal numeral of `n` to `out`.
pub fn push_decimal(out: &mut String, n: u64)
    ensures
        final(out)@ == old(out)@ + decimal(n as nat),
    decreases n,
{
    if n >= 10 {
        push_decimal(out, n / 10);
    }
    out.append(digit_text(n % 10));
}

/// Appends the decimal numeral of `n` to `out`, padded with zeros to at least `width` characters.
pub fn push_zero_padded(out: &mut String, n: u64, width: usize)
    ensures
        final(out)@ == old(out)@ + zero_padded(n as nat, width as nat),
{
    let mut digits = String::new();
    push_decimal(&mut digits, n);
    let len = digits.as_str().unicode_len();
    let ghost start = out@;
    if len < width {
        let mut k: usize = 0;
        while k < width - len
            invariant
                len < width,
                k <= width - len,
                out@ == start + Seq::new(k as nat, |_i: int| '0'),
            decreases width - len - k,
        {
            proof {
                reveal_strlit("0");
            }
            out.append("0");
            k = k + 1;
            assert(out@ =~= start + Seq::new(k as nat, |_i: int| '0'));
        }
    }
    out.append(digits.as_str());
    assert(out@ =~= start + zero_padded(n as nat, width as nat));
}

} // verus!

verus! {

/// `s` with every occurrence of `pat` replaced by `rep`, scanning from the left and not
/// overlapping.
pub open spec fn replaced(s: Seq<char>, pat: Seq<char>, rep: Seq<char>) -> Seq<char>
    decreases s.len(),
{
    if s.len() == 0 || pat.len() == 0 {
        s
    } else if begins_with(s, pat) {
        rep + replaced(s.subrange(pat.len() as int, s.len() as int), pat, rep)
    } else {
        seq![s[0]] + replaced(s.subrange(1, s.len() as int), pat, rep)
    }
}

/// Replaces every occurrence of `pat` in `s` by `rep`, scanning from the left.
pub fn replace_all(s: &str, pat: &str, rep: &str) -> (r: String)
    ensures
        r@ == replaced(s@, pat@, rep@),
{
    let s_len = s.unicode_len();
    let p_len = pat.unicode_len();
    if p_len == 0 {
        return s.to_owned();
    }
    let mut out = String::new();
    let mut i: usize = 0;
    assert(s@.subrange(0, s_len as int) =~= s@);
    assert(out@ + replaced(s@, pat@, rep@) =~= replaced(s@, pat@, rep@));
    while i < s_len
        invariant
            s_len == s@.len(),
            p_len == pat@.len(),
            p_len > 0,
            i <= s_len,
            out@ + replaced(s@.subrange(i as int, s_len as int), pat@, rep@) == replaced(s@, pat@, rep@),
        decreases s_len - i,
    {
        let ghost rest = s@.subrange(i as int, s_len as int);
        if p_len <= s_len - i && matches_at(s, s_len, pat, p_len, i) {
            assert(rest.subrange(0, p_len as int) =~= s@.subrange(i as int, i + p_len));
            assert(rest.subrange(p_len as int, rest.len() as int) =~= s@.subrange(i + p_len, s_len as int));
            out.append(rep);
            i = i + p_len;
        } else {
            assert(!begins_with(rest, pat@)) by {
                if begins_with(rest, pat@) {
                    assert(rest.subrange(0, p_len as int) =~= s@.subrange(i as int, i + p_len));
                }
            }
            assert(rest.subrange(1, rest.len() as int) =~= s@.subrange(i + 1, s_len as int));
            out.append(s.substring_char(i, i + 1));
            assert(s@.subrange(i as int, i + 1) =~= seq![rest[0]]);
            i = i + 1;
        }
        assert(out@ + replaced(s@.subrange(i as int, s_len as int), pat@, rep@) == replaced(s@, pat@, rep@));
    }
    assert(s@.subrange(s_len as int, s_len as int) =~= Seq::<char>::empty());
    out
}

} // verus!
