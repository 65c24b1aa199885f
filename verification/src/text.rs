//! Verified character- and byte-level helpers: string comparison, suffix
//! tests, character search, and decimal formatting. These carry the exact
//! specifications that the parser, router and response writer build on.

use vstd::prelude::*;
use vstd::string::*;

verus! {

broadcast use vstd::string::group_string_axioms;

/// `suf` is a suffix of `s`.
pub open spec fn ends_with(s: Seq<char>, suf: Seq<char>) -> bool {
    suf.len() <= s.len() && s.skip(s.len() - suf.len() as int) == suf
}

/// A suffix of a string is also a suffix of every longer suffix of it.
pub proof fn lemma_suffix_of_suffix(s: Seq<char>, a: Seq<char>, b: Seq<char>)
    requires
        ends_with(s, a),
        ends_with(s, b),
        a.len() <= b.len(),
    ensures
        ends_with(b, a),
{
    assert(b.skip(b.len() - a.len() as int) =~= a) by {
        assert forall|i: int| 0 <= i < a.len() implies b[b.len() - a.len() + i] == a[i] by {
            assert(b[b.len() - a.len() + i] == s.skip(s.len() - b.len() as int)[b.len() - a.len()
                + i]);
            assert(a[i] == s.skip(s.len() - a.len() as int)[i]);
        }
    }
}

/// A suffix pins the string's tail: a longer candidate that disagrees with
/// it at an aligned position is not a suffix.
pub proof fn lemma_suffix_excludes(s: Seq<char>, a: Seq<char>, b: Seq<char>, i: int)
    requires
        ends_with(s, a),
        a.len() <= b.len(),
        0 <= i < a.len(),
        b[b.len() - a.len() + i] != a[i],
    ensures
        !ends_with(s, b),
{
    if ends_with(s, b) {
        lemma_suffix_of_suffix(s, a, b);
        assert(b.skip(b.len() - a.len() as int)[i] == a[i]);
    }
}

/// Prepending on the left keeps every suffix.
pub proof fn lemma_ends_with_concat(prefix: Seq<char>, s: Seq<char>, suf: Seq<char>)
    requires
        ends_with(s, suf),
    ensures
        ends_with(prefix + s, suf),
{
    let t = prefix + s;
    assert(t.skip(t.len() - suf.len() as int) =~= suf) by {
        assert forall|i: int| 0 <= i < suf.len() implies t[t.len() - suf.len() + i] == suf[i] by {
            assert(t[t.len() - suf.len() + i] == s[s.len() - suf.len() + i]);
            assert(suf[i] == s.skip(s.len() - suf.len() as int)[i]);
        }
    }
}

/// Index of the first occurrence of `c` in `s` at or after `from`; -1 if none.
pub open spec fn first_index_from(s: Seq<char>, c: char, from: int) -> int
    decreases s.len() - from,
{
    if from < 0 || from >= s.len() {
        -1
    } else if s[from] == c {
        from
    } else {
        first_index_from(s, c, from + 1)
    }
}

/// Index of the last occurrence of `c` in `s`; -1 if none.
pub open spec fn last_index_of_char(s: Seq<char>, c: char) -> int
    decreases s.len(),
{
    if s.len() == 0 {
        -1
    } else if s[s.len() - 1] == c {
        s.len() - 1
    } else {
        last_index_of_char(s.drop_last(), c)
    }
}

/// The bytes of an ASCII character sequence, one byte per character.
pub open spec fn ascii_bytes(s: Seq<char>) -> Seq<u8> {
    Seq::new(s.len(), |i: int| s[i] as u8)
}

/// The ASCII digit character for a value below ten.
pub open spec fn digit_char(d: nat) -> char {
    if d == 0 { '0' }
    else if d == 1 { '1' }
    else if d == 2 { '2' }
    else if d == 3 { '3' }
    else if d == 4 { '4' }
    else if d == 5 { '5' }
    else if d == 6 { '6' }
    else if d == 7 { '7' }
    else if d == 8 { '8' }
    else { '9' }
}

/// The decimal representation of `n`, most significant digit first.
pub open spec fn dec_chars(n: nat) -> Seq<char>
    decreases n,
{
    if n < 10 {
        seq![digit_char(n)]
    } else {
        dec_chars(n / 10).push(digit_char(n % 10))
    }
}

/// The decimal representation of `n` as ASCII bytes.
pub open spec fn dec_bytes(n: nat) -> Seq<u8> {
    ascii_bytes(dec_chars(n))
}

/// Compare two string slices character by character.
pub fn str_eq(a: &str, b: &str) -> (r: bool)
    ensures
        r == (a@ == b@),
{
    let alen = a.unicode_len();
    let blen = b.unicode_len();
    if alen != blen {
        return false;
    }
    let mut i: usize = 0;
    while i < alen
        invariant
            alen == a@.len(),
            blen == b@.len(),
            alen == blen,
            i <= alen,
            forall|j: int| 0 <= j < i ==> a@[j] == b@[j],
        decreases alen - i,
    {
        if a.get_char(i) != b.get_char(i) {
            return false;
        }
        i += 1;
    }
    proof {
        assert(a@ =~= b@);
    }
    true
}

/// Does `s` end with `suffix`?
pub fn str_ends_with(s: &str, suffix: &str) -> (r: bool)
    ensures
        r == ends_with(s@, suffix@),
{
    let slen = s.unicode_len();
    let plen = suffix.unicode_len();
    if plen > slen {
        return false;
    }
    let off = slen - plen;
    let mut i: usize = 0;
    while i < plen
        invariant
            slen == s@.len(),
            plen == suffix@.len(),
            plen <= slen,
            off == slen - plen,
            i <= plen,
            forall|j: int| 0 <= j < i ==> s@[off + j] == suffix@[j],
        decreases plen - i,
    {
        if s.get_char(off + i) != suffix.get_char(i) {
            proof {
                assert(s@.skip(off as int)[i as int] != suffix@[i as int]);
            }
            return false;
        }
        i += 1;
    }
    proof {
        assert(s@.skip(off as int) =~= suffix@);
    }
    true
}

proof fn lemma_first_index_hit(s: Seq<char>, c: char, from: int, i: int)
    requires
        0 <= from <= i < s.len(),
        s[i] == c,
        forall|j: int| from <= j < i ==> s[j] != c,
    ensures
        first_index_from(s, c, from) == i,
    decreases i - from,
{
    if from < i {
        lemma_first_index_hit(s, c, from + 1, i);
    }
}

proof fn lemma_first_index_miss(s: Seq<char>, c: char, from: int)
    requires
        0 <= from,
        forall|j: int| from <= j < s.len() ==> s[j] != c,
    ensures
        first_index_from(s, c, from) == -1,
    decreases s.len() - from,
{
    if from < s.len() {
        lemma_first_index_miss(s, c, from + 1);
    }
}

/// Find the first occurrence of `c` in `s` at or after `from`.
pub fn find_char(s: &str, c: char, from: usize) -> (r: Option<usize>)
    ensures
        match r {
            Some(i) => from <= i < s@.len() && first_index_from(s@, c, from as int) == i,
            None => first_index_from(s@, c, from as int) == -1,
        },
{
    let len = s.unicode_len();
    let mut i = from;
    while i < len
        invariant
            len == s@.len(),
            from <= i,
            forall|j: int| from <= j < i ==> s@[j] != c,
        decreases len - i,
    {
        if s.get_char(i) == c {
            proof {
                lemma_first_index_hit(s@, c, from as int, i as int);
            }
            return Some(i);
        }
        i += 1;
    }
    proof {
        lemma_first_index_miss(s@, c, from as int);
    }
    None
}

proof fn lemma_last_index_hit(s: Seq<char>, c: char, i: int)
    requires
        0 <= i < s.len(),
        s[i] == c,
        forall|j: int| i < j < s.len() ==> s[j] != c,
    ensures
        last_index_of_char(s, c) == i,
    decreases s.len(),
{
    if i < s.len() - 1 {
        assert(forall|j: int| i < j < s.drop_last().len() ==> s.drop_last()[j] != c);
        lemma_last_index_hit(s.drop_last(), c, i);
    }
}

proof fn lemma_last_index_miss(s: Seq<char>, c: char)
    requires
        forall|j: int| 0 <= j < s.len() ==> s[j] != c,
    ensures
        last_index_of_char(s, c) == -1,
    decreases s.len(),
{
    if s.len() > 0 {
        assert(forall|j: int| 0 <= j < s.drop_last().len() ==> s.drop_last()[j] != c);
        lemma_last_index_miss(s.drop_last(), c);
    }
}

/// The last occurrence of a character lies inside the sequence, or is -1.
pub proof fn lemma_last_index_bounds(s: Seq<char>, c: char)
    ensures
        -1 <= last_index_of_char(s, c) < s.len(),
    decreases s.len(),
{
    if s.len() > 0 && s[s.len() - 1] != c {
        lemma_last_index_bounds(s.drop_last(), c);
    }
}

/// Find the last occurrence of `c` in `s`.
pub fn rfind_char(s: &str, c: char) -> (r: Option<usize>)
    ensures
        match r {
            Some(i) => i < s@.len() && last_index_of_char(s@, c) == i,
            None => last_index_of_char(s@, c) == -1,
        },
{
    let len = s.unicode_len();
    let mut i = len;
    while i > 0
        invariant
            len == s@.len(),
            i <= len,
            forall|j: int| i <= j < len ==> s@[j] != c,
        decreases i,
    {
        i = i - 1;
        if s.get_char(i) == c {
            proof {
                lemma_last_index_hit(s@, c, i as int);
            }
            return Some(i);
        }
    }
    proof {
        lemma_last_index_miss(s@, c);
    }
    None
}

/// Append the bytes of a slice to a vector.
pub fn push_bytes(out: &mut Vec<u8>, b: &[u8])
    ensures
        final(out)@ == old(out)@ + b@,
{
    let len = b.len();
    let mut i: usize = 0;
    while i < len
        invariant
            len == b@.len(),
            i <= len,
            out@ == old(out)@ + b@.take(i as int),
        decreases len - i,
    {
        let x = b[i];
        out.push(x);
        proof {
            assert(old(out)@ + b@.take(i as int) + seq![b@[i as int]] =~= old(out)@ + b@.take(
                i as int + 1,
            ));
        }
        i += 1;
    }
    proof {
        assert(b@.take(len as int) =~= b@);
    }
}

/// Append the bytes of an ASCII string to a vector.
pub fn push_ascii(out: &mut Vec<u8>, s: &str)
    requires
        s.is_ascii(),
    ensures
        final(out)@ == old(out)@ + ascii_bytes(s@),
{
    let b = s.as_bytes();
    proof {
        assert(b@ =~= ascii_bytes(s@));
    }
    push_bytes(out, b);
}

/// Append the decimal digits of `n` to a byte vector.
pub fn push_dec(out: &mut Vec<u8>, n: u64)
    ensures
        final(out)@ == old(out)@ + dec_bytes(n as nat),
    decreases n,
{
    if n >= 10 {
        push_dec(out, n / 10);
    }
    let d = (n % 10) as u8;
    out.push(d + 0x30);
    proof {
        assert(digit_char((n % 10) as nat) as u8 == (n % 10) as u8 + 0x30);
        if n < 10 {
            assert(old(out)@ + dec_bytes(n as nat) =~= out@);
        } else {
            assert(dec_chars(n as nat) == dec_chars(n as nat / 10).push(
                digit_char(n as nat % 10),
            ));
            assert(old(out)@ + dec_bytes(n as nat) =~= out@);
        }
    }
}

/// The single-character string for a decimal digit.
pub fn digit_str(d: u64) -> (r: &'static str)
    requires
        d < 10,
    ensures
        r@ == seq![digit_char(d as nat)],
{
    proof {
        reveal_strlit("0");
        reveal_strlit("1");
        reveal_strlit("2");
        reveal_strlit("3");
        reveal_strlit("4");
        reveal_strlit("5");
        reveal_strlit("6");
        reveal_strlit("7");
        reveal_strlit("8");
        reveal_strlit("9");
    }
    let r = if d == 0 { "0" }
    else if d == 1 { "1" }
    else if d == 2 { "2" }
    else if d == 3 { "3" }
    else if d == 4 { "4" }
    else if d == 5 { "5" }
    else if d == 6 { "6" }
    else if d == 7 { "7" }
    else if d == 8 { "8" }
    else { "9" };
    proof {
        assert(r@ =~= seq![digit_char(d as nat)]);
    }
    r
}

/// The decimal representation of `n` as a string.
pub fn dec_string(n: u64) -> (r: String)
    ensures
        r@ == dec_chars(n as nat),
    decreases n,
{
    if n < 10 {
        String::from_str(digit_str(n))
    } else {
        let mut s = dec_string(n / 10);
        s.append(digit_str(n % 10));
        proof {
            assert(dec_chars(n as nat / 10) + seq![digit_char(n as nat % 10)] =~= dec_chars(
                n as nat,
            ));
        }
        s
    }
}

} // verus!
