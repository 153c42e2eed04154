//! Verified text utilities: string equality, byte-level substring search,
//! line counting, and decimal rendering of counters.

use vstd::prelude::*;
use vstd::string::*;

verus! {

/// Character-wise string equality.
pub fn str_eq(a: &str, b: &str) -> (r: bool)
    ensures
        r == (a@ == b@),
{
    let alen = a.unicode_len();
    let blen = b.unicode_len();
    if alen != blen {
        return false;
    }
    let mut i: usize = 0;
    while i < alen
        invariant
            alen == a@.len(),
            alen == b@.len(),
            i <= alen,
            forall|j: int| 0 <= j < i ==> a@[j] == b@[j],
        decreases alen - i,
    {
        if a.get_char(i) != b.get_char(i) {
            return false;
        }
        i += 1;
    }
    proof {
        assert(a@ =~= b@);
    }
    true
}

/// The needle occurs as a contiguous run somewhere in the haystack.
pub open spec fn spec_contains_bytes(hay: Seq<u8>, needle: Seq<u8>) -> bool {
    exists|i: int|
        0 <= i && i + needle.len() <= hay.len() && #[trigger] hay.subrange(
            i,
            i + needle.len() as int,
        ) == needle
}

/// Byte-level substring search within the window `[from, to)` of `hay`.
pub fn contains_bytes_range(hay: &[u8], from: usize, to: usize, needle: &[u8]) -> (r: bool)
    requires
        from <= to <= hay@.len(),
    ensures
        r == spec_contains_bytes(hay@.subrange(from as int, to as int), needle@),
{
    let ghost window = hay@.subrange(from as int, to as int);
    let nlen = needle.len();
    let wlen = to - from;
    if nlen > wlen {
        return false;
    }
    let mut i: usize = 0;
    while i <= wlen - nlen
        invariant
            window == hay@.subrange(from as int, to as int),
            from <= to <= hay@.len(),
            nlen == needle@.len(),
            wlen == to - from,
            nlen <= wlen,
            i <= wlen - nlen + 1,
            forall|k: int|
                0 <= k < i ==> #[trigger] window.subrange(k, k + nlen as int) != needle@,
        decreases wlen - nlen - i + 1,
    {
        let mut j: usize = 0;
        let mut matched = true;
        while j < nlen
            invariant
                window == hay@.subrange(from as int, to as int),
                from <= to <= hay@.len(),
                nlen == needle@.len(),
                wlen == to - from,
                i + nlen <= wlen,
                j <= nlen,
                matched == (forall|m: int| 0 <= m < j ==> window[i + m] == needle@[m]),
            decreases nlen - j,
        {
            if hay[from + i + j] != needle[j] {
                proof {
                    assert(window[i + j] == hay@[from + i + j]);
                }
                matched = false;
                j = nlen;
            } else {
                proof {
                    assert(window[i + j] == hay@[from + i + j]);
                }
                j += 1;
            }
        }
        if matched {
            proof {
                assert(window.subrange(i as int, i + nlen as int) =~= needle@);
            }
            return true;
        }
        proof {
            let k = choose|m: int| 0 <= m < nlen && window[i + m] != needle@[m];
            assert(window.subrange(i as int, i + nlen as int)[k] != needle@[k]);
        }
        i += 1;
    }
    proof {
        assert forall|k: int|
            0 <= k && k + needle@.len() <= window.len() implies #[trigger] window.subrange(
            k,
            k + needle@.len() as int,
        ) != needle@ by {
            assert(k < i);
        }
    }
    false
}

/// Number of occurrences of the byte `b` in `s`.
pub open spec fn spec_count_byte(s: Seq<u8>, b: u8) -> int
    decreases s.len(),
{
    if s.len() == 0 {
        0
    } else {
        spec_count_byte(s.drop_last(), b) + if s.last() == b {
            1int
        } else {
            0int
        }
    }
}

/// The number of lines of a text, as `str::lines` counts them: one per
/// newline byte, plus a final line when the text does not end in a newline.
pub open spec fn spec_line_count(s: Seq<u8>) -> int {
    if s.len() == 0 {
        0
    } else if s.last() == 10 {
        spec_count_byte(s, 10)
    } else {
        spec_count_byte(s, 10) + 1
    }
}

proof fn lemma_count_byte_le_len(s: Seq<u8>, b: u8)
    ensures
        0 <= spec_count_byte(s, b) <= s.len(),
    decreases s.len(),
{
    if s.len() > 0 {
        lemma_count_byte_le_len(s.drop_last(), b);
    }
}

/// Counts the lines of `source` exactly as `str::lines().count()` does.
pub fn line_count(source: &str) -> (r: usize)
    ensures
        r == spec_line_count(source.spec_bytes()),
{
    let bytes = source.as_bytes();
    let len = bytes.len();
    let mut count: usize = 0;
    let mut i: usize = 0;
    while i < len
        invariant
            bytes@ == source.spec_bytes(),
            len == bytes@.len(),
            i <= len,
            count == spec_count_byte(bytes@.take(i as int), 10),
            count <= i,
        decreases len - i,
    {
        proof {
            assert(bytes@.take(i + 1).drop_last() =~= bytes@.take(i as int));
            assert(bytes@.take(i + 1).last() == bytes@[i as int]);
        }
        if bytes[i] == 10 {
            count += 1;
        }
        i += 1;
    }
    proof {
        assert(bytes@.take(len as int) =~= bytes@);
    }
    if len == 0 {
        0
    } else if bytes[len - 1] == 10 {
        count
    } else {
        proof {
            lemma_count_byte_le_len(bytes@.drop_last(), 10);
            assert(spec_count_byte(bytes@, 10) <= len - 1);
        }
        count + 1
    }
}

/// The decimal digit character for a value below ten.
pub open spec fn spec_digit_char(d: int) -> char {
    if d == 0 {
        '0'
    } else if d == 1 {
        '1'
    } else if d == 2 {
        '2'
    } else if d == 3 {
        '3'
    } else if d == 4 {
        '4'
    } else if d == 5 {
        '5'
    } else if d == 6 {
        '6'
    } else if d == 7 {
        '7'
    } else if d == 8 {
        '8'
    } else {
        '9'
    }
}

/// The usual decimal rendering of a non-negative integer, most significant
/// digit first.
pub open spec fn spec_decimal(n: int) -> Seq<char>
    decreases n,
{
    if n < 0 {
        Seq::empty()
    } else if n < 10 {
        seq![spec_digit_char(n)]
    } else {
        spec_decimal(n / 10).push(spec_digit_char(n % 10))
    }
}

fn push_digit(s: &mut String, d: u64)
    requires
        d < 10,
    ensures
        final(s)@ == old(s)@.push(spec_digit_char(d as int)),
{
    if d == 0 {
        s.append("0");
        proof {
            reveal_strlit("0");
            assert(old(s)@ + "0"@ =~= old(s)@.push('0'));
        }
    } else if d == 1 {
        s.append("1");
        proof {
            reveal_strlit("1");
            assert(old(s)@ + "1"@ =~= old(s)@.push('1'));
        }
    } else if d == 2 {
        s.append("2");
        proof {
            reveal_strlit("2");
            assert(old(s)@ + "2"@ =~= old(s)@.push('2'));
        }
    } else if d == 3 {
        s.append("3");
        proof {
            reveal_strlit("3");
            assert(old(s)@ + "3"@ =~= old(s)@.push('3'));
        }
    } else if d == 4 {
        s.append("4");
        proof {
            reveal_strlit("4");
            assert(old(s)@ + "4"@ =~= old(s)@.push('4'));
        }
    } else if d == 5 {
        s.append("5");
        proof {
            reveal_strlit("5");
            assert(old(s)@ + "5"@ =~= old(s)@.push('5'));
        }
    } else if d == 6 {
        s.append("6");
        proof {
            reveal_strlit("6");
            assert(old(s)@ + "6"@ =~= old(s)@.push('6'));
        }
    } else if d == 7 {
        s.append("7");
        proof {
            reveal_strlit("7");
            assert(old(s)@ + "7"@ =~= old(s)@.push('7'));
        }
    } else if d == 8 {
        s.append("8");
        proof {
            reveal_strlit("8");
            assert(old(s)@ + "8"@ =~= old(s)@.push('8'));
        }
    } else {
        s.append("9");
        proof {
            reveal_strlit("9");
            assert(old(s)@ + "9"@ =~= old(s)@.push('9'));
        }
    }
}

/// Appends the decimal rendering of `n` to `s`.
pub fn push_decimal(s: &mut String, n: u64)
    ensures
        final(s)@ == old(s)@ + spec_decimal(n as int),
    decreases n,
{
    if n >= 10 {
        push_decimal(s, n / 10);
        push_digit(s, n % 10);
        proof {
            assert(old(s)@ + spec_decimal(n as int / 10) + seq![
                spec_digit_char(n as int % 10),
            ] =~= old(s)@ + spec_decimal(n as int));
        }
    } else {
        push_digit(s, n);
        proof {
            assert(old(s)@.push(spec_digit_char(n as int)) =~= old(s)@ + spec_decimal(n as int));
        }
    }
}

/// Whether `s` equals `lit` up to lowering of ASCII upper-case letters in
/// `s`; `lit` is expected to be already lower case.
pub open spec fn char_lower_eq(a: char, b: char) -> bool {
    a == b || (65 <= a as int <= 90 && b as int == a as int + 32)
}

/// `s` matches `lit` case-insensitively in the ASCII range.
pub open spec fn spec_eq_lower(s: Seq<char>, lit: Seq<char>) -> bool {
    s.len() == lit.len() && forall|i: int| 0 <= i < s.len() ==> char_lower_eq(s[i], lit[i])
}

/// ASCII-case-insensitive comparison of `s` against a lower-case pattern.
pub fn eq_ignore_ascii_case(s: &str, lit: &str) -> (r: bool)
    ensures
        r == spec_eq_lower(s@, lit@),
{
    let slen = s.unicode_len();
    let llen = lit.unicode_len();
    if slen != llen {
        return false;
    }
    let mut i: usize = 0;
    while i < slen
        invariant
            slen == s@.len(),
            slen == lit@.len(),
            i <= slen,
            forall|j: int| 0 <= j < i ==> char_lower_eq(s@[j], lit@[j]),
        decreases slen - i,
    {
        let a = s.get_char(i);
        let b = lit.get_char(i);
        let au = a as u32;
        let bu = b as u32;
        if !(a == b || (65 <= au && au <= 90 && bu == au + 32)) {
            return false;
        }
        i += 1;
    }
    true
}

} // verus!
