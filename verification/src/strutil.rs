//! Small verified helpers on strings and decimal rendering that the rest of
//! the crate builds on.
use vstd::prelude::*;
use vstd::string::*;

verus! {

/// Character-by-character string equality, proved against the string views.
pub fn str_eq(a: &str, b: &str) -> (r: bool)
    ensures
        r == (a@ == b@),
{
    let alen = a.unicode_len();
    let blen = b.unicode_len();
    if alen != blen {
        return false;
    }
    let mut i: usize = 0;
    while i < alen
        invariant
            i <= alen,
            alen == a@.len(),
            alen == b@.len(),
            forall|j: int| 0 <= j < i ==> a@[j] == b@[j],
        decreases alen - i,
    {
        if a.get_char(i) != b.get_char(i) {
            return false;
        }
        i += 1;
    }
    proof {
        assert(a@ =~= b@);
    }
    true
}

/// The character for one decimal digit.
pub open spec fn digit_char(d: nat) -> char
    recommends
        d < 10,
{
    if d == 0 {
        '0'
    } else if d == 1 {
        '1'
    } else if d == 2 {
        '2'
    } else if d == 3 {
        '3'
    } else if d == 4 {
        '4'
    } else if d == 5 {
        '5'
    } else if d == 6 {
        '6'
    } else if d == 7 {
        '7'
    } else if d == 8 {
        '8'
    } else {
        '9'
    }
}

/// Decimal rendering of a natural number, most significant digit first, no
/// leading zeros (a lone zero for 0).
pub open spec fn dec_seq(n: nat) -> Seq<char>
    decreases n,
{
    if n < 10 {
        seq![digit_char(n)]
    } else {
        dec_seq(n / 10).push(digit_char(n % 10))
    }
}

/// Decimal rendering of a signed number: a minus sign before the magnitude.
pub open spec fn dec_seq_signed(n: int) -> Seq<char> {
    if n < 0 {
        seq!['-'] + dec_seq((-n) as nat)
    } else {
        dec_seq(n as nat)
    }
}

fn digit_str(d: u8) -> (r: &'static str)
    requires
        d < 10,
    ensures
        r@ == seq![digit_char(d as nat)],
{
    if d == 0 {
        proof {
            reveal_strlit("0");
            assert("0"@ =~= seq![digit_char(0nat)]);
        }
        "0"
    } else if d == 1 {
        proof {
            reveal_strlit("1");
            assert("1"@ =~= seq![digit_char(1nat)]);
        }
        "1"
    } else if d == 2 {
        proof {
            reveal_strlit("2");
            assert("2"@ =~= seq![digit_char(2nat)]);
        }
        "2"
    } else if d == 3 {
        proof {
            reveal_strlit("3");
            assert("3"@ =~= seq![digit_char(3nat)]);
        }
        "3"
    } else if d == 4 {
        proof {
            reveal_strlit("4");
            assert("4"@ =~= seq![digit_char(4nat)]);
        }
        "4"
    } else if d == 5 {
        proof {
            reveal_strlit("5");
            assert("5"@ =~= seq![digit_char(5nat)]);
        }
        "5"
    } else if d == 6 {
        proof {
            reveal_strlit("6");
            assert("6"@ =~= seq![digit_char(6nat)]);
        }
        "6"
    } else if d == 7 {
        proof {
            reveal_strlit("7");
            assert("7"@ =~= seq![digit_char(7nat)]);
        }
        "7"
    } else if d == 8 {
        proof {
            reveal_strlit("8");
            assert("8"@ =~= seq![digit_char(8nat)]);
        }
        "8"
    } else {
        proof {
            reveal_strlit("9");
            assert("9"@ =~= seq![digit_char(9nat)]);
        }
        "9"
    }
}

/// Decimal rendering of a `u64`.
pub fn u64_to_string(n: u64) -> (r: String)
    ensures
        r@ == dec_seq(n as nat),
    decreases n,
{
    if n < 10 {
        let mut s = String::new();
        s.append(digit_str(n as u8));
        proof {
            assert(s@ =~= seq![digit_char(n as nat)]);
        }
        s
    } else {
        let mut s = u64_to_string(n / 10);
        s.append(digit_str((n % 10) as u8));
        proof {
            assert(s@ =~= dec_seq((n / 10) as nat).push(digit_char((n % 10) as nat)));
        }
        s
    }
}

/// Decimal rendering of a `u128`.
pub fn u128_to_string(n: u128) -> (r: String)
    ensures
        r@ == dec_seq(n as nat),
    decreases n,
{
    if n < 10 {
        let mut s = String::new();
        s.append(digit_str(n as u8));
        proof {
            assert(s@ =~= seq![digit_char(n as nat)]);
        }
        s
    } else {
        let mut s = u128_to_string(n / 10);
        s.append(digit_str((n % 10) as u8));
        proof {
            assert(s@ =~= dec_seq((n / 10) as nat).push(digit_char((n % 10) as nat)));
        }
        s
    }
}

/// Decimal rendering of an `i64`, minus sign included.
pub fn i64_to_string(n: i64) -> (r: String)
    ensures
        r@ == dec_seq_signed(n as int),
{
    if n >= 0 {
        u64_to_string(n as u64)
    } else {
        let magnitude: u64 = ((-(n + 1)) as u64) + 1;
        let mut s = String::new();
        proof {
            reveal_strlit("-");
            assert("-"@ =~= seq!['-']);
        }
        s.append("-");
        let digits = u64_to_string(magnitude);
        s.append(digits.as_str());
        proof {
            assert(s@ =~= seq!['-'] + dec_seq((-(n as int)) as nat));
        }
        s
    }
}

/// How many times `c` occurs in `s`.
pub open spec fn count_occ(s: Seq<char>, c: char) -> nat
    decreases s.len(),
{
    if s.len() == 0 {
        0
    } else {
        count_occ(s.drop_last(), c) + (if s.last() == c {
            1nat
        } else {
            0nat
        })
    }
}

/// Counts the occurrences of `c` in `s`.
pub fn count_char(s: &str, c: char) -> (r: usize)
    ensures
        r == count_occ(s@, c),
{
    let len = s.unicode_len();
    let mut i: usize = 0;
    let mut cnt: usize = 0;
    while i < len
        invariant
            i <= len,
            len == s@.len(),
            cnt <= i,
            cnt == count_occ(s@.subrange(0, i as int), c),
        decreases len - i,
    {
        let ch = s.get_char(i);
        proof {
            assert(s@.subrange(0, i + 1).drop_last() =~= s@.subrange(0, i as int));
            assert(s@.subrange(0, i + 1).last() == s@[i as int]);
        }
        if ch == c {
            cnt = cnt + 1;
        }
        i = i + 1;
    }
    proof {
        assert(s@.subrange(0, len as int) =~= s@);
    }
    cnt
}

/// `s` with every occurrence of `c` removed.
pub open spec fn without_char(s: Seq<char>, c: char) -> Seq<char>
    decreases s.len(),
{
    if s.len() == 0 {
        Seq::empty()
    } else {
        without_char(s.drop_last(), c) + (if s.last() == c {
            Seq::<char>::empty()
        } else {
            seq![s.last()]
        })
    }
}

/// Copies `s`, leaving out every occurrence of `c`.
pub fn remove_char(s: &str, c: char) -> (r: String)
    ensures
        r@ == without_char(s@, c),
{
    let len = s.unicode_len();
    let mut out = String::new();
    let mut i: usize = 0;
    while i < len
        invariant
            i <= len,
            len == s@.len(),
            out@ == without_char(s@.subrange(0, i as int), c),
        decreases len - i,
    {
        let ch = s.get_char(i);
        proof {
            assert(s@.subrange(0, i + 1).drop_last() =~= s@.subrange(0, i as int));
            assert(s@.subrange(0, i + 1).last() == s@[i as int]);
        }
        if ch != c {
            let piece = s.substring_char(i, i + 1);
            out.append(piece);
            proof {
                assert(piece@ =~= seq![s@[i as int]]);
            }
        }
        proof {
            assert(out@ =~= without_char(s@.subrange(0, i + 1), c));
        }
        i = i + 1;
    }
    proof {
        assert(s@.subrange(0, len as int) =~= s@);
    }
    out
}

/// Whether `needle` occurs in `hay` as a contiguous run.
pub open spec fn contains_sub(hay: Seq<char>, needle: Seq<char>) -> bool {
    exists|i: int|
        0 <= i && i + needle.len() <= hay.len() && #[trigger] hay.subrange(i, i + needle.len())
            == needle
}

fn match_at(hay: &str, needle: &str, i: usize) -> (r: bool)
    requires
        i + needle@.len() <= hay@.len(),
    ensures
        r == (hay@.subrange(i as int, i + needle@.len()) == needle@),
{
    let hlen = hay.unicode_len();
    let nlen = needle.unicode_len();
    let mut k: usize = 0;
    while k < nlen
        invariant
            k <= nlen,
            hlen == hay@.len(),
            nlen == needle@.len(),
            i + nlen <= hlen,
            forall|j: int| 0 <= j < k ==> hay@[i + j] == needle@[j],
        decreases nlen - k,
    {
        if hay.get_char(i + k) != needle.get_char(k) {
            proof {
                assert(hay@.subrange(i as int, i + nlen as int)[k as int] == hay@[i + k]);
            }
            return false;
        }
        k = k + 1;
    }
    proof {
        assert(hay@.subrange(i as int, i + needle@.len()) =~= needle@);
    }
    true
}

/// Searches `hay` for `needle` as a contiguous run of characters.
pub fn str_contains(hay: &str, needle: &str) -> (r: bool)
    ensures
        r == contains_sub(hay@, needle@),
{
    let hlen = hay.unicode_len();
    let nlen = needle.unicode_len();
    if nlen > hlen {
        return false;
    }
    if nlen == 0 {
        proof {
            assert(hay@.subrange(0, 0 + needle@.len() as int) =~= needle@);
            assert(contains_sub(hay@, needle@));
        }
        return true;
    }
    let mut i: usize = 0;
    while i <= hlen - nlen
        invariant
            1 <= nlen <= hlen,
            hlen == hay@.len(),
            nlen == needle@.len(),
            i <= hlen - nlen + 1,
            forall|s: int|
                0 <= s < i ==> #[trigger] hay@.subrange(s, s + needle@.len()) != needle@,
        decreases hlen - nlen - i + 1,
    {
        if match_at(hay, needle, i) {
            return true;
        }
        i = i + 1;
    }
    false
}

/// At most the first `max` characters of `s`.
pub fn truncate_chars<'a>(s: &'a str, max: usize) -> (r: &'a str)
    ensures
        r@ == s@.take(if s@.len() <= max as int {
            s@.len() as int
        } else {
            max as int
        }),
{
    let len = s.unicode_len();
    let end = if len <= max {
        len
    } else {
        max
    };
    let r = s.substring_char(0, end);
    proof {
        assert(r@ =~= s@.take(end as int));
    }
    r
}

} // verus!
