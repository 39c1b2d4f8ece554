//! Character-level string helpers with exact specifications.
use vstd::prelude::*;
use vstd::string::{StrSliceExecFns, StringExecFns};

verus! {

/// `m` occurs in `s` at position `i`.
pub open spec fn occurs_at(s: Seq<char>, m: Seq<char>, i: int) -> bool {
    0 <= i && i + m.len() <= s.len() && s.subrange(i, i + m.len()) == m
}

/// `m` occurs somewhere in `s`.
pub open spec fn seq_contains(s: Seq<char>, m: Seq<char>) -> bool {
    exists|i: int| occurs_at(s, m, i)
}

/// Does `m` occur in `s` at character position `i`?
pub fn matches_at(s: &str, m: &str, i: usize) -> (r: bool)
    requires
        i + m@.len() <= s@.len(),
        s@.len() <= usize::MAX,
    ensures
        r == occurs_at(s@, m@, i as int),
{
    let n = m.unicode_len();
    let mut j: usize = 0;
    while j < n
        invariant
            n == m@.len(),
            i + n <= s@.len(),
            s@.len() <= usize::MAX,
            j <= n,
            forall|k: int| 0 <= k < j ==> s@[i + k] == m@[k],
        decreases n - j,
    {
        if s.get_char(i + j) != m.get_char(j) {
            assert(s@.subrange(i as int, i + n)[j as int] != m@[j as int]);
            return false;
        }
        j = j + 1;
    }
    assert(s@.subrange(i as int, i + n) =~= m@);
    true
}

/// Case-sensitive substring test.
pub fn str_contains(s: &str, m: &str) -> (r: bool)
    ensures
        r == seq_contains(s@, m@),
{
    let n = s.unicode_len();
    let k = m.unicode_len();
    if k > n {
        assert forall|i: int| !occurs_at(s@, m@, i) by {}
        return false;
    }
    if k == 0 {
        assert(s@.subrange(0, 0) =~= m@);
        assert(occurs_at(s@, m@, 0));
        return true;
    }
    let last: usize = n - k;
    let mut i: usize = 0;
    while i <= last
        invariant
            n == s@.len(),
            k == m@.len(),
            0 < k <= n,
            last == n - k,
            forall|p: int| 0 <= p < i ==> !occurs_at(s@, m@, p),
        decreases last + 1 - i,
    {
        if matches_at(s, m, i) {
            return true;
        }
        i = i + 1;
    }
    assert forall|p: int| !occurs_at(s@, m@, p) by {
        if 0 <= p < i {
        }
    }
    false
}

/// Character-wise equality of two strings.
pub fn str_eq(a: &str, b: &str) -> (r: bool)
    ensures
        r == (a@ == b@),
{
    let n = a.unicode_len();
    if n != b.unicode_len() {
        return false;
    }
    let r = matches_at(a, b, 0);
    assert(a@.subrange(0, n as int) =~= a@);
    r
}

/// Every non-overlapping occurrence of `from` in `s`, scanned from the left,
/// replaced by `to`.
pub open spec fn replace_all(s: Seq<char>, from: Seq<char>, to: Seq<char>) -> Seq<char>
    recommends
        from.len() > 0,
    decreases s.len(),
{
    if s.len() == 0 || from.len() == 0 {
        s
    } else if from.len() <= s.len() && s.subrange(0, from.len() as int) == from {
        to + replace_all(s.skip(from.len() as int), from, to)
    } else {
        seq![s[0]] + replace_all(s.skip(1), from, to)
    }
}

/// Relies on `str::replace`: all non-overlapping matches of a non-empty
/// pattern, found from the left, are replaced.
#[verifier::external_body]
pub fn replace_str(s: &str, from: &str, to: &str) -> (r: String)
    requires
        from@.len() > 0,
    ensures
        r@ == replace_all(s@, from@, to@),
{
    s.replace(from, to)
}

/// `a` followed by `b`.
pub fn concat_str(a: &str, b: &str) -> (r: String)
    ensures
        r@ == a@ + b@,
{
    let mut r = String::from_str(a);
    r.append(b);
    r
}

/// The ten decimal digits in order.
pub open spec fn digit_chars() -> Seq<char> {
    seq!['0', '1', '2', '3', '4', '5', '6', '7', '8', '9']
}

/// Decimal notation of `n`, without leading zeros.
pub open spec fn decimal(n: nat) -> Seq<char>
    decreases n,
{
    if n < 10 {
        seq![digit_chars()[n as int]]
    } else {
        decimal(n / 10) + seq![digit_chars()[(n % 10) as int]]
    }
}

/// Decimal notation of a signed integer, with a leading `-` when negative.
pub open spec fn signed_decimal(n: int) -> Seq<char> {
    if n < 0 {
        seq!['-'] + decimal((-n) as nat)
    } else {
        decimal(n as nat)
    }
}

/// Decimal notation padded with zeros on the left to at least two digits.
pub open spec fn decimal_2(n: nat) -> Seq<char> {
    if n < 10 {
        seq!['0'] + decimal(n)
    } else {
        decimal(n)
    }
}

/// The single digit `d` as a string.
pub fn digit_str(d: u64) -> (r: String)
    requires
        d < 10,
    ensures
        r@ == seq![digit_chars()[d as int]],
{
    let all = "0123456789";
    proof {
        reveal_strlit("0123456789");
    }
    let one = all.substring_char(d as usize, (d + 1) as usize);
    assert(one@ =~= seq![digit_chars()[d as int]]);
    String::from_str(one)
}

/// Decimal notation of `n`.
pub fn decimal_string(n: u64) -> (r: String)
    ensures
        r@ == decimal(n as nat),
    decreases n,
{
    if n < 10 {
        digit_str(n)
    } else {
        let head = decimal_string(n / 10);
        let last = digit_str(n % 10);
        concat_str(head.as_str(), last.as_str())
    }
}

/// Decimal notation of a signed integer.
pub fn signed_decimal_string(n: i64) -> (r: String)
    ensures
        r@ == signed_decimal(n as int),
{
    if n < 0 {
        let magnitude: u64 = ((-(n + 1)) as u64) + 1;
        let digits = decimal_string(magnitude);
        proof {
            reveal_strlit("-");
        }
        concat_str("-", digits.as_str())
    } else {
        decimal_string(n as u64)
    }
}

/// Decimal notation of `n` on at least two digits.
pub fn decimal_string_2(n: u64) -> (r: String)
    ensures
        r@ == decimal_2(n as nat),
{
    let digits = decimal_string(n);
    if n < 10 {
        proof {
            reveal_strlit("0");
        }
        concat_str("0", digits.as_str())
    } else {
        digits
    }
}

} // verus!
