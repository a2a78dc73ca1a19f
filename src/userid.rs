//! The session userid `"<username>:<session_id>"`: decimal text of a signed
//! 64-bit integer, its parser, and the round trip between the two.

use crate::error::DBError;
use crate::text::{push_char, push_str};
use vstd::prelude::*;

verus! {

/// Is `c` one of the ASCII digits `0`..`9`?
pub open spec fn is_digit(c: char) -> bool {
    '0' <= c && c <= '9'
}

/// Numeric value of an ASCII digit.
pub open spec fn digit_value(c: char) -> int {
    c as int - '0' as int
}

/// The ASCII digit for `d` in `0..10`.
pub open spec fn digit_char(d: nat) -> char {
    ((d + '0' as nat) as u32) as char
}

/// Every character of `s` is an ASCII digit.
pub open spec fn all_digits(s: Seq<char>) -> bool {
    forall|i: int| 0 <= i < s.len() ==> is_digit(#[trigger] s[i])
}

/// The number written by a sequence of digits, most significant first.
pub open spec fn digits_value(s: Seq<char>) -> int
    decreases s.len(),
{
    if s.len() == 0 {
        0
    } else {
        digits_value(s.drop_last()) * 10 + digit_value(s.last())
    }
}

/// Decimal text of a natural number, without leading zeros.
pub open spec fn decimal(n: nat) -> Seq<char>
    decreases n,
{
    if n < 10 {
        seq![digit_char(n)]
    } else {
        decimal(n / 10).push(digit_char(n % 10))
    }
}

/// Decimal text of a signed integer: a `-` before the digits of a negative one.
pub open spec fn format_int(n: int) -> Seq<char> {
    if n < 0 {
        seq!['-'] + decimal((-n) as nat)
    } else {
        decimal(n as nat)
    }
}

/// The integer that `s` writes: an optional `+` or `-`, then one or more digits.
pub open spec fn parse_int(s: Seq<char>) -> Option<int> {
    if s.len() > 0 && (s[0] == '-' || s[0] == '+') {
        let d = s.drop_first();
        if d.len() > 0 && all_digits(d) {
            Some(if s[0] == '-' { -digits_value(d) } else { digits_value(d) })
        } else {
            None
        }
    } else if s.len() > 0 && all_digits(s) {
        Some(digits_value(s))
    } else {
        None
    }
}

/// The `i64` that `s` writes, if it writes one in range.
pub open spec fn parse_i64(s: Seq<char>) -> Option<i64> {
    match parse_int(s) {
        Some(v) => if i64::MIN <= v <= i64::MAX {
            Some(v as i64)
        } else {
            None
        },
        None => None,
    }
}

/// Index of the first `c` in `s` at or after `i`, or `s.len()` if there is none.
pub open spec fn first_of(s: Seq<char>, c: char, i: int) -> int
    decreases s.len() - i,
{
    if i >= s.len() {
        s.len() as int
    } else if s[i] == c {
        i
    } else {
        first_of(s, c, i + 1)
    }
}

/// The userid of a user and a session generation.
pub open spec fn userid_of(username: Seq<char>, session_id: i64) -> Seq<char> {
    username + seq![':'] + format_int(session_id as int)
}

/// The username part of a userid: everything before its first `:`.
pub open spec fn userid_name(s: Seq<char>) -> Seq<char> {
    s.subrange(0, first_of(s, ':', 0))
}

/// The session part of a userid: the integer between its first `:` and the
/// next `:` or the end; none where there is no `:` or no integer there.
pub open spec fn userid_session(s: Seq<char>) -> Option<i64> {
    let p = first_of(s, ':', 0);
    if p < s.len() {
        parse_i64(s.subrange(p + 1, first_of(s, ':', p + 1)))
    } else {
        None
    }
}

proof fn lemma_first_of_bounds(s: Seq<char>, c: char, i: int)
    requires
        0 <= i,
    ensures
        i <= first_of(s, c, i) || i > s.len(),
        first_of(s, c, i) <= s.len(),
        first_of(s, c, i) < s.len() ==> s[first_of(s, c, i)] == c,
        forall|j: int| i <= j < first_of(s, c, i) ==> s[j] != c,
    decreases s.len() - i,
{
    if i < s.len() && s[i] != c {
        lemma_first_of_bounds(s, c, i + 1);
    }
}

proof fn lemma_first_of_none(s: Seq<char>, c: char, i: int)
    requires
        0 <= i <= s.len(),
        forall|j: int| i <= j < s.len() ==> s[j] != c,
    ensures
        first_of(s, c, i) == s.len(),
    decreases s.len() - i,
{
    if i < s.len() {
        lemma_first_of_none(s, c, i + 1);
    }
}

proof fn lemma_digit_char(d: nat)
    requires
        d < 10,
    ensures
        is_digit(digit_char(d)),
        digit_value(digit_char(d)) == d,
{
    assert(digit_char(d) as int == d + 48);
}

proof fn lemma_decimal(n: nat)
    ensures
        decimal(n).len() > 0,
        all_digits(decimal(n)),
        digits_value(decimal(n)) == n,
    decreases n,
{
    lemma_digit_char(n % 10);
    if n >= 10 {
        lemma_decimal(n / 10);
        let d = decimal(n);
        assert(d.drop_last() == decimal(n / 10));
        assert(d.last() == digit_char(n % 10));
        assert(n == (n / 10) * 10 + n % 10) by (nonlinear_arith);
        assert(digits_value(d) == digits_value(decimal(n / 10)) * 10 + digit_value(d.last()));
    } else {
        let d = decimal(n);
        assert(d.drop_last() =~= Seq::<char>::empty());
        assert(digits_value(d.drop_last()) == 0);
        assert(n % 10 == n);
    }
}

/// Decimal text of an integer reads back as the same integer.
pub proof fn lemma_format_parse(n: i64)
    ensures
        parse_i64(format_int(n as int)) == Some(n),
        forall|j: int| 0 <= j < format_int(n as int).len() ==> #[trigger] format_int(n as int)[j] != ':',
{
    let f = format_int(n as int);
    if n < 0 {
        lemma_decimal((-n) as nat);
        assert(f.drop_first() == decimal((-n) as nat));
        assert(f[0] == '-');
    } else {
        lemma_decimal(n as nat);
        let d = decimal(n as nat);
        assert(is_digit(d[0]));
    }
}

/// A userid built from a username without `:` and a session id unpacks to
/// that same username and session id.
pub proof fn lemma_userid_round_trip(username: Seq<char>, session_id: i64)
    requires
        forall|j: int| 0 <= j < username.len() ==> #[trigger] username[j] != ':',
    ensures
        userid_name(userid_of(username, session_id)) == username,
        userid_session(userid_of(username, session_id)) == Some(session_id),
{
    let s = userid_of(username, session_id);
    let f = format_int(session_id as int);
    lemma_format_parse(session_id);
    let p = username.len() as int;
    assert(s[p] == ':');
    assert forall|j: int| 0 <= j < p implies s[j] != ':' by {
        assert(s[j] == username[j]);
    }
    lemma_first_of_bounds(s, ':', 0);
    if first_of(s, ':', 0) < p {
        let k = first_of(s, ':', 0);
        assert(s[k] == username[k]);
    }
    assert(first_of(s, ':', 0) == p);
    assert forall|j: int| p + 1 <= j < s.len() implies s[j] != ':' by {
        assert(s[j] == f[j - p - 1]);
    }
    lemma_first_of_none(s, ':', p + 1);
    assert(s.subrange(p + 1, s.len() as int) == f);
    assert(s.subrange(0, p) == username);
}

/// Appends the decimal text of `n`.
fn push_decimal(s: &mut String, n: u64)
    ensures
        final(s)@ == old(s)@ + decimal(n as nat),
    decreases n,
{
    if n >= 10 {
        push_decimal(s, n / 10);
    }
    let d = (n % 10) as u8;
    let c = (d + 48u8) as char;
    proof {
        assert(c == digit_char((n % 10) as nat));
    }
    push_char(s, c);
}

/// Decimal text of a signed 64-bit integer.
pub fn format_i64(n: i64) -> (r: String)
    ensures
        r@ == format_int(n as int),
{
    let mut s = String::new();
    if n < 0 {
        push_char(&mut s, '-');
        let m: u64 = (0i128 - n as i128) as u64;
        push_decimal(&mut s, m);
        assert(s@ == seq!['-'] + decimal((-n) as nat));
    } else {
        push_decimal(&mut s, n as u64);
        assert(s@ == decimal(n as nat));
    }
    s
}

/// The userid `"<username>:<session_id>"`.
pub fn make_userid(username: &str, session_id: i64) -> (r: String)
    ensures
        r@ == userid_of(username@, session_id),
{
    let mut s = username.to_string();
    push_char(&mut s, ':');
    let n = format_i64(session_id);
    push_str(&mut s, n.as_str());
    s
}

/// Index of the first `c` in `s` at or after `start`, or the length of `s`.
pub fn find_char(s: &str, c: char, start: usize) -> (r: usize)
    requires
        start <= s@.len(),
    ensures
        r == first_of(s@, c, start as int),
{
    let n = s.unicode_len();
    let mut i = start;
    while i < n
        invariant
            start <= i <= n,
            n == s@.len(),
            first_of(s@, c, start as int) == first_of(s@, c, i as int),
        decreases n - i,
    {
        if s.get_char(i) == c {
            return i;
        }
        i += 1;
    }
    i
}

/// Bound beyond which no digit sequence can write an `i64`.
const I64_MAGNITUDE: u128 = 9223372036854775808;

/// The `i64` written by the characters of `s` from `from` up to `to`, as
/// `i64::from_str` reads it: an optional sign, then at least one digit.
pub fn parse_i64_range(s: &str, from: usize, to: usize) -> (r: Option<i64>)
    requires
        from <= to <= s@.len(),
    ensures
        r == parse_i64(s@.subrange(from as int, to as int)),
{
    let ghost t = s@.subrange(from as int, to as int);
    if from == to {
        return None;
    }
    let first = s.get_char(from);
    let neg = first == '-';
    let start = if first == '-' || first == '+' {
        from + 1
    } else {
        from
    };
    let ghost d = s@.subrange(start as int, to as int);
    proof {
        assert(t[0] == first);
        if start > from {
            assert(t.drop_first() =~= d);
        } else {
            assert(t =~= d);
        }
    }
    if start == to {
        return None;
    }
    let mut acc: u128 = 0;
    let mut over = false;
    let mut i = start;
    while i < to
        invariant
            from <= start <= i <= to <= s@.len(),
            d == s@.subrange(start as int, to as int),
            t == s@.subrange(from as int, to as int),
            t[0] == first,
            neg == (first == '-'),
            start > from <==> (first == '-' || first == '+'),
            start > from ==> t.drop_first() == d,
            start == from ==> t == d,
            forall|k: int| start <= k < i ==> is_digit(#[trigger] s@[k]),
            !over ==> acc == digits_value(s@.subrange(start as int, i as int)) && acc <= I64_MAGNITUDE,
            over ==> digits_value(s@.subrange(start as int, i as int)) > I64_MAGNITUDE,
        decreases to - i,
    {
        let c = s.get_char(i);
        if !('0' <= c && c <= '9') {
            proof {
                assert(d[i - start] == s@[i as int]);
                assert(!is_digit(d[i - start]));
                assert(!all_digits(d));
            }
            return None;
        }
        let ghost pre = s@.subrange(start as int, i as int);
        let ghost nxt = s@.subrange(start as int, i as int + 1);
        proof {
            assert(nxt.drop_last() =~= pre);
            assert(nxt.last() == c);
        }
        if !over {
            let nv = acc * 10 + (c as u32 - 48) as u128;
            if nv > I64_MAGNITUDE {
                over = true;
            } else {
                acc = nv;
            }
        }
        i += 1;
    }
    proof {
        assert(s@.subrange(start as int, i as int) =~= d);
        assert(all_digits(d)) by {
            assert forall|k: int| 0 <= k < d.len() implies is_digit(#[trigger] d[k]) by {
                assert(d[k] == s@[start + k]);
            }
        }
    }
    if over {
        return None;
    }
    if neg {
        Some((0i128 - acc as i128) as i64)
    } else if acc < I64_MAGNITUDE {
        Some(acc as i64)
    } else {
        None
    }
}

/// Splits a userid into its username and session id. Where there is no `:`,
/// or no `i64` between the first `:` and the next `:` or the end, the userid is
/// invalid.
pub fn unpack(userid: String) -> (r: Result<(String, i64), DBError>)
    ensures
        match r {
            Ok((name, id)) => userid_session(userid@) == Some(id) && name@ == userid_name(userid@),
            Err(e) => userid_session(userid@) is None && e is InvalidUserID,
        },
{
    let s = userid.as_str();
    let n = s.unicode_len();
    let p = find_char(s, ':', 0);
    proof {
        lemma_first_of_bounds(s@, ':', 0);
    }
    if p == n {
        return Err(DBError::InvalidUserID);
    }
    let q = find_char(s, ':', p + 1);
    proof {
        lemma_first_of_bounds(s@, ':', p + 1);
    }
    match parse_i64_range(s, p + 1, q) {
        None => Err(DBError::InvalidUserID),
        Some(id) => Ok((s.substring_char(0, p).to_string(), id)),
    }
}

} // verus!
