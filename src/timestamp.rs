//! The shape of an RFC 3339 timestamp, `YYYY-MM-DDTHH:MM:SS[.frac]` followed
//! by `Z` or a `+HH:MM` / `-HH:MM` offset, and a check for it.
use vstd::prelude::*;
use vstd::string::StrSliceExecFns;

verus! {

/// `c` is an ASCII decimal digit.
pub open spec fn is_digit(c: char) -> bool {
    '0' <= c && c <= '9'
}

/// `t` is a UTC offset: `Z`, or a sign followed by `HH:MM`.
pub open spec fn offset_text(t: Seq<char>) -> bool {
    ||| t.len() == 1 && t[0] == 'Z'
    ||| t.len() == 6 && (t[0] == '+' || t[0] == '-') && is_digit(t[1]) && is_digit(t[2]) && t[3]
        == ':' && is_digit(t[4]) && is_digit(t[5])
}

/// `s` starts with a date and time of day, `YYYY-MM-DDTHH:MM:SS`.
pub open spec fn date_time_prefix(s: Seq<char>) -> bool {
    &&& s.len() >= 19
    &&& is_digit(s[0]) && is_digit(s[1]) && is_digit(s[2]) && is_digit(s[3])
    &&& s[4] == '-' && is_digit(s[5]) && is_digit(s[6])
    &&& s[7] == '-' && is_digit(s[8]) && is_digit(s[9])
    &&& s[10] == 'T' && is_digit(s[11]) && is_digit(s[12])
    &&& s[13] == ':' && is_digit(s[14]) && is_digit(s[15])
    &&& s[16] == ':' && is_digit(s[17]) && is_digit(s[18])
}

/// `s` is an RFC 3339 timestamp: a date and time of day, an optional
/// fraction of a second, and an offset.
pub open spec fn rfc3339_text(s: Seq<char>) -> bool {
    &&& date_time_prefix(s)
    &&& {
        ||| offset_text(s.subrange(19, s.len() as int))
        ||| s.len() > 19 && s[19] == '.' && exists|k: int|
            20 < k < s.len() && (forall|j: int| 20 <= j < k ==> is_digit(#[trigger] s[j]))
                && offset_text(s.subrange(k, s.len() as int))
    }
}

fn digit(c: char) -> (r: bool)
    ensures
        r == is_digit(c),
{
    '0' <= c && c <= '9'
}

fn offset_from(s: &str, from: usize, n: usize) -> (r: bool)
    requires
        n == s@.len(),
        from <= n,
    ensures
        r == offset_text(s@.subrange(from as int, n as int)),
{
    let ghost t = s@.subrange(from as int, n as int);
    if n - from == 1 {
        s.get_char(from) == 'Z'
    } else if n - from == 6 {
        let c0 = s.get_char(from);
        assert(t[0] == c0);
        assert(t[1] == s@[from + 1]);
        assert(t[2] == s@[from + 2]);
        assert(t[3] == s@[from + 3]);
        assert(t[4] == s@[from + 4]);
        assert(t[5] == s@[from + 5]);
        (c0 == '+' || c0 == '-') && digit(s.get_char(from + 1)) && digit(s.get_char(from + 2))
            && s.get_char(from + 3) == ':' && digit(s.get_char(from + 4)) && digit(
            s.get_char(from + 5),
        )
    } else {
        false
    }
}

fn prefix_ok(s: &str, n: usize) -> (r: bool)
    requires
        n == s@.len(),
        n >= 19,
    ensures
        r == date_time_prefix(s@),
{
    digit(s.get_char(0)) && digit(s.get_char(1)) && digit(s.get_char(2)) && digit(s.get_char(3))
        && s.get_char(4) == '-' && digit(s.get_char(5)) && digit(s.get_char(6)) && s.get_char(7)
        == '-' && digit(s.get_char(8)) && digit(s.get_char(9)) && s.get_char(10) == 'T' && digit(
        s.get_char(11),
    ) && digit(s.get_char(12)) && s.get_char(13) == ':' && digit(s.get_char(14)) && digit(
        s.get_char(15),
    ) && s.get_char(16) == ':' && digit(s.get_char(17)) && digit(s.get_char(18))
}

/// Tells whether `s` is an RFC 3339 timestamp.
pub fn is_rfc3339(s: &str) -> (r: bool)
    ensures
        r == rfc3339_text(s@),
{
    let n = s.unicode_len();
    if n < 19 || !prefix_ok(s, n) {
        return false;
    }
    if offset_from(s, 19, n) {
        return true;
    }
    if n == 19 || s.get_char(19) != '.' {
        return false;
    }
    let mut k: usize = 20;
    while k < n && digit(s.get_char(k))
        invariant
            20 <= k <= n,
            n == s@.len(),
            forall|j: int| 20 <= j < k ==> is_digit(#[trigger] s@[j]),
        decreases n - k,
    {
        k = k + 1;
    }
    let r = k > 20 && offset_from(s, k, n);
    proof {
        if !r {
            assert forall|m: int|
                20 < m < s@.len() && (forall|j: int| 20 <= j < m ==> is_digit(#[trigger] s@[j]))
                    implies !offset_text(s@.subrange(m, s@.len() as int)) by {
                if offset_text(s@.subrange(m, s@.len() as int)) {
                    assert(s@.subrange(m, s@.len() as int)[0] == s@[m]);
                    assert(!is_digit(s@[m]));
                    if m > k {
                        assert(is_digit(s@[k as int]));
                    }
                }
            }
        }
    }
    r
}

} // verus!
