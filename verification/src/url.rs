//! Addresses of peers: `osp://<domain>:<port>`.
//!
//! Only the `osp` scheme is accepted; the domain is everything between the
//! scheme and the first following `:`; the port is the decimal number after
//! that colon.

use vstd::prelude::*;
use vstd::string::StrSliceExecFns;

verus! {

/// A parsed peer address.
#[derive(PartialEq, Eq, Debug)]
pub struct OSPUrl {
    pub domain: String,
    pub port: u16,
}

/// The one way an address can be bad: it is not `osp://<domain>:<port>` with
/// a decimal port below 65536.
#[derive(Clone, Copy, PartialEq, Eq, Structural, Debug)]
pub enum UrlError {
    InvalidUrl,
}

/// The characters start with the literal scheme prefix `osp://`.
pub open spec fn spec_has_osp_scheme(s: Seq<char>) -> bool {
    s.len() >= 6 && s[0] == 'o' && s[1] == 's' && s[2] == 'p' && s[3] == ':' && s[4] == '/'
        && s[5] == '/'
}

/// Index of the first `:` at or after `i`, if any.
pub open spec fn spec_find_colon(s: Seq<char>, i: int) -> Option<int>
    decreases s.len() - i,
{
    if i < 0 || i >= s.len() {
        None
    } else if s[i] == ':' {
        Some(i)
    } else {
        spec_find_colon(s, i + 1)
    }
}

pub open spec fn spec_is_digit(c: char) -> bool {
    48 <= c as int <= 57
}

pub open spec fn spec_all_digits(s: Seq<char>) -> bool {
    forall|i: int| 0 <= i < s.len() ==> spec_is_digit(#[trigger] s[i])
}

/// Value of a decimal digit string.
pub open spec fn spec_digits_value(s: Seq<char>) -> int
    decreases s.len(),
{
    if s.len() == 0 {
        0
    } else {
        spec_digits_value(s.drop_last()) * 10 + (s.last() as int - 48)
    }
}

/// The parse of an address: its domain characters and port, or nothing when
/// the scheme is not `osp`, a piece is missing, or the port is no decimal
/// number below 65536.
pub open spec fn spec_parse_osp_url(s: Seq<char>) -> Option<(Seq<char>, u16)> {
    if !spec_has_osp_scheme(s) {
        None
    } else {
        match spec_find_colon(s, 6) {
            None => None,
            Some(c) => {
                let domain = s.subrange(6, c);
                let digits = s.subrange(c + 1, s.len() as int);
                if domain.len() > 0 && digits.len() > 0 && spec_all_digits(digits)
                    && spec_digits_value(digits) <= 65535 {
                    Some((domain, spec_digits_value(digits) as u16))
                } else {
                    None
                }
            },
        }
    }
}

proof fn lemma_digits_value_nonneg(s: Seq<char>)
    requires
        spec_all_digits(s),
    ensures
        spec_digits_value(s) >= 0,
    decreases s.len(),
{
    if s.len() > 0 {
        assert(spec_all_digits(s.drop_last())) by {
            assert(forall|i: int|
                0 <= i < s.len() - 1 ==> spec_is_digit(#[trigger] s.drop_last()[i]));
        }
        lemma_digits_value_nonneg(s.drop_last());
    }
}

/// Once a digit prefix exceeds a bound, the whole digit string does.
proof fn lemma_digits_value_monotone(s: Seq<char>, k: int)
    requires
        spec_all_digits(s),
        0 <= k <= s.len(),
    ensures
        spec_digits_value(s) >= spec_digits_value(s.take(k)),
    decreases s.len() - k,
{
    if k < s.len() {
        let t = s.take(k + 1);
        assert(t.drop_last() =~= s.take(k));
        assert(spec_all_digits(t));
        assert(spec_all_digits(t.drop_last()));
        lemma_digits_value_nonneg(t.drop_last());
        assert(spec_digits_value(t) == spec_digits_value(s.take(k)) * 10 + (s[k] as int - 48));
        assert(spec_digits_value(t) >= spec_digits_value(s.take(k)));
        lemma_digits_value_monotone(s, k + 1);
        assert(s.take(s.len() as int) =~= s);
    } else {
        assert(s.take(s.len() as int) =~= s);
    }
}

impl OSPUrl {
    /// Parse `osp://<domain>:<port>`. Any other scheme, a missing domain or
    /// port, a non-digit in the port, or a port of 65536 or more is
    /// rejected.
    pub fn parse(s: &str) -> (r: Result<OSPUrl, UrlError>)
        ensures
            match r {
                Ok(u) => spec_parse_osp_url(s@) == Some((u.domain@, u.port)),
                Err(_) => spec_parse_osp_url(s@) is None,
            },
    {
        let n: usize = s.unicode_len();
        if n < 6 {
            return Err(UrlError::InvalidUrl);
        }
        if s.get_char(0) != 'o' || s.get_char(1) != 's' || s.get_char(2) != 'p' || s.get_char(3)
            != ':' || s.get_char(4) != '/' || s.get_char(5) != '/' {
            return Err(UrlError::InvalidUrl);
        }
        // find the first colon after the scheme
        let mut i: usize = 6;
        while i < n && s.get_char(i) != ':'
            invariant
                6 <= i <= n,
                n == s@.len(),
                spec_find_colon(s@, 6) == spec_find_colon(s@, i as int),
            decreases n - i,
        {
            i = i + 1;
        }
        if i == n {
            // no colon, hence no port
            return Err(UrlError::InvalidUrl);
        }
        let c: usize = i;
        assert(spec_find_colon(s@, c as int) == Some(c as int));
        if c == 6 {
            // empty domain
            return Err(UrlError::InvalidUrl);
        }
        if c + 1 == n {
            // empty port
            proof {
                assert(s@.subrange(c + 1, n as int).len() == 0);
            }
            return Err(UrlError::InvalidUrl);
        }
        // parse the decimal port
        let ghost digits = s@.subrange(c + 1 as int, n as int);
        let mut value: u32 = 0;
        let mut j: usize = c + 1;
        while j < n
            invariant
                c + 1 <= j <= n,
                n == s@.len(),
                spec_has_osp_scheme(s@),
                spec_find_colon(s@, 6) == Some(c as int),
                6 < c < n,
                c + 1 < n,
                digits == s@.subrange(c + 1 as int, n as int),
                spec_all_digits(digits.take(j - (c + 1))),
                value == spec_digits_value(digits.take(j - (c + 1))),
                value <= 65535,
            decreases n - j,
        {
            let ch: char = s.get_char(j);
            let d: u32 = ch as u32;
            proof {
                assert(digits[j - (c + 1)] == s@[j as int]);
            }
            if d < 48 || d > 57 {
                proof {
                    assert(!spec_is_digit(digits[j - (c + 1)]));
                    assert(!spec_all_digits(digits));
                }
                return Err(UrlError::InvalidUrl);
            }
            let next: u32 = value * 10 + (d - 48);
            proof {
                let t = digits.take(j + 1 - (c + 1));
                assert(t.drop_last() =~= digits.take(j - (c + 1)));
                assert(t.last() == s@[j as int]);
            }
            if next > 65535 {
                // the port can only grow from here on
                proof {
                    if spec_all_digits(digits) {
                        lemma_digits_value_monotone(digits, j + 1 - (c + 1));
                        assert(digits.take(digits.len() as int) =~= digits);
                    }
                }
                return Err(UrlError::InvalidUrl);
            }
            value = next;
            j = j + 1;
        }
        proof {
            assert(digits.take(digits.len() as int) =~= digits);
        }
        let domain: String = s.substring_char(6, c).to_owned();
        Ok(OSPUrl { domain, port: value as u16 })
    }
}

} // verus!
