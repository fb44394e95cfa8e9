//! The decisions behind proxied content delivery: which content variant a
//! request names, and what byte window a range header asks for, clipped to
//! the body that was fetched.

use vstd::prelude::*;
use vstd::string::StrSliceExecFns;
use crate::strutil::{is_prefix_of, starts_with, str_eq};

verus! {

/// Whether `c` is a decimal digit.
pub open spec fn is_digit(c: char) -> bool {
    48 <= c as u32 <= 57
}

/// The value of a decimal digit.
pub open spec fn digit_val(c: char) -> int {
    c as u32 - 48
}

/// The value of a digit string, most significant digit first.
pub open spec fn digits_val(s: Seq<char>) -> int
    decreases s.len(),
{
    if s.len() == 0 {
        0
    } else {
        digits_val(s.drop_last()) * 10 + digit_val(s.last())
    }
}

/// What decimal parsing accepts: a nonempty all-digit string whose value
/// fits the machine.
pub open spec fn spec_parse_usize(s: Seq<char>) -> Option<int> {
    if s.len() > 0 && (forall|i: int| 0 <= i < s.len() ==> is_digit(#[trigger] s[i]))
        && digits_val(s) <= usize::MAX {
        Some(digits_val(s))
    } else {
        None
    }
}

/// Parses a nonempty all-digit string; `None` on anything else or on a value
/// that does not fit.
pub fn parse_usize(s: &str) -> (r: Option<usize>)
    ensures
        match r {
            Some(v) => spec_parse_usize(s@) == Some(v as int),
            None => spec_parse_usize(s@) is None,
        },
{
    let len = s.unicode_len();
    if len == 0 {
        return None;
    }
    let mut acc: usize = 0;
    let mut over: bool = false;
    let mut k: usize = 0;
    while k < len
        invariant
            len == s@.len(),
            k <= len,
            forall|i: int| 0 <= i < k ==> is_digit(#[trigger] s@[i]),
            !over ==> acc as int == digits_val(s@.take(k as int)),
            over ==> digits_val(s@.take(k as int)) > usize::MAX,
        decreases len - k,
    {
        let c = s.get_char(k);
        let cv = c as u32;
        if cv < 48 || cv > 57 {
            return None;
        }
        proof {
            assert(s@.take(k as int + 1).drop_last() =~= s@.take(k as int));
            assert(s@.take(k as int + 1).last() == s@[k as int]);
        }
        if !over {
            let d: u128 = (cv - 48) as u128;
            let wide: u128 = (acc as u128) * 10 + d;
            if wide > (usize::MAX as u128) {
                over = true;
            } else {
                acc = wide as usize;
            }
        }
        k = k + 1;
    }
    proof {
        assert(s@.take(len as int) =~= s@);
    }
    if over {
        None
    } else {
        Some(acc)
    }
}

/// Whether `needle` occurs in `hay` as a contiguous run.
pub open spec fn spec_contains(hay: Seq<char>, needle: Seq<char>) -> bool {
    exists|i: int|
        0 <= i <= hay.len() - needle.len() && #[trigger] hay.subrange(i, i + needle.len() as int)
            == needle
}

/// Substring search against `spec_contains`.
pub fn contains_str(hay: &str, needle: &str) -> (r: bool)
    ensures
        r == spec_contains(hay@, needle@),
{
    let hl = hay.unicode_len();
    let nl = needle.unicode_len();
    if nl > hl {
        return false;
    }
    if nl == 0 {
        proof {
            assert(hay@.subrange(0, 0 + needle@.len() as int) =~= needle@);
        }
        return true;
    }
    let mut i: usize = 0;
    while hl - i >= nl
        invariant
            hl == hay@.len(),
            nl == needle@.len(),
            1 <= nl <= hl,
            i <= hl,
            forall|k: int| 0 <= k < i ==> #[trigger] hay@.subrange(k, k + nl as int) != needle@,
        decreases hl - i,
    {
        if str_eq(hay.substring_char(i, i + nl), needle) {
            return true;
        }
        i = i + 1;
    }
    false
}

/// The content variant a proxy request names in its query string.
pub open spec fn spec_variant(url: Seq<char>) -> Seq<char> {
    if spec_contains(url, "variant=thumbnail"@) {
        "thumbnail"@
    } else if spec_contains(url, "variant=spritesheet"@) {
        "spritesheet"@
    } else {
        "video"@
    }
}

/// Picks the content variant a proxy request names, the full video being the
/// default.
pub fn select_variant(url: &str) -> (r: &'static str)
    ensures
        r@ == spec_variant(url@),
{
    if contains_str(url, "variant=thumbnail") {
        "thumbnail"
    } else if contains_str(url, "variant=spritesheet") {
        "spritesheet"
    } else {
        "video"
    }
}

/// The index of the first dash in a string.
pub open spec fn first_dash(s: Seq<char>) -> Option<int>
    decreases s.len(),
{
    if s.len() == 0 {
        None
    } else if s[0] == '-' {
        Some(0int)
    } else {
        match first_dash(s.skip(1)) {
            Some(i) => Some(i + 1),
            None => None,
        }
    }
}

proof fn lemma_first_dash_some(s: Seq<char>, i: int)
    requires
        0 <= i < s.len(),
        s[i] == '-',
        forall|j: int| 0 <= j < i ==> s[j] != '-',
    ensures
        first_dash(s) == Some(i),
    decreases i,
{
    if i == 0 {
    } else {
        let t = s.skip(1);
        assert(t[i - 1] == '-');
        assert(forall|j: int| 0 <= j < i - 1 ==> t[j] == s[j + 1]);
        lemma_first_dash_some(t, i - 1);
    }
}

proof fn lemma_first_dash_none(s: Seq<char>)
    requires
        forall|j: int| 0 <= j < s.len() ==> s[j] != '-',
    ensures
        first_dash(s) is None,
    decreases s.len(),
{
    if s.len() > 0 {
        let t = s.skip(1);
        assert(forall|j: int| 0 <= j < t.len() ==> t[j] == s[j + 1]);
        lemma_first_dash_none(t);
    }
}

fn find_dash(v: &str) -> (r: Option<usize>)
    ensures
        match r {
            Some(i) => i < v@.len() && first_dash(v@) == Some(i as int),
            None => first_dash(v@) is None,
        },
{
    let len = v.unicode_len();
    let mut k: usize = 0;
    while k < len
        invariant
            len == v@.len(),
            k <= len,
            forall|j: int| 0 <= j < k ==> v@[j] != '-',
        decreases len - k,
    {
        if v.get_char(k) == '-' {
            proof {
                lemma_first_dash_some(v@, k as int);
            }
            return Some(k);
        }
        k = k + 1;
    }
    proof {
        lemma_first_dash_none(v@);
    }
    None
}

/// The byte window a range header of the form `bytes=start-end` asks for,
/// against a body of `total` bytes: a missing start reads as zero, a missing
/// or oversized end as the last byte, and a window that ends before it
/// starts is refused.
pub open spec fn spec_range(header: Seq<char>, total: int) -> Option<(int, int)> {
    if !is_prefix_of("bytes="@, header) {
        None
    } else {
        let v = header.skip(6);
        match first_dash(v) {
            None => None,
            Some(i) => {
                let start = match spec_parse_usize(v.take(i)) {
                    Some(x) => x,
                    None => 0int,
                };
                let end0 = match spec_parse_usize(v.skip(i + 1)) {
                    Some(x) => x,
                    None => total - 1,
                };
                let end1 = if v.skip(i + 1).len() == 0 {
                    total - 1
                } else {
                    end0
                };
                let end = if end1 > total - 1 {
                    total - 1
                } else {
                    end1
                };
                if start <= end {
                    Some((start, end))
                } else {
                    None
                }
            },
        }
    }
}

/// Parses a range header against the fetched body's length; the window it
/// returns is always within the body.
pub fn parse_range(header: &str, total_len: usize) -> (r: Option<(usize, usize)>)
    requires
        total_len > 0,
    ensures
        match r {
            Some(w) => w.0 <= w.1 < total_len && spec_range(header@, total_len as int) == Some(
                (w.0 as int, w.1 as int),
            ),
            None => spec_range(header@, total_len as int) is None,
        },
{
    proof {
        reveal_strlit("bytes=");
        assert("bytes="@.len() == 6);
    }
    if !starts_with(header, "bytes=") {
        return None;
    }
    let len = header.unicode_len();
    let value = header.substring_char(6, len);
    proof {
        assert(value@ =~= header@.skip(6));
    }
    let vlen = value.unicode_len();
    let i = match find_dash(value) {
        Some(i) => i,
        None => {
            return None;
        },
    };
    let start_str = value.substring_char(0, i);
    let end_str = value.substring_char(i + 1, vlen);
    proof {
        assert(start_str@ =~= value@.take(i as int));
        assert(end_str@ =~= value@.skip(i as int + 1));
    }
    let start = match parse_usize(start_str) {
        Some(x) => x,
        None => 0,
    };
    let end1 = if end_str.unicode_len() == 0 {
        total_len - 1
    } else {
        match parse_usize(end_str) {
            Some(x) => x,
            None => total_len - 1,
        }
    };
    let end = if end1 > total_len - 1 {
        total_len - 1
    } else {
        end1
    };
    if start <= end {
        Some((start, end))
    } else {
        None
    }
}

} // verus!
