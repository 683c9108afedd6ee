//! Verified parsing of dotted-quad IPv4 addresses and `addr/len` prefixes,
//! as the configuration validator needs them.

use vstd::prelude::*;
use vstd::string::*;

verus! {

pub open spec fn is_digit(c: char) -> bool {
    48 <= c as u32 <= 57
}

pub open spec fn digit_val(c: char) -> int {
    c as u32 - 48
}

/// The value of a sequence of decimal digits, most significant first.
pub open spec fn dec_val(s: Seq<char>) -> int
    decreases s.len(),
{
    if s.len() == 0 {
        0
    } else {
        dec_val(s.drop_last()) * 10 + digit_val(s.last())
    }
}

pub open spec fn all_digits(s: Seq<char>) -> bool {
    forall|i: int| 0 <= i < s.len() ==> is_digit(#[trigger] s[i])
}

pub open spec fn pow10(n: nat) -> int
    decreases n,
{
    if n == 0 {
        1
    } else {
        10 * pow10((n - 1) as nat)
    }
}

proof fn lemma_dec_val_bound(s: Seq<char>)
    requires
        all_digits(s),
    ensures
        0 <= dec_val(s) < pow10(s.len()),
    decreases s.len(),
{
    if s.len() > 0 {
        assert(all_digits(s.drop_last())) by {
            assert(forall|i: int| 0 <= i < s.len() - 1 ==> is_digit(#[trigger] s.drop_last()[i]));
        }
        lemma_dec_val_bound(s.drop_last());
        assert(is_digit(s.last()));
    }
}

/// One octet of a dotted quad: one to three digits with a value up to 255.
/// When `allow_leading_zeros` is false, a multi-digit octet may not start
/// with `'0'`.
pub open spec fn valid_octet(s: Seq<char>, allow_leading_zeros: bool) -> bool {
    &&& 1 <= s.len() <= 3
    &&& all_digits(s)
    &&& (!allow_leading_zeros && s.len() > 1 ==> s[0] != '0')
    &&& dec_val(s) <= 255
}

/// `i < j < k` are the positions of the three dots of a dotted quad in `s`,
/// with a valid octet between each pair.
pub open spec fn ipv4_split(s: Seq<char>, i: int, j: int, k: int, allow_leading_zeros: bool) -> bool {
    &&& 0 <= i < j < k < s.len()
    &&& s[i] == '.' && s[j] == '.' && s[k] == '.'
    &&& valid_octet(s.subrange(0, i), allow_leading_zeros)
    &&& valid_octet(s.subrange(i + 1, j), allow_leading_zeros)
    &&& valid_octet(s.subrange(j + 1, k), allow_leading_zeros)
    &&& valid_octet(s.subrange(k + 1, s.len() as int), allow_leading_zeros)
}

pub open spec fn valid_ipv4(s: Seq<char>, allow_leading_zeros: bool) -> bool {
    exists|i: int, j: int, k: int| ipv4_split(s, i, j, k, allow_leading_zeros)
}

/// A prefix length: one or two digits with a value up to 32.
pub open spec fn valid_prefix_len(s: Seq<char>) -> bool {
    1 <= s.len() <= 2 && all_digits(s) && dec_val(s) <= 32
}

/// An IPv4 network in `addr/len` form, with the octet rules of the prefix
/// list parser (leading zeros allowed).
pub open spec fn valid_ipv4_net(s: Seq<char>) -> bool {
    exists|m: int|
        0 <= m < s.len() && #[trigger] s[m] == '/' && valid_ipv4(s.subrange(0, m), true)
            && valid_prefix_len(s.subrange(m + 1, s.len() as int))
}

/// Every character of a split dotted quad is a dot at one of the three split
/// positions or a digit.
proof fn lemma_ipv4_chars(s: Seq<char>, i: int, j: int, k: int, lz: bool, p: int)
    requires
        ipv4_split(s, i, j, k, lz),
        0 <= p < s.len(),
    ensures
        s[p] == '.' ==> p == i || p == j || p == k,
        p != i && p != j && p != k ==> is_digit(s[p]),
{
    if p < i {
        assert(is_digit(s.subrange(0, i)[p]));
    } else if i < p && p < j {
        assert(is_digit(s.subrange(i + 1, j)[p - i - 1]));
    } else if j < p && p < k {
        assert(is_digit(s.subrange(j + 1, k)[p - j - 1]));
    } else if k < p {
        assert(is_digit(s.subrange(k + 1, s.len() as int)[p - k - 1]));
    }
}

/// Finds the first `c` at or after `from`.
fn find_char_from(s: &str, from: usize, c: char) -> (r: Option<usize>)
    requires
        from <= s@.len(),
    ensures
        match r {
            Some(d) => from <= d < s@.len() && s@[d as int] == c && forall|p: int|
                from <= p < d ==> s@[p] != c,
            None => forall|p: int| from <= p < s@.len() ==> s@[p] != c,
        },
{
    let n = s.unicode_len();
    let mut p: usize = from;
    while p < n
        invariant
            from <= p <= n,
            n == s@.len(),
            forall|q: int| from <= q < p ==> s@[q] != c,
        decreases n - p,
    {
        if s.get_char(p) == c {
            return Some(p);
        }
        p = p + 1;
    }
    None
}

/// Parses the octet at `s[from..to]`; `None` when it is not a valid octet.
fn check_octet(s: &str, from: usize, to: usize, allow_leading_zeros: bool) -> (r: Option<u8>)
    requires
        from <= to <= s@.len(),
    ensures
        match r {
            Some(v) => valid_octet(s@.subrange(from as int, to as int), allow_leading_zeros)
                && v == dec_val(s@.subrange(from as int, to as int)),
            None => !valid_octet(s@.subrange(from as int, to as int), allow_leading_zeros),
        },
{
    let ghost oct = s@.subrange(from as int, to as int);
    let len = to - from;
    if len < 1 || len > 3 {
        return None;
    }
    if !allow_leading_zeros && len > 1 && s.get_char(from) == '0' {
        assert(oct[0] == '0');
        return None;
    }
    let mut p: usize = from;
    let mut acc: u32 = 0;
    while p < to
        invariant
            from <= p <= to <= s@.len(),
            to - from <= 3,
            oct == s@.subrange(from as int, to as int),
            all_digits(s@.subrange(from as int, p as int)),
            acc == dec_val(s@.subrange(from as int, p as int)),
            acc < 1000,
        decreases to - p,
    {
        let ghost pre = s@.subrange(from as int, p as int);
        let c = s.get_char(p);
        let v = c as u32;
        if v < 48 || v > 57 {
            assert(oct[p - from] == c);
            assert(!all_digits(oct));
            return None;
        }
        proof {
            let post = s@.subrange(from as int, p + 1);
            assert(post.drop_last() =~= pre);
            assert(post.last() == c);
            assert(forall|q: int| 0 <= q < post.len() ==> is_digit(#[trigger] post[q]));
            assert(pre.len() <= 2);
            lemma_dec_val_bound(pre);
            assert(pow10(pre.len()) <= 100) by {
                reveal_with_fuel(pow10, 4);
            }
        }
        acc = acc * 10 + (v - 48);
        p = p + 1;
    }
    proof {
        assert(s@.subrange(from as int, p as int) =~= oct);
    }
    if acc > 255 {
        return None;
    }
    assert(valid_octet(oct, allow_leading_zeros));
    Some(acc as u8)
}

/// If three dots are found in order with nothing after, and a split exists,
/// the found dots are the split positions.
proof fn lemma_split_forced(
    s: Seq<char>,
    lz: bool,
    d1: int,
    d2: int,
    d3: int,
)
    requires
        valid_ipv4(s, lz),
        0 <= d1 < s.len() && s[d1] == '.' && (forall|p: int| 0 <= p < d1 ==> s[p] != '.'),
        d1 < d2 < s.len() && s[d2] == '.' && (forall|p: int| d1 < p < d2 ==> s[p] != '.'),
        d2 < d3 < s.len() && s[d3] == '.' && (forall|p: int| d2 < p < d3 ==> s[p] != '.'),
    ensures
        ipv4_split(s, d1, d2, d3, lz),
{
    let (i, j, k) = choose|i: int, j: int, k: int| ipv4_split(s, i, j, k, lz);
    lemma_ipv4_chars(s, i, j, k, lz, d1);
    lemma_ipv4_chars(s, i, j, k, lz, d2);
    lemma_ipv4_chars(s, i, j, k, lz, d3);
    // d1 is the first dot, and i is a dot, so d1 <= i; d1 is itself a dot, so d1 >= i.
    assert(d1 == i);
    assert(d2 == j);
    assert(d3 == k);
}

/// Parses a dotted-quad IPv4 address. Returns the four octet values.
pub fn parse_ipv4_impl(s: &str, allow_leading_zeros: bool) -> (r: Option<(u8, u8, u8, u8)>)
    ensures
        r is Some <==> valid_ipv4(s@, allow_leading_zeros),
        match r {
            Some(t) => exists|i: int, j: int, k: int|
                #[trigger] ipv4_split(s@, i, j, k, allow_leading_zeros)
                    && t.0 == dec_val(s@.subrange(0, i)) && t.1 == dec_val(s@.subrange(i + 1, j))
                    && t.2 == dec_val(s@.subrange(j + 1, k)) && t.3 == dec_val(
                    s@.subrange(k + 1, s@.len() as int),
                ),
            None => true,
        },
{
    let ghost lz = allow_leading_zeros;
    let n = s.unicode_len();
    let d1 = match find_char_from(s, 0, '.') {
        Some(d) => d,
        None => {
            proof {
                if valid_ipv4(s@, lz) {
                    let (i, j, k) = choose|i: int, j: int, k: int| ipv4_split(s@, i, j, k, lz);
                    assert(s@[i] == '.');
                }
            }
            return None;
        },
    };
    let d2 = match find_char_from(s, d1 + 1, '.') {
        Some(d) => d,
        None => {
            proof {
                if valid_ipv4(s@, lz) {
                    let (i, j, k) = choose|i: int, j: int, k: int| ipv4_split(s@, i, j, k, lz);
                    lemma_ipv4_chars(s@, i, j, k, lz, d1 as int);
                    // d1 == i, so the dot at j lies after d1: contradiction
                    assert(s@[j] == '.');
                }
            }
            return None;
        },
    };
    let d3 = match find_char_from(s, d2 + 1, '.') {
        Some(d) => d,
        None => {
            proof {
                if valid_ipv4(s@, lz) {
                    let (i, j, k) = choose|i: int, j: int, k: int| ipv4_split(s@, i, j, k, lz);
                    lemma_ipv4_chars(s@, i, j, k, lz, d1 as int);
                    lemma_ipv4_chars(s@, i, j, k, lz, d2 as int);
                    assert(d1 == i);
                    assert(d2 == j);
                    assert(s@[k] == '.');
                }
            }
            return None;
        },
    };
    match find_char_from(s, d3 + 1, '.') {
        Some(d4) => {
            proof {
                if valid_ipv4(s@, lz) {
                    lemma_split_forced(s@, lz, d1 as int, d2 as int, d3 as int);
                    lemma_ipv4_chars(s@, d1 as int, d2 as int, d3 as int, lz, d4 as int);
                }
            }
            return None;
        },
        None => {},
    }
    let o1 = check_octet(s, 0, d1, allow_leading_zeros);
    let o2 = check_octet(s, d1 + 1, d2, allow_leading_zeros);
    let o3 = check_octet(s, d2 + 1, d3, allow_leading_zeros);
    let o4 = check_octet(s, d3 + 1, n, allow_leading_zeros);
    match (o1, o2, o3, o4) {
        (Some(a), Some(b), Some(c), Some(d)) => {
            proof {
                assert(ipv4_split(s@, d1 as int, d2 as int, d3 as int, lz));
            }
            Some((a, b, c, d))
        },
        _ => {
            proof {
                if valid_ipv4(s@, lz) {
                    lemma_split_forced(s@, lz, d1 as int, d2 as int, d3 as int);
                }
            }
            None
        },
    }
}

/// Parses an IPv4 address with the rules of the standard address parser:
/// leading zeros are rejected.
pub fn parse_ipv4(s: &str) -> (r: Option<(u8, u8, u8, u8)>)
    ensures
        r is Some <==> valid_ipv4(s@, false),
{
    parse_ipv4_impl(s, false)
}

/// True when `s` is a valid `addr/len` IPv4 network in the prefix-list syntax.
pub fn is_valid_ipv4_net(s: &str) -> (b: bool)
    ensures
        b == valid_ipv4_net(s@),
{
    let n = s.unicode_len();
    let m = match find_char_from(s, 0, '/') {
        Some(m) => m,
        None => {
            proof {
                if valid_ipv4_net(s@) {
                    let mm = choose|mm: int|
                        0 <= mm < s@.len() && #[trigger] s@[mm] == '/' && valid_ipv4(
                            s@.subrange(0, mm),
                            true,
                        ) && valid_prefix_len(s@.subrange(mm + 1, s@.len() as int));
                }
            }
            return false;
        },
    };
    let addr_part = s.substring_char(0, m);
    let addr_ok = parse_ipv4_impl(addr_part, true);
    if addr_ok.is_none() {
        proof {
            if valid_ipv4_net(s@) {
                let mm = choose|mm: int|
                    0 <= mm < s@.len() && #[trigger] s@[mm] == '/' && valid_ipv4(
                        s@.subrange(0, mm),
                        true,
                    ) && valid_prefix_len(s@.subrange(mm + 1, s@.len() as int));
                // the address part of a valid split holds no slash, so the
                // first slash is the split slash
                if mm != m {
                    let (i, j, k) = choose|i: int, j: int, k: int|
                        ipv4_split(s@.subrange(0, mm), i, j, k, true);
                    lemma_ipv4_chars(s@.subrange(0, mm), i, j, k, true, m as int);
                    assert(s@.subrange(0, mm)[m as int] == '/');
                }
                assert(s@.subrange(0, mm) == addr_part@);
            }
        }
        return false;
    }
    proof {
        assert(valid_ipv4(s@.subrange(0, m as int), true));
    }
    // prefix length part: one or two digits, value at most 32
    let plen_from = m + 1;
    let plen = n - plen_from;
    let ghost tail = s@.subrange(plen_from as int, n as int);
    if plen < 1 || plen > 2 {
        proof {
            if valid_ipv4_net(s@) {
                lemma_net_slash_is_first(s@, m as int);
            }
        }
        return false;
    }
    let mut p: usize = plen_from;
    let mut acc: u32 = 0;
    while p < n
        invariant
            plen_from <= p <= n,
            n == s@.len(),
            plen_from == m + 1,
            m < n,
            1 <= n - plen_from <= 2,
            s@[m as int] == '/',
            forall|q: int| 0 <= q < m ==> s@[q] != '/',
            valid_ipv4(s@.subrange(0, m as int), true),
            tail == s@.subrange(plen_from as int, n as int),
            all_digits(s@.subrange(plen_from as int, p as int)),
            acc == dec_val(s@.subrange(plen_from as int, p as int)),
            acc < 100,
        decreases n - p,
    {
        let ghost pre = s@.subrange(plen_from as int, p as int);
        let c = s.get_char(p);
        let v = c as u32;
        if v < 48 || v > 57 {
            proof {
                assert(tail[p - plen_from] == c);
                if valid_ipv4_net(s@) {
                    lemma_net_slash_is_first(s@, m as int);
                }
            }
            return false;
        }
        proof {
            let post = s@.subrange(plen_from as int, p + 1);
            assert(post.drop_last() =~= pre);
            assert(post.last() == c);
            assert(forall|q: int| 0 <= q < post.len() ==> is_digit(#[trigger] post[q]));
            lemma_dec_val_bound(pre);
            assert(pow10(pre.len()) <= 10) by {
                reveal_with_fuel(pow10, 2);
            }
        }
        acc = acc * 10 + (v - 48);
        p = p + 1;
    }
    proof {
        assert(s@.subrange(plen_from as int, p as int) =~= tail);
    }
    if acc > 32 {
        proof {
            if valid_ipv4_net(s@) {
                lemma_net_slash_is_first(s@, m as int);
            }
        }
        return false;
    }
    proof {
        assert(valid_prefix_len(tail));
        assert(valid_ipv4_net(s@));
    }
    true
}

/// In a valid `addr/len` string whose first slash is at `m`, the split slash
/// is exactly `m`.
proof fn lemma_net_slash_is_first(s: Seq<char>, m: int)
    requires
        0 <= m < s.len(),
        s[m] == '/',
        forall|p: int| 0 <= p < m ==> s[p] != '/',
        valid_ipv4_net(s),
    ensures
        valid_ipv4(s.subrange(0, m), true),
        valid_prefix_len(s.subrange(m + 1, s.len() as int)),
{
    let mm = choose|mm: int|
        0 <= mm < s.len() && #[trigger] s[mm] == '/' && valid_ipv4(s.subrange(0, mm), true)
            && valid_prefix_len(s.subrange(mm + 1, s.len() as int));
    if mm > m {
        let (i, j, k) = choose|i: int, j: int, k: int| ipv4_split(s.subrange(0, mm), i, j, k, true);
        lemma_ipv4_chars(s.subrange(0, mm), i, j, k, true, m);
        assert(s.subrange(0, mm)[m] == '/');
        assert(false);
    } else if mm < m {
        // a slash inside the prefix-length digits is impossible
        assert(is_digit(s.subrange(mm + 1, s.len() as int)[m - mm - 1]));
        assert(false);
    }
}

} // verus!
