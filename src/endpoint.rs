//! Choice of the port that the sidecar binds to.
use vstd::prelude::*;
use vstd::string::StrSliceExecFns;

verus! {

/// Whether `c` is an ASCII decimal digit.
pub open spec fn is_digit(c: char) -> bool {
    '0' as u32 <= c as u32 && c as u32 <= '9' as u32
}

pub open spec fn digit_value(c: char) -> nat {
    (c as u32 - '0' as u32) as nat
}

pub open spec fn all_digits(s: Seq<char>) -> bool {
    forall|i: int| 0 <= i < s.len() ==> is_digit(#[trigger] s[i])
}

/// The number written by the decimal digits `s`, most significant first.
pub open spec fn digits_value(s: Seq<char>) -> nat
    decreases s.len(),
{
    if s.len() == 0 {
        0
    } else {
        digits_value(s.drop_last()) * 10 + digit_value(s.last())
    }
}

/// The digits of an unsigned decimal literal, which may carry one leading `+`.
pub open spec fn unsigned_digits(s: Seq<char>) -> Seq<char> {
    if s.len() > 0 && s[0] == '+' {
        s.drop_first()
    } else {
        s
    }
}

/// The largest port number.
pub const MAX_PORT: u32 = 65535;

/// The port that `s` writes in decimal, if it writes one: a number no
/// larger than `MAX_PORT`.
pub open spec fn parsed_port(s: Seq<char>) -> Option<u32> {
    let d = unsigned_digits(s);
    if d.len() > 0 && all_digits(d) && digits_value(d) <= MAX_PORT as nat {
        Some(digits_value(d) as u32)
    } else {
        None
    }
}

/// The port that the sidecar is given: the override when it reads as a port
/// number, else the port that the operating system handed out.
pub open spec fn chosen_port(override_value: Option<Seq<char>>, ephemeral: Option<u16>) -> Option<
    u32,
> {
    match override_value {
        Some(v) if parsed_port(v) is Some => parsed_port(v),
        _ => match ephemeral {
            Some(p) => Some(p as u32),
            None => None,
        },
    }
}

proof fn lemma_prefix_value_bounded(s: Seq<char>, k: int)
    requires
        all_digits(s),
        0 <= k <= s.len(),
    ensures
        digits_value(s.subrange(0, k)) <= digits_value(s),
    decreases s.len(),
{
    if k < s.len() {
        assert(s.drop_last() =~= s.subrange(0, s.len() - 1));
        assert(s.subrange(0, k) =~= s.drop_last().subrange(0, k));
        lemma_prefix_value_bounded(s.drop_last(), k);
    } else {
        assert(s.subrange(0, k) =~= s);
    }
}

/// Reads `s` as a port number: an optional `+`, then one or more decimal
/// digits, with a value no larger than `MAX_PORT`.
pub fn parse_port(s: &str) -> (r: Option<u32>)
    ensures
        r == parsed_port(s@),
{
    let n = s.unicode_len();
    let mut start: usize = 0;
    if n > 0 && s.get_char(0) == '+' {
        start = 1;
    }
    let ghost d = unsigned_digits(s@);
    assert(d =~= s@.subrange(start as int, n as int));
    if start >= n {
        return None;
    }
    let mut acc: u64 = 0;
    let mut i: usize = start;
    while i < n
        invariant
            start <= i <= n,
            n == s@.len(),
            d == s@.subrange(start as int, n as int),
            d == unsigned_digits(s@),
            all_digits(d.subrange(0, i - start)),
            acc as nat == digits_value(d.subrange(0, i - start)),
            acc <= MAX_PORT,
        decreases n - i,
    {
        let c = s.get_char(i);
        let code = c as u32;
        if !('0' as u32 <= code && code <= '9' as u32) {
            proof {
                assert(d[i - start] == c);
                assert(!is_digit(d[i - start]));
            }
            return None;
        }
        let v: u64 = (code - '0' as u32) as u64;
        let next: u64 = acc * 10 + v;
        proof {
            let p = d.subrange(0, i - start + 1);
            assert(p.drop_last() =~= d.subrange(0, i - start));
            assert(p.last() == c);
            assert(all_digits(p));
            assert(digit_value(c) == v);
            assert(digits_value(p) == next);
        }
        if next > MAX_PORT as u64 {
            proof {
                let p = d.subrange(0, i - start + 1);
                if all_digits(d) {
                    lemma_prefix_value_bounded(d, i - start + 1);
                }
            }
            return None;
        }
        acc = next;
        i = i + 1;
    }
    assert(d.subrange(0, i - start) =~= d);
    Some(acc as u32)
}

/// Resolves the sidecar's port from the override read from the environment
/// and, where that does not read as a port number, the port that binding a
/// loopback socket to port zero gave. `None` when neither yields a port,
/// which aborts startup.
pub fn get_sidecar_port(override_value: Option<&str>, ephemeral: Option<u16>) -> (r: Option<u32>)
    ensures
        r is Some ==> r->0 <= MAX_PORT,
        r == chosen_port(
            match override_value {
                Some(v) => Some(v@),
                None => None,
            },
            ephemeral,
        ),
{
    if let Some(v) = override_value {
        if let Some(p) = parse_port(v) {
            return Some(p);
        }
    }
    match ephemeral {
        Some(p) => Some(p as u32),
        None => None,
    }
}

} // verus!
