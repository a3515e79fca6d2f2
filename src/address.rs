use vstd::prelude::*;

verus! {

/// A 20-byte account or contract address, held as two big-endian integers:
/// `high` is made of the first 16 bytes and `low` of the last 4.
#[derive(Clone, Copy, Debug, PartialEq, Eq, Structural)]
pub struct Address {
    pub high: u128,
    pub low: u32,
}

impl Address {
    /// Builds an address from its two big-endian parts.
    pub fn new(high: u128, low: u32) -> (r: Address)
        ensures
            r.high == high,
            r.low == low,
    {
        Address { high, low }
    }
}

pub open spec fn is_hex_digit(c: char) -> bool {
    ('0' <= c && c <= '9') || ('a' <= c && c <= 'f') || ('A' <= c && c <= 'F')
}

pub open spec fn hex_digit_value(c: char) -> int {
    if '0' <= c && c <= '9' {
        (c as int) - ('0' as int)
    } else if 'a' <= c && c <= 'f' {
        (c as int) - ('a' as int) + 10
    } else {
        (c as int) - ('A' as int) + 10
    }
}

/// The number written by a string of hex digits, most significant first.
pub open spec fn hex_value(s: Seq<char>) -> int
    decreases s.len(),
{
    if s.len() == 0 {
        0
    } else {
        hex_value(s.drop_last()) * 16 + hex_digit_value(s.last())
    }
}

/// The text after an optional lower-case `0x` prefix.
pub open spec fn hex_body(s: Seq<char>) -> Seq<char> {
    if s.len() >= 2 && s[0] == '0' && s[1] == 'x' {
        s.subrange(2, s.len() as int)
    } else {
        s
    }
}

/// The address that a text writes: an optional `0x`, then exactly 40 hex
/// digits of either case, most significant first.
pub open spec fn address_of_text(s: Seq<char>) -> Option<Address> {
    let body = hex_body(s);
    if body.len() == 40 && (forall|i: int| 0 <= i < 40 ==> is_hex_digit(#[trigger] body[i])) {
        Some(
            Address {
                high: hex_value(body.subrange(0, 32)) as u128,
                low: hex_value(body.subrange(32, 40)) as u32,
            },
        )
    } else {
        None
    }
}

fn hex_digit_of(c: char) -> (r: Option<u8>)
    ensures
        r matches Some(d) ==> is_hex_digit(c) && d as int == hex_digit_value(c) && d < 16,
        r is None ==> !is_hex_digit(c),
{
    if '0' <= c && c <= '9' {
        Some(((c as u32) - ('0' as u32)) as u8)
    } else if 'a' <= c && c <= 'f' {
        Some(((c as u32) - ('a' as u32) + 10) as u8)
    } else if 'A' <= c && c <= 'F' {
        Some(((c as u32) - ('A' as u32) + 10) as u8)
    } else {
        None
    }
}

/// The value of the hex digits `s[from..from + n]`, which fits in 128 bits,
/// or `None` when one of them is not a hex digit.
fn hex_run_value(s: &str, from: usize, n: usize) -> (r: Option<u128>)
    requires
        n <= 32,
        from + n <= s@.len(),
        from + n <= usize::MAX,
    ensures
        r matches Some(v) ==> v < vstd::arithmetic::power2::pow2(4 * n as nat),
        r matches Some(v) ==> v as int == hex_value(s@.subrange(from as int, from + n))
            && forall|i: int| from <= i < from + n ==> is_hex_digit(#[trigger] s@[i]),
        r is None ==> exists|i: int| from <= i < from + n && !is_hex_digit(#[trigger] s@[i]),
{
    let mut acc: u128 = 0;
    let mut i: usize = 0;
    proof {
        vstd::arithmetic::power2::lemma2_to64();
        vstd::arithmetic::power2::lemma_pow2_adds(64, 64);
    }
    while i < n
        invariant
            i <= n <= 32,
            from + n <= s@.len(),
            from + n <= usize::MAX,
            acc as int == hex_value(s@.subrange(from as int, from + i)),
            acc < vstd::arithmetic::power2::pow2(4 * i as nat),
            vstd::arithmetic::power2::pow2(128) == 0x1_0000_0000_0000_0000 * 0x1_0000_0000_0000_0000,
            vstd::arithmetic::power2::pow2(4) == 16,
            forall|j: int| from <= j < from + i ==> is_hex_digit(#[trigger] s@[j]),
        decreases n - i,
    {
        let c = s.get_char(from + i);
        match hex_digit_of(c) {
            Some(d) => {
                proof {
                    let pre = s@.subrange(from as int, from + i);
                    assert(s@.subrange(from as int, from + i + 1).drop_last() =~= pre);
                    vstd::arithmetic::power2::lemma_pow2_adds(4 * i as nat, 4);
                    if 4 * (i + 1) < 128 {
                        vstd::arithmetic::power2::lemma_pow2_strictly_increases(
                            4 * (i + 1) as nat,
                            128,
                        );
                    }
                    let p = vstd::arithmetic::power2::pow2(4 * i as nat);
                    assert(acc * 16 + d < p * 16) by (nonlinear_arith)
                        requires
                            acc < p,
                            d < 16,
                    ;
                }
                acc = acc * 16 + d as u128;
                i = i + 1;
            },
            None => {
                return None;
            },
        }
    }
    Some(acc)
}

/// Reads an address written as an optional `0x` and 40 hex digits.
pub fn parse_address(s: &str) -> (r: Option<Address>)
    ensures
        r == address_of_text(s@),
{
    let n = s.unicode_len();
    let mut start: usize = 0;
    if n >= 2 && s.get_char(0) == '0' && s.get_char(1) == 'x' {
        start = 2;
    }
    let ghost body = hex_body(s@);
    assert(body =~= s@.subrange(start as int, n as int));
    if n - start != 40 {
        return None;
    }
    let high = hex_run_value(s, start, 32);
    let low = hex_run_value(s, start + 32, 8);
    match (high, low) {
        (Some(h), Some(l)) => {
            assert(body.subrange(0, 32) =~= s@.subrange(start as int, start + 32));
            assert(body.subrange(32, 40) =~= s@.subrange(start + 32, start + 40));
            assert forall|i: int| 0 <= i < 40 implies is_hex_digit(#[trigger] body[i]) by {
                assert(body[i] == s@[start + i]);
            }
            proof {
                vstd::arithmetic::power2::lemma2_to64();
            }
            assert(l < 0x1_0000_0000);
            Some(Address { high: h, low: l as u32 })
        },
        _ => {
            proof {
                if high is None {
                    let i = choose|i: int| start <= i < start + 32 && !is_hex_digit(#[trigger] s@[i]);
                    assert(!is_hex_digit(body[i - start]));
                } else {
                    let i = choose|i: int| start + 32 <= i < start + 40 && !is_hex_digit(#[trigger] s@[i]);
                    assert(!is_hex_digit(body[i - start]));
                }
            }
            None
        },
    }
}

} // verus!
