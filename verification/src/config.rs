use vstd::prelude::*;

verus! {

/// Default TCP port of the services.
pub fn get_default_port() -> (r: u16)
    ensures
        r == 8080,
{
    8080
}

/// Default cap on rows kept from a query's result.
pub fn get_default_max_rows_in_result_set() -> (r: usize)
    ensures
        r == 1000,
{
    1000
}

/// Default per-statement timeout, in milliseconds.
pub fn get_default_statement_timeout() -> (r: u64)
    ensures
        r == 10000,
{
    10000
}

/// Default cap on concurrent upstream analysis requests.
pub fn get_default_max_concurrent() -> (r: usize)
    ensures
        r == 5,
{
    5
}

/// The value of one hexadecimal digit, either case, or `None`.
pub open spec fn spec_hex_digit(c: char) -> Option<u8> {
    if '0' <= c && c <= '9' {
        Some(((c as int) - 48) as u8)
    } else if 'a' <= c && c <= 'f' {
        Some(((c as int) - 87) as u8)
    } else if 'A' <= c && c <= 'F' {
        Some(((c as int) - 55) as u8)
    } else {
        None
    }
}

/// The byte written as the digit pair `hi lo`, or `None`.
pub open spec fn spec_hex_pair(hi: char, lo: char) -> Option<u8> {
    match (spec_hex_digit(hi), spec_hex_digit(lo)) {
        (Some(h), Some(l)) => Some(((h as int) * 16 + (l as int)) as u8),
        _ => None,
    }
}

/// The bytes written as an even-length string of hexadecimal digits, or
/// `None` where a character is no such digit.
pub open spec fn spec_decode_hex(s: Seq<char>) -> Option<Seq<u8>> {
    if s.len() % 2 == 0 && (forall|i: int|
        0 <= i < s.len() / 2 ==> (#[trigger] spec_hex_pair(s[2 * i], s[2 * i + 1])) is Some) {
        Some(Seq::new(s.len() / 2, |i: int| spec_hex_pair(s[2 * i], s[2 * i + 1])->0))
    } else {
        None
    }
}

fn hex_digit_value(c: char) -> (r: Option<u8>)
    ensures
        r == spec_hex_digit(c),
{
    let v = c as u32;
    if 48 <= v && v <= 57 {
        Some((v - 48) as u8)
    } else if 97 <= v && v <= 102 {
        Some((v - 87) as u8)
    } else if 65 <= v && v <= 70 {
        Some((v - 55) as u8)
    } else {
        None
    }
}

/// Reads a 32-byte key from its 64-character hexadecimal rendering;
/// anything of another length or with a character that is no hexadecimal
/// digit is rejected.
#[verifier::loop_isolation(false)]
pub fn hex_to_bytes32(s: &str) -> (r: Option<Vec<u8>>)
    ensures
        r is Some <==> s@.len() == 64 && spec_decode_hex(s@) is Some,
        r is Some ==> r->0@.len() == 32 && r->0@ == spec_decode_hex(s@)->0,
{
    let n = s.unicode_len();
    if n != 64 {
        return None;
    }
    let mut out: Vec<u8> = Vec::new();
    let mut i: usize = 0;
    while i < 32
        invariant
            i <= 32,
            out@.len() == i,
            forall|k: int|
                0 <= k < i ==> (#[trigger] spec_hex_pair(s@[2 * k], s@[2 * k + 1])) is Some
                    && out@[k] == spec_hex_pair(s@[2 * k], s@[2 * k + 1])->0,
        decreases 32 - i,
    {
        let hi = s.get_char(2 * i);
        let lo = s.get_char(2 * i + 1);
        let hv = match hex_digit_value(hi) {
            Some(v) => v,
            None => {
                proof {
                    assert(spec_hex_pair(s@[2 * i as int], s@[2 * i as int + 1]) is None);
                }
                return None;
            },
        };
        let lv = match hex_digit_value(lo) {
            Some(v) => v,
            None => {
                proof {
                    assert(spec_hex_pair(s@[2 * i as int], s@[2 * i as int + 1]) is None);
                }
                return None;
            },
        };
        out.push(hv * 16 + lv);
        i += 1;
    }
    proof {
        assert(spec_decode_hex(s@) is Some);
        assert(out@ =~= spec_decode_hex(s@)->0);
    }
    Some(out)
}

} // verus!
