//! Fixed-length byte values carried as hexadecimal text: 20-byte account
//! addresses and 32-byte transaction hashes.

use vstd::prelude::*;

use crate::error::{DecodeError, ErrorKind};
use crate::text::{hex_bytes, hex_char, hex_digit_str, hex_text, hex_val, is_hex_digit,
    is_hex_digits, lemma_hex_round_trip};

verus! {

/// `s` without its `0x` prefix, if it carries one.
pub open spec fn strip_0x(s: Seq<char>) -> Seq<char> {
    if s.len() >= 2 && s[0] == '0' && s[1] == 'x' {
        s.skip(2)
    } else {
        s
    }
}

/// What decoding hexadecimal text to `n` bytes yields: the bytes, provided
/// the text (its `0x` prefix optional, its digits of either case) holds
/// exactly `2 * n` hexadecimal digits.
pub open spec fn hex_parse(s: Seq<char>, n: int) -> Option<Seq<u8>> {
    let h = strip_0x(s);
    if h.len() == 2 * n && is_hex_digits(h) {
        Some(hex_bytes(h))
    } else {
        None
    }
}

/// The canonical text of a byte string: `0x` then lowercase hexadecimal.
pub open spec fn hex_0x_text(b: Seq<u8>) -> Seq<char> {
    seq!['0', 'x'] + hex_text(b)
}

/// The value of one hexadecimal digit, of either case.
fn hex_digit_of(c: char) -> (r: Option<u8>)
    ensures
        match r {
            Some(v) => is_hex_digit(c) && v == hex_val(c) && v < 16,
            None => !is_hex_digit(c),
        },
{
    if '0' <= c && c <= '9' {
        Some((c as u32 - '0' as u32) as u8)
    } else if 'a' <= c && c <= 'f' {
        Some((c as u32 - 'a' as u32 + 10) as u8)
    } else if 'A' <= c && c <= 'F' {
        Some((c as u32 - 'A' as u32 + 10) as u8)
    } else {
        None
    }
}

/// Decode hexadecimal text to exactly `n` bytes.
fn hex_to_bytes(s: &str, n: usize) -> (r: Result<Vec<u8>, DecodeError>)
    requires
        n <= 1000,
    ensures
        match r {
            Ok(b) => hex_parse(s@, n as int) == Some(b@) && b@.len() == n,
            Err(e) => hex_parse(s@, n as int) is None && e.kind == ErrorKind::InvalidAddress,
        },
{
    let len = s.unicode_len();
    let start: usize = if len >= 2 && s.get_char(0) == '0' && s.get_char(1) == 'x' {
        2
    } else {
        0
    };
    let ghost h = strip_0x(s@);
    proof {
        assert(h =~= s@.subrange(start as int, len as int));
    }
    if len - start != 2 * n {
        return Err(DecodeError::new(ErrorKind::InvalidAddress).with_detail(s));
    }
    let mut out: Vec<u8> = Vec::new();
    let mut i: usize = 0;
    while i < n
        invariant
            0 <= i <= n,
            len == s@.len(),
            start + 2 * n == len,
            start == 0 || start == 2,
            h =~= s@.subrange(start as int, len as int),
            h.len() == 2 * n,
            out@.len() == i,
            forall|j: int| 0 <= j < 2 * i ==> is_hex_digit(#[trigger] h[j]),
            forall|j: int|
                0 <= j < i ==> #[trigger] out@[j] == (hex_val(h[2 * j]) * 16 + hex_val(
                    h[2 * j + 1],
                )) as u8,
        decreases n - i,
    {
        let hi = match hex_digit_of(s.get_char(start + 2 * i)) {
            Some(v) => v,
            None => {
                proof {
                    assert(h[2 * i as int] == s@[start + 2 * i as int]);
                    assert(!is_hex_digits(h));
                }
                return Err(DecodeError::new(ErrorKind::InvalidAddress).with_detail(s));
            },
        };
        let lo = match hex_digit_of(s.get_char(start + 2 * i + 1)) {
            Some(v) => v,
            None => {
                proof {
                    assert(h[2 * i as int + 1] == s@[start + 2 * i as int + 1]);
                    assert(!is_hex_digits(h));
                }
                return Err(DecodeError::new(ErrorKind::InvalidAddress).with_detail(s));
            },
        };
        proof {
            assert(h[2 * i as int] == s@[start + 2 * i as int]);
            assert(h[2 * i as int + 1] == s@[start + 2 * i as int + 1]);
        }
        out.push(hi * 16 + lo);
        i += 1;
    }
    proof {
        assert(is_hex_digits(h));
        assert(out@ =~= hex_bytes(h));
    }
    Ok(out)
}

/// Encode bytes as `0x` followed by lowercase hexadecimal digits.
fn bytes_to_hex(b: &Vec<u8>) -> (r: String)
    ensures
        r@ == hex_0x_text(b@),
{
    proof {
        reveal_strlit("0x");
    }
    let mut out = String::from_str("0x");
    proof {
        assert(out@ =~= seq!['0', 'x'] + hex_text(b@.take(0)));
    }
    let n = b.len();
    let mut i: usize = 0;
    while i < n
        invariant
            0 <= i <= n,
            n == b@.len(),
            out@ == seq!['0', 'x'] + hex_text(b@.take(i as int)),
        decreases n - i,
    {
        let v = b[i];
        out.append(hex_digit_str(v / 16));
        out.append(hex_digit_str(v % 16));
        proof {
            let prev = hex_text(b@.take(i as int));
            let next = hex_text(b@.take(i as int + 1));
            assert(next =~= prev + seq![
                hex_char(b@[i as int] as int / 16),
                hex_char(b@[i as int] as int % 16),
            ]);
            assert(out@ =~= seq!['0', 'x'] + next);
        }
        i += 1;
    }
    proof {
        assert(b@.take(n as int) =~= b@);
    }
    out
}

/// A 20-byte account address. Two wire encodings share this value type:
/// a wrapped `{"address": "0x..."}` object, and the bare hexadecimal
/// segment of a composite identifier.
#[derive(Clone, Debug)]
pub struct Address {
    bytes: Vec<u8>,
}

impl View for Address {
    type V = Seq<u8>;

    closed spec fn view(&self) -> Seq<u8> {
        self.bytes@
    }
}

impl Address {
    /// A well-formed address holds exactly 20 bytes.
    pub open spec fn wf(&self) -> bool {
        self@.len() == 20
    }

    /// Decode hexadecimal text, `0x` optional, into an address.
    pub fn from_hex_str(s: &str) -> (r: Result<Address, DecodeError>)
        ensures
            match r {
                Ok(a) => hex_parse(s@, 20) == Some(a@) && a.wf(),
                Err(e) => hex_parse(s@, 20) is None && e.kind == ErrorKind::InvalidAddress,
            },
    {
        match hex_to_bytes(s, 20) {
            Ok(b) => Ok(Address { bytes: b }),
            Err(e) => Err(e),
        }
    }

    /// The canonical text of this address: `0x` and 40 lowercase digits.
    pub fn to_hex_string(&self) -> (r: String)
        ensures
            r@ == hex_0x_text(self@),
    {
        bytes_to_hex(&self.bytes)
    }

    /// The 20 bytes of this address.
    pub fn as_bytes(&self) -> (r: &Vec<u8>)
        ensures
            r@ == self@,
    {
        &self.bytes
    }
}

/// A 32-byte transaction hash, wire-encoded as `0x` and 64 hexadecimal
/// digits.
#[derive(Clone, Debug)]
pub struct H256 {
    bytes: Vec<u8>,
}

impl View for H256 {
    type V = Seq<u8>;

    closed spec fn view(&self) -> Seq<u8> {
        self.bytes@
    }
}

impl H256 {
    /// A well-formed hash holds exactly 32 bytes.
    pub open spec fn wf(&self) -> bool {
        self@.len() == 32
    }

    /// Decode hexadecimal text, `0x` optional, into a hash.
    pub fn from_hex_str(s: &str) -> (r: Result<H256, DecodeError>)
        ensures
            match r {
                Ok(a) => hex_parse(s@, 32) == Some(a@) && a.wf(),
                Err(e) => hex_parse(s@, 32) is None && e.kind == ErrorKind::InvalidAddress,
            },
    {
        match hex_to_bytes(s, 32) {
            Ok(b) => Ok(H256 { bytes: b }),
            Err(e) => Err(e),
        }
    }

    /// The canonical text of this hash: `0x` and 64 lowercase digits.
    pub fn to_hex_string(&self) -> (r: String)
        ensures
            r@ == hex_0x_text(self@),
    {
        bytes_to_hex(&self.bytes)
    }

    /// The 32 bytes of this hash.
    pub fn as_bytes(&self) -> (r: &Vec<u8>)
        ensures
            r@ == self@,
    {
        &self.bytes
    }
}

/// Writing bytes canonically and reading them back is the identity.
pub proof fn lemma_hex_parse_round_trip(b: Seq<u8>)
    ensures
        hex_parse(hex_0x_text(b), b.len() as int) == Some(b),
{
    let t = hex_0x_text(b);
    lemma_hex_round_trip(b);
    assert(t[0] == '0' && t[1] == 'x');
    assert(strip_0x(t) =~= hex_text(b));
}

} // verus!
