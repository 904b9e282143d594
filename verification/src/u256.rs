//! The scaled-integer codec: unsigned 256-bit integers carried on the wire
//! as decimal strings, so that amounts beyond the 53-bit mantissa of a JSON
//! number survive a round trip exactly.

use vstd::prelude::*;

use crate::error::{DecodeError, ErrorKind};
use crate::text::{
    dec_value, is_digit, is_digits, lemma_dec_value_bound, lemma_dec_value_concat,
    lemma_dec_value_lower, lemma_lex_dec_value, lemma_pow10_mono, lemma_strip0,
    lemma_strip0_identity, lex_le, pow10, strip0,
};

verus! {

/// The number of values a 256-bit integer can take: 2 to the power 256.
pub open spec fn u256_limit() -> int {
    0x10000000000000000000000000000000000000000000000000000000000000000int
}

/// The decimal text of the largest 256-bit integer, 2^256 - 1.
pub open spec fn u256_max_text() -> Seq<char> {
    "115792089237316195423570985008687907853269984665640564039457584007913129639935"@
}

/// The decimal text of the largest 256-bit integer, for comparisons.
fn u256_max_str() -> (r: &'static str)
    ensures
        r@ == u256_max_text(),
{
    "115792089237316195423570985008687907853269984665640564039457584007913129639935"
}

/// The canonical decimal form of a 256-bit integer: digits only, no sign,
/// no leading zero except on zero itself.
pub open spec fn u256_canonical(t: Seq<char>) -> bool {
    &&& is_digits(t)
    &&& t.len() > 0
    &&& t.len() > 1 ==> t[0] != '0'
    &&& dec_value(t) < u256_limit()
}

/// What decoding a scaled-integer string yields: the canonical form of its
/// value, provided the text is all digits (leading zeros tolerated) and the
/// value fits in 256 bits.
pub open spec fn u256_parse(t: Seq<char>) -> Option<Seq<char>> {
    if is_digits(t) && t.len() > 0 && dec_value(t) < u256_limit() {
        Some(strip0(t))
    } else {
        None
    }
}

/// The decimal text named by [`u256_max_text`] has the value 2^256 - 1.
pub proof fn lemma_u256_max_value()
    ensures
        u256_max_text().len() == 78,
        is_digits(u256_max_text()),
        u256_max_text()[0] == '1',
        dec_value(u256_max_text()) == u256_limit() - 1,
{
    let m = u256_max_text();
    reveal_strlit("115792089237316195423570985008687907853269984665640564039457584007913129639935");
    reveal_with_fuel(dec_value, 16);
    reveal_with_fuel(pow10, 16);
    assert(m.len() == 78);
    assert(is_digits(m));
    assert(pow10(13) == 10000000000000);
    let c0 = m.subrange(0, 13);
    let c1 = m.subrange(13, 26);
    let c2 = m.subrange(26, 39);
    let c3 = m.subrange(39, 52);
    let c4 = m.subrange(52, 65);
    let c5 = m.subrange(65, 78);
    assert(dec_value(c0) == 1157920892373);
    assert(dec_value(c1) == 1619542357098);
    assert(dec_value(c2) == 5008687907853);
    assert(dec_value(c3) == 2699846656405);
    assert(dec_value(c4) == 6403945758400);
    assert(dec_value(c5) == 7913129639935);
    assert(m.subrange(0, 26) =~= c0 + c1);
    lemma_dec_value_concat(c0, c1);
    assert(dec_value(m.subrange(0, 26)) == 11579208923731619542357098int);
    assert(m.subrange(0, 39) =~= m.subrange(0, 26) + c2);
    lemma_dec_value_concat(m.subrange(0, 26), c2);
    assert(dec_value(m.subrange(0, 39)) == 115792089237316195423570985008687907853int);
    assert(m.subrange(0, 52) =~= m.subrange(0, 39) + c3);
    lemma_dec_value_concat(m.subrange(0, 39), c3);
    assert(dec_value(m.subrange(0, 52)) == 1157920892373161954235709850086879078532699846656405int);
    assert(m.subrange(0, 65) =~= m.subrange(0, 52) + c4);
    lemma_dec_value_concat(m.subrange(0, 52), c4);
    assert(dec_value(m.subrange(0, 65))
        == 11579208923731619542357098500868790785326998466564056403945758400int);
    assert(m =~= m.subrange(0, 65) + c5);
    lemma_dec_value_concat(m.subrange(0, 65), c5);
}

/// An unsigned 256-bit integer, held in its canonical decimal text form.
#[derive(Clone, Debug)]
pub struct U256 {
    digits: String,
}

impl View for U256 {
    type V = Seq<char>;

    closed spec fn view(&self) -> Seq<char> {
        self.digits@
    }
}

impl U256 {
    /// A well-formed value holds canonical decimal text.
    pub open spec fn wf(&self) -> bool {
        u256_canonical(self@)
    }

    /// The number this value denotes.
    pub open spec fn value(&self) -> int {
        dec_value(self@)
    }

    /// The canonical decimal text of this value.
    pub fn dec_str(&self) -> (r: &str)
        ensures
            r@ == self@,
    {
        self.digits.as_str()
    }

    /// Decode a scaled-integer string: ASCII decimal digits, no sign,
    /// leading zeros tolerated, value at most 2^256 - 1.
    pub fn from_dec_str(s: &str) -> (r: Result<U256, DecodeError>)
        ensures
            match r {
                Ok(u) => u256_parse(s@) == Some(u@) && u.wf(),
                Err(e) => u256_parse(s@) is None && e.kind == ErrorKind::NumericOverflowOrFormat,
            },
    {
        let n = s.unicode_len();
        if n == 0 {
            return Err(DecodeError::new(ErrorKind::NumericOverflowOrFormat));
        }
        let mut i: usize = 0;
        while i < n
            invariant
                0 <= i <= n,
                n == s@.len(),
                forall|j: int| 0 <= j < i ==> is_digit(#[trigger] s@[j]),
            decreases n - i,
        {
            let c = s.get_char(i);
            if !('0' <= c && c <= '9') {
                return Err(
                    DecodeError::new(ErrorKind::NumericOverflowOrFormat).with_detail(s),
                );
            }
            i += 1;
        }
        assert(is_digits(s@));
        // Skip leading zeros, keeping at least one digit.
        proof {
            assert(s@.subrange(0, n as int) =~= s@);
        }
        let mut k: usize = 0;
        let mut scanning = true;
        while scanning && k < n - 1
            invariant
                0 <= k <= n - 1,
                n == s@.len(),
                n >= 1,
                strip0(s@) == strip0(s@.subrange(k as int, n as int)),
                !scanning ==> s@[k as int] != '0',
            decreases n - k, scanning as int,
        {
            if s.get_char(k) == '0' {
                proof {
                    let t = s@.subrange(k as int, n as int);
                    assert(t.len() > 1);
                    assert(t[0] == s@[k as int]);
                    assert(t.skip(1) =~= s@.subrange(k as int + 1, n as int));
                }
                k += 1;
            } else {
                scanning = false;
            }
        }
        let canon = s.substring_char(k, n);
        proof {
            let t = s@.subrange(k as int, n as int);
            assert(canon@ == t);
            if t.len() > 1 {
                assert(t[0] == s@[k as int]);
                assert(t[0] != '0');
            }
            lemma_strip0_identity(t);
            assert(canon@ == strip0(s@));
            lemma_strip0(s@);
            lemma_u256_max_value();
        }
        let m = n - k;
        if m < 78 {
            proof {
                lemma_dec_value_bound(canon@);
                lemma_pow10_mono(m as nat, 77);
                lemma_dec_value_lower(u256_max_text());
                assert(dec_value(s@) == dec_value(canon@) < pow10(m as nat) <= pow10(77)
                    <= dec_value(u256_max_text()) < u256_limit());
            }
            Ok(U256 { digits: canon.to_owned() })
        } else if m > 78 {
            proof {
                lemma_dec_value_lower(canon@);
                lemma_pow10_mono(77, (m - 1) as nat);
                lemma_dec_value_bound(u256_max_text());
                assert(pow10(78) <= pow10((m - 1) as nat)) by {
                    lemma_pow10_mono(78, (m - 1) as nat);
                }
                assert(dec_value(u256_max_text()) < pow10(78));
                assert(dec_value(s@) == dec_value(canon@) >= pow10((m - 1) as nat) >= pow10(78)
                    > u256_limit() - 1);
            }
            Err(DecodeError::new(ErrorKind::NumericOverflowOrFormat).with_detail(s))
        } else {
            let mx = u256_max_str();
            let ghost cv = canon@;
            let ghost mv = u256_max_text();
            proof {
                assert(cv.len() == 78 && mv.len() == 78);
            }
            proof {
                assert(cv.skip(0) =~= cv);
                assert(mv.skip(0) =~= mv);
            }
            let mut j: usize = 0;
            let mut le: bool = true;
            let mut settled: bool = false;
            while j < 78 && !settled
                invariant
                    0 <= j <= 78,
                    cv == canon@,
                    mv == u256_max_text(),
                    cv.len() == 78 && mv.len() == 78,
                    canon@.len() == 78,
                    mx@ == mv,
                    !settled ==> le && lex_le(cv, mv) == lex_le(
                        cv.skip(j as int),
                        mv.skip(j as int),
                    ),
                    settled ==> le == lex_le(cv, mv),
                decreases 78 - j, 1 - settled as int,
            {
                let a = canon.get_char(j);
                let b = mx.get_char(j);
                if a == b {
                    proof {
                        let x = cv.skip(j as int);
                        let y = mv.skip(j as int);
                        assert(x[0] == cv[j as int] && y[0] == mv[j as int]);
                        assert(x.skip(1) =~= cv.skip(j as int + 1));
                        assert(y.skip(1) =~= mv.skip(j as int + 1));
                    }
                    j += 1;
                } else {
                    proof {
                        let x = cv.skip(j as int);
                        let y = mv.skip(j as int);
                        assert(x[0] == cv[j as int] && y[0] == mv[j as int]);
                        assert(lex_le(x, y) == (cv[j as int] < mv[j as int]));
                    }
                    le = a < b;
                    settled = true;
                }
            }
            proof {
                if !settled {
                    assert(cv.skip(78) =~= Seq::<char>::empty());
                    assert(mv.skip(78) =~= Seq::<char>::empty());
                    assert(lex_le(cv, mv));
                }
                lemma_lex_dec_value(cv, mv);
            }
            if le {
                Ok(U256 { digits: canon.to_owned() })
            } else {
                proof {
                    assert(dec_value(cv) > u256_limit() - 1);
                }
                Err(DecodeError::new(ErrorKind::NumericOverflowOrFormat).with_detail(s))
            }
        }
    }
}

/// Decoding canonical text gives back exactly that text: the scaled-integer
/// codec round-trips.
pub proof fn lemma_u256_round_trip(t: Seq<char>)
    ensures
        u256_canonical(t) ==> u256_parse(t) == Some(t),
{
    if u256_canonical(t) {
        lemma_strip0_identity(t);
    }
}

} // verus!
