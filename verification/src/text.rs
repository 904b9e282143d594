//! Verified text primitives shared by the field codecs: decimal digits,
//! hexadecimal bytes, numeric-literal syntax, and character search.

use vstd::prelude::*;

verus! {

// ---------------------------------------------------------------------------
// Decimal digits
// ---------------------------------------------------------------------------
/// Is `c` an ASCII decimal digit?
pub open spec fn is_digit(c: char) -> bool {
    '0' <= c && c <= '9'
}

/// The numeric value of a decimal digit.
pub open spec fn digit_val(c: char) -> int {
    c as int - '0' as int
}

/// Is `s` entirely decimal digits?
pub open spec fn is_digits(s: Seq<char>) -> bool {
    forall|i: int| 0 <= i < s.len() ==> is_digit(#[trigger] s[i])
}

/// The value of a digit string read in base 10.
pub open spec fn dec_value(s: Seq<char>) -> int
    decreases s,
{
    if s.len() == 0 {
        0
    } else {
        dec_value(s.drop_last()) * 10 + digit_val(s.last())
    }
}

/// 10 to the power `n`.
pub open spec fn pow10(n: nat) -> int
    decreases n,
{
    if n == 0 {
        1
    } else {
        10 * pow10((n - 1) as nat)
    }
}

pub proof fn lemma_pow10_pos(n: nat)
    ensures
        pow10(n) >= 1,
    decreases n,
{
    if n > 0 {
        lemma_pow10_pos((n - 1) as nat);
    }
}

/// A digit string's value is below `pow10` of its length.
pub proof fn lemma_dec_value_bound(s: Seq<char>)
    requires
        is_digits(s),
    ensures
        0 <= dec_value(s) < pow10(s.len()),
    decreases s,
{
    if s.len() > 0 {
        assert(is_digits(s.drop_last())) by {
            assert(forall|i: int|
                0 <= i < s.len() - 1 ==> s.drop_last()[i] == #[trigger] s[i]);
        }
        lemma_dec_value_bound(s.drop_last());
        assert(is_digit(s.last()));
    }
}

/// A digit string without a leading zero reaches `pow10` of its length less one.
pub proof fn lemma_dec_value_lower(s: Seq<char>)
    requires
        is_digits(s),
        s.len() > 0,
        s[0] != '0',
    ensures
        dec_value(s) >= pow10((s.len() - 1) as nat),
    decreases s,
{
    if s.len() == 1 {
        reveal_with_fuel(dec_value, 2);
        assert(s.last() == s[0]);
        assert(is_digit(s[0]));
        assert(digit_val(s[0]) >= 1);
        assert(dec_value(s) == digit_val(s[0]));
    } else {
        let t = s.drop_last();
        assert(is_digits(t) && t.len() > 0 && t[0] != '0') by {
            assert(forall|i: int| 0 <= i < t.len() ==> t[i] == #[trigger] s[i]);
            assert(t[0] == s[0]);
        }
        lemma_dec_value_lower(t);
        assert(s.last() == s[s.len() - 1]);
        assert(is_digit(s.last()));
        assert(digit_val(s.last()) >= 0);
        assert(dec_value(t) * 10 >= pow10((t.len() - 1) as nat) * 10);
        assert(pow10((s.len() - 1) as nat) == 10 * pow10((t.len() - 1) as nat));
    }
}

/// Reading one more digit multiplies the prefix value by 10.
pub proof fn lemma_dec_value_step(s: Seq<char>, i: int)
    requires
        0 <= i < s.len(),
    ensures
        dec_value(s.take(i + 1)) == dec_value(s.take(i)) * 10 + digit_val(s[i]),
{
    assert(s.take(i + 1).drop_last() =~= s.take(i));
    assert(s.take(i + 1).last() == s[i]);
}

/// A longer digit prefix never has a smaller value.
pub proof fn lemma_dec_value_mono(s: Seq<char>, i: int, j: int)
    requires
        is_digits(s),
        0 <= i <= j <= s.len(),
    ensures
        dec_value(s.take(i)) <= dec_value(s.take(j)),
    decreases j - i,
{
    if i < j {
        lemma_dec_value_mono(s, i, j - 1);
        lemma_dec_value_step(s, j - 1);
        assert(is_digit(s[j - 1]));
        assert(dec_value(s.take(j - 1)) * 10 >= dec_value(s.take(j - 1))) by {
            lemma_dec_value_bound_take(s, j - 1);
        }
    } else {
    }
}

proof fn lemma_dec_value_bound_take(s: Seq<char>, i: int)
    requires
        is_digits(s),
        0 <= i <= s.len(),
    ensures
        0 <= dec_value(s.take(i)),
{
    assert(is_digits(s.take(i))) by {
        assert(forall|k: int| 0 <= k < i ==> s.take(i)[k] == #[trigger] s[k]);
    }
    lemma_dec_value_bound(s.take(i));
}

/// The value of a digit string, read from the front.
pub proof fn lemma_dec_value_front(s: Seq<char>)
    requires
        s.len() > 0,
    ensures
        dec_value(s) == digit_val(s[0]) * pow10((s.len() - 1) as nat) + dec_value(s.skip(1)),
    decreases s,
{
    if s.len() == 1 {
        reveal_with_fuel(dec_value, 2);
        assert(s.skip(1) =~= Seq::<char>::empty());
        assert(dec_value(s.skip(1)) == 0);
        assert(s.last() == s[0]);
        assert(dec_value(s) == digit_val(s[0]));
    } else {
        let t = s.drop_last();
        lemma_dec_value_front(t);
        assert(t[0] == s[0]);
        assert(s.skip(1).drop_last() =~= t.skip(1));
        assert(s.skip(1).last() == s.last());
        assert(dec_value(s.skip(1)) == dec_value(t.skip(1)) * 10 + digit_val(s.last()));
        let a = digit_val(s[0]);
        let p = pow10((t.len() - 1) as nat);
        let r = dec_value(t.skip(1));
        assert(dec_value(s) == dec_value(t) * 10 + digit_val(s.last()));
        assert(dec_value(t) == a * p + r);
        assert((a * p + r) * 10 == a * p * 10 + r * 10) by (nonlinear_arith);
        assert(a * p * 10 == a * (10 * p)) by (nonlinear_arith);
        assert(pow10((s.len() - 1) as nat) == 10 * p);
        assert(dec_value(s) == a * pow10((s.len() - 1) as nat) + dec_value(s.skip(1)));
    }
}

/// On equal-length digit strings, dictionary order is numeric order.
pub proof fn lemma_lex_dec_value(a: Seq<char>, b: Seq<char>)
    requires
        is_digits(a),
        is_digits(b),
        a.len() == b.len(),
    ensures
        lex_le(a, b) <==> dec_value(a) <= dec_value(b),
    decreases a,
{
    if a.len() == 0 {
    } else {
        lemma_dec_value_front(a);
        lemma_dec_value_front(b);
        assert(is_digits(a.skip(1)) && is_digits(b.skip(1))) by {
            assert(forall|i: int| 0 <= i < a.len() - 1 ==> a.skip(1)[i] == #[trigger] a[i + 1]);
            assert(forall|i: int| 0 <= i < b.len() - 1 ==> b.skip(1)[i] == #[trigger] b[i + 1]);
        }
        lemma_lex_dec_value(a.skip(1), b.skip(1));
        lemma_dec_value_bound(a.skip(1));
        lemma_dec_value_bound(b.skip(1));
        lemma_pow10_pos((a.len() - 1) as nat);
        if a[0] == b[0] {
        } else {
            assert(digit_val(a[0]) != digit_val(b[0]));
            if digit_val(a[0]) < digit_val(b[0]) {
                assert(dec_value(a) <= dec_value(b)) by (nonlinear_arith)
                    requires
                        dec_value(a) == digit_val(a[0]) * pow10((a.len() - 1) as nat) + dec_value(
                            a.skip(1),
                        ),
                        dec_value(b) == digit_val(b[0]) * pow10((b.len() - 1) as nat) + dec_value(
                            b.skip(1),
                        ),
                        a.len() == b.len(),
                        a.len() >= 1,
                        digit_val(a[0]) + 1 <= digit_val(b[0]),
                        0 <= dec_value(a.skip(1)) < pow10((a.len() - 1) as nat),
                        0 <= dec_value(b.skip(1)),
                        pow10((a.len() - 1) as nat) >= 1,
                ;
            } else {
                assert(dec_value(b) < dec_value(a)) by (nonlinear_arith)
                    requires
                        dec_value(a) == digit_val(a[0]) * pow10((a.len() - 1) as nat) + dec_value(
                            a.skip(1),
                        ),
                        dec_value(b) == digit_val(b[0]) * pow10((b.len() - 1) as nat) + dec_value(
                            b.skip(1),
                        ),
                        a.len() == b.len(),
                        a.len() >= 1,
                        digit_val(b[0]) + 1 <= digit_val(a[0]),
                        0 <= dec_value(b.skip(1)) < pow10((b.len() - 1) as nat),
                        0 <= dec_value(a.skip(1)),
                        pow10((a.len() - 1) as nat) >= 1,
                ;
            }
        }
    }
}

/// Dictionary order on equal-length strings.
pub open spec fn lex_le(a: Seq<char>, b: Seq<char>) -> bool
    decreases a,
{
    if a.len() == 0 || b.len() == 0 {
        true
    } else if a[0] == b[0] {
        lex_le(a.skip(1), b.skip(1))
    } else {
        a[0] < b[0]
    }
}

/// Leading zeros do not change a digit string's value.
pub proof fn lemma_dec_value_strip_zero(s: Seq<char>)
    requires
        s.len() > 0,
        s[0] == '0',
    ensures
        dec_value(s.skip(1)) == dec_value(s),
{
    lemma_dec_value_front(s);
}

/// `pow10` grows with its exponent.
pub proof fn lemma_pow10_mono(m: nat, n: nat)
    requires
        m <= n,
    ensures
        pow10(m) <= pow10(n),
    decreases n,
{
    if m < n {
        lemma_pow10_mono(m, (n - 1) as nat);
        lemma_pow10_pos((n - 1) as nat);
    }
}

/// Concatenating digit strings shifts the front part by the back's length.
pub proof fn lemma_dec_value_concat(a: Seq<char>, b: Seq<char>)
    ensures
        dec_value(a + b) == dec_value(a) * pow10(b.len()) + dec_value(b),
    decreases b,
{
    if b.len() == 0 {
        assert(a + b =~= a);
    } else {
        lemma_dec_value_concat(a, b.drop_last());
        assert((a + b).drop_last() =~= a + b.drop_last());
        assert((a + b).last() == b.last());
        let va = dec_value(a);
        let p = pow10((b.len() - 1) as nat);
        assert(dec_value(a + b) == (va * p + dec_value(b.drop_last())) * 10 + digit_val(b.last()));
        assert((va * p + dec_value(b.drop_last())) * 10 == va * p * 10 + dec_value(b.drop_last())
            * 10) by (nonlinear_arith);
        assert(va * p * 10 == va * (10 * p)) by (nonlinear_arith);
        assert(pow10(b.len()) == 10 * p);
    }
}

/// Digit text with its leading zeros removed, though never emptied.
pub open spec fn strip0(t: Seq<char>) -> Seq<char>
    decreases t.len(),
{
    if t.len() > 1 && t[0] == '0' {
        strip0(t.skip(1))
    } else {
        t
    }
}

/// Stripping leading zeros keeps the digits, the value, and removes the
/// leading zero unless the value is zero itself.
pub proof fn lemma_strip0(t: Seq<char>)
    requires
        is_digits(t),
        t.len() > 0,
    ensures
        is_digits(strip0(t)),
        1 <= strip0(t).len() <= t.len(),
        strip0(t).len() > 1 ==> strip0(t)[0] != '0',
        dec_value(strip0(t)) == dec_value(t),
    decreases t.len(),
{
    if t.len() > 1 && t[0] == '0' {
        assert(is_digits(t.skip(1))) by {
            assert(forall|i: int| 0 <= i < t.len() - 1 ==> t.skip(1)[i] == #[trigger] t[i + 1]);
        }
        lemma_strip0(t.skip(1));
        lemma_dec_value_strip_zero(t);
    }
}

/// A string already in stripped form strips to itself.
pub proof fn lemma_strip0_identity(t: Seq<char>)
    requires
        t.len() > 0,
        t.len() > 1 ==> t[0] != '0',
    ensures
        strip0(t) == t,
{
}

// ---------------------------------------------------------------------------
// Hexadecimal
// ---------------------------------------------------------------------------
/// Is `c` a hexadecimal digit (either case)?
pub open spec fn is_hex_digit(c: char) -> bool {
    ('0' <= c && c <= '9') || ('a' <= c && c <= 'f') || ('A' <= c && c <= 'F')
}

/// The numeric value of a hexadecimal digit.
pub open spec fn hex_val(c: char) -> int {
    if '0' <= c && c <= '9' {
        c as int - '0' as int
    } else if 'a' <= c && c <= 'f' {
        c as int - 'a' as int + 10
    } else {
        c as int - 'A' as int + 10
    }
}

/// The lowercase hexadecimal digit for a value below 16.
pub open spec fn hex_char(v: int) -> char {
    if v < 10 {
        (('0' as int + v) as u8) as char
    } else {
        (('a' as int + v - 10) as u8) as char
    }
}

/// Is `s` entirely hexadecimal digits?
pub open spec fn is_hex_digits(s: Seq<char>) -> bool {
    forall|i: int| 0 <= i < s.len() ==> is_hex_digit(#[trigger] s[i])
}

/// The bytes denoted by an even-length hexadecimal string.
pub open spec fn hex_bytes(s: Seq<char>) -> Seq<u8> {
    Seq::new((s.len() / 2) as nat, |i: int| (hex_val(s[2 * i]) * 16 + hex_val(s[2 * i + 1])) as u8)
}

/// The lowercase hexadecimal text of a byte string.
pub open spec fn hex_text(b: Seq<u8>) -> Seq<char> {
    Seq::new(
        2 * b.len(),
        |i: int|
            if i % 2 == 0 {
                hex_char(b[i / 2] as int / 16)
            } else {
                hex_char(b[i / 2] as int % 16)
            },
    )
}

/// Writing bytes as lowercase hexadecimal and reading them back is the identity.
pub proof fn lemma_hex_round_trip(b: Seq<u8>)
    ensures
        is_hex_digits(hex_text(b)),
        hex_bytes(hex_text(b)) =~= b,
{
    assert forall|i: int| 0 <= i < 2 * b.len() implies is_hex_digit(#[trigger] hex_text(b)[i]) by {
        let v = if i % 2 == 0 {
            b[i / 2] as int / 16
        } else {
            b[i / 2] as int % 16
        };
        assert(0 <= v < 16);
    }
    assert forall|i: int| 0 <= i < b.len() implies #[trigger] hex_bytes(hex_text(b))[i] == b[i] by {
        let hi = b[i] as int / 16;
        let lo = b[i] as int % 16;
        assert(hex_text(b)[2 * i] == hex_char(hi));
        assert(hex_text(b)[2 * i + 1] == hex_char(lo));
        assert(hex_val(hex_char(hi)) == hi && hex_val(hex_char(lo)) == lo) by {
            assert(0 <= hi < 16 && 0 <= lo < 16);
        }
    }
}

/// One lowercase hexadecimal digit.
pub(crate) fn hex_digit_str(v: u8) -> (r: &'static str)
    requires
        v < 16,
    ensures
        r@ =~= seq![hex_char(v as int)],
{
    proof {
        reveal_strlit("0");
        reveal_strlit("1");
        reveal_strlit("2");
        reveal_strlit("3");
        reveal_strlit("4");
        reveal_strlit("5");
        reveal_strlit("6");
        reveal_strlit("7");
        reveal_strlit("8");
        reveal_strlit("9");
        reveal_strlit("a");
        reveal_strlit("b");
        reveal_strlit("c");
        reveal_strlit("d");
        reveal_strlit("e");
        reveal_strlit("f");
    }
    match v {
        0 => "0",
        1 => "1",
        2 => "2",
        3 => "3",
        4 => "4",
        5 => "5",
        6 => "6",
        7 => "7",
        8 => "8",
        9 => "9",
        10 => "a",
        11 => "b",
        12 => "c",
        13 => "d",
        14 => "e",
        _ => "f",
    }
}

// ---------------------------------------------------------------------------
// Unsigned 64-bit integers
// ---------------------------------------------------------------------------
/// What parsing a JSON integer literal as `u64` yields: its value, provided
/// the text is all digits and the value fits.
pub open spec fn u64_parse(t: Seq<char>) -> Option<u64> {
    if is_digits(t) && t.len() > 0 && dec_value(t) <= u64::MAX {
        Some(dec_value(t) as u64)
    } else {
        None
    }
}

/// The decimal text of a non-negative integer, without leading zeros.
pub open spec fn dec_text(n: int) -> Seq<char>
    decreases n,
    when n >= 0
{
    if n < 10 {
        seq![hex_char(n)]
    } else {
        dec_text(n / 10) + seq![hex_char(n % 10)]
    }
}

/// `dec_text` writes the canonical digit string of its argument.
pub proof fn lemma_dec_text(n: int)
    requires
        n >= 0,
    ensures
        is_digits(dec_text(n)),
        dec_text(n).len() > 0,
        n > 0 ==> dec_text(n)[0] != '0',
        n == 0 ==> dec_text(n) =~= seq!['0'],
        dec_value(dec_text(n)) == n,
    decreases n,
{
    if n < 10 {
        let c = hex_char(n);
        assert(dec_text(n) =~= seq![c]);
        assert(seq![c].drop_last() =~= Seq::<char>::empty());
        reveal_with_fuel(dec_value, 2);
        assert(dec_value(seq![c]) == digit_val(c));
    } else {
        lemma_dec_text(n / 10);
        let a = dec_text(n / 10);
        let c = hex_char(n % 10);
        let t = a + seq![c];
        assert(t.drop_last() =~= a);
        assert(t.last() == c);
        assert(dec_value(t) == dec_value(a) * 10 + digit_val(c));
        assert(digit_val(c) == n % 10);
        assert(dec_value(a) * 10 == (n / 10) * 10);
        assert(t[0] == a[0]);
        assert(is_digits(t)) by {
            assert(forall|i: int| 0 <= i < a.len() ==> t[i] == #[trigger] a[i]);
            assert(is_digit(c));
        }
    }
}

/// Parsing the decimal text of a value gives the value back: the quantity
/// codec round-trips.
pub proof fn lemma_u64_dec_round_trip(n: u64)
    ensures
        u64_parse(dec_text(n as int)) == Some(n),
{
    lemma_dec_text(n as int);
}

/// Parse a JSON integer literal as `u64`.
pub fn parse_u64(s: &str) -> (r: Option<u64>)
    ensures
        r == u64_parse(s@),
{
    let n = s.unicode_len();
    if n == 0 {
        return None;
    }
    let mut acc: u64 = 0;
    let mut i: usize = 0;
    while i < n
        invariant
            0 <= i <= n,
            n == s@.len(),
            forall|j: int| 0 <= j < i ==> is_digit(#[trigger] s@[j]),
            acc == dec_value(s@.take(i as int)),
        decreases n - i,
    {
        let c = s.get_char(i);
        if !('0' <= c && c <= '9') {
            assert(!is_digits(s@));
            return None;
        }
        let d = (c as u32 - '0' as u32) as u64;
        proof {
            lemma_dec_value_step(s@, i as int);
            assert(is_digits(s@.take(i as int + 1))) by {
                assert(forall|j: int|
                    0 <= j < i + 1 ==> s@.take(i as int + 1)[j] == #[trigger] s@[j]);
            }
        }
        if acc > 0xffffffffffffffff / 10 || (acc == 0xffffffffffffffff / 10 && d > 0xffffffffffffffff % 10) {
            proof {
                assert(dec_value(s@.take(i as int + 1)) > u64::MAX);
                lemma_dec_value_mono_digits(s@, i as int + 1);
            }
            return None;
        }
        acc = acc * 10 + d;
        i += 1;
    }
    proof {
        assert(s@.take(n as int) =~= s@);
        assert(is_digits(s@));
    }
    Some(acc)
}

/// When every character is a digit, the whole string's value is at least
/// any prefix's value.
proof fn lemma_dec_value_mono_digits(s: Seq<char>, i: int)
    requires
        0 <= i <= s.len(),
        forall|j: int| 0 <= j < i ==> is_digit(#[trigger] s[j]),
    ensures
        !is_digits(s) || dec_value(s) >= dec_value(s.take(i)),
{
    if is_digits(s) {
        lemma_dec_value_mono(s, i, s.len() as int);
        assert(s.take(s.len() as int) =~= s);
    }
}

/// The canonical decimal text of a `u64`.
pub fn u64_to_dec(n: u64) -> (r: String)
    ensures
        r@ == dec_text(n as int),
    decreases n,
{
    if n < 10 {
        let r = hex_digit_str(n as u8).to_owned();
        proof {
            assert(r@ =~= dec_text(n as int));
        }
        r
    } else {
        let mut s = u64_to_dec(n / 10);
        s.append(hex_digit_str((n % 10) as u8));
        proof {
            assert(s@ =~= dec_text(n as int / 10) + seq![hex_char(n as int % 10)]);
        }
        s
    }
}

// ---------------------------------------------------------------------------
// Character search
// ---------------------------------------------------------------------------
/// Position of the first occurrence of `c` in `s` at or after `from`.
pub open spec fn find_char(s: Seq<char>, c: char, from: int) -> Option<int>
    decreases s.len() - from,
    when 0 <= from <= s.len()
{
    if from == s.len() {
        None
    } else if s[from] == c {
        Some(from)
    } else {
        find_char(s, c, from + 1)
    }
}

/// `find_char` finds exactly the first occurrence.
pub proof fn lemma_find_char(s: Seq<char>, c: char, from: int)
    requires
        0 <= from <= s.len(),
    ensures
        match find_char(s, c, from) {
            Some(i) => from <= i < s.len() && s[i] == c && forall|j: int|
                from <= j < i ==> s[j] != c,
            None => forall|j: int| from <= j < s.len() ==> s[j] != c,
        },
    decreases s.len() - from,
{
    if from < s.len() && s[from] != c {
        lemma_find_char(s, c, from + 1);
    }
}

// ---------------------------------------------------------------------------
// Numeric-literal syntax
// ---------------------------------------------------------------------------
/// State machine over a numeric literal: optional sign, digits with an
/// optional point, optional exponent. These are the forms a price takes on
/// the wire, whether sent as a JSON number or quoted as a string.
pub open spec fn num_syntax_from(s: Seq<char>, i: int, st: int) -> bool
    decreases s.len() - i,
    when 0 <= i <= s.len()
{
    if i == s.len() {
        st == 2 || st == 4 || st == 7
    } else {
        let c = s[i];
        if st == 0 || st == 1 {
            if (c == '+' || c == '-') && st == 0 {
                num_syntax_from(s, i + 1, 1)
            } else if is_digit(c) {
                num_syntax_from(s, i + 1, 2)
            } else if c == '.' {
                num_syntax_from(s, i + 1, 3)
            } else {
                false
            }
        } else if st == 2 {
            if is_digit(c) {
                num_syntax_from(s, i + 1, 2)
            } else if c == '.' {
                num_syntax_from(s, i + 1, 4)
            } else if c == 'e' || c == 'E' {
                num_syntax_from(s, i + 1, 5)
            } else {
                false
            }
        } else if st == 3 {
            if is_digit(c) {
                num_syntax_from(s, i + 1, 4)
            } else {
                false
            }
        } else if st == 4 {
            if is_digit(c) {
                num_syntax_from(s, i + 1, 4)
            } else if c == 'e' || c == 'E' {
                num_syntax_from(s, i + 1, 5)
            } else {
                false
            }
        } else if st == 5 {
            if c == '+' || c == '-' {
                num_syntax_from(s, i + 1, 6)
            } else if is_digit(c) {
                num_syntax_from(s, i + 1, 7)
            } else {
                false
            }
        } else if st == 6 || st == 7 {
            if is_digit(c) {
                num_syntax_from(s, i + 1, 7)
            } else {
                false
            }
        } else {
            false
        }
    }
}

/// Does `s` read as a numeric literal?
pub open spec fn num_syntax(s: Seq<char>) -> bool {
    num_syntax_from(s, 0, 0)
}

/// Checks whether `s` reads as a numeric literal.
pub fn check_num_syntax(s: &str) -> (r: bool)
    ensures
        r == num_syntax(s@),
{
    let n = s.unicode_len();
    let mut i: usize = 0;
    let mut st: u8 = 0;
    while i < n
        invariant
            0 <= i <= n,
            n == s@.len(),
            st == 0 || st == 1 || st == 2 || st == 3 || st == 4 || st == 5 || st == 6 || st == 7,
            num_syntax(s@) == num_syntax_from(s@, i as int, st as int),
        decreases n - i,
    {
        let c = s.get_char(i);
        let next: u8 = if st == 0 || st == 1 {
            if (c == '+' || c == '-') && st == 0 {
                1
            } else if '0' <= c && c <= '9' {
                2
            } else if c == '.' {
                3
            } else {
                return false;
            }
        } else if st == 2 {
            if '0' <= c && c <= '9' {
                2
            } else if c == '.' {
                4
            } else if c == 'e' || c == 'E' {
                5
            } else {
                return false;
            }
        } else if st == 3 {
            if '0' <= c && c <= '9' {
                4
            } else {
                return false;
            }
        } else if st == 4 {
            if '0' <= c && c <= '9' {
                4
            } else if c == 'e' || c == 'E' {
                5
            } else {
                return false;
            }
        } else if st == 5 {
            if c == '+' || c == '-' {
                6
            } else if '0' <= c && c <= '9' {
                7
            } else {
                return false;
            }
        } else {
            if '0' <= c && c <= '9' {
                7
            } else {
                return false;
            }
        };
        i += 1;
        st = next;
    }
    st == 2 || st == 4 || st == 7
}

} // verus!

