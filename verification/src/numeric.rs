//! Decimal wire numbers. The contract-method convention carries 128-bit and
//! 32-bit integers as decimal strings (not JSON numbers) to avoid precision
//! loss in JSON numeric literals; this module gives the exact meaning of such
//! a string and verified conversions in both directions.

use vstd::prelude::*;

verus! {

/// `c` is one of the ten ASCII decimal digits.
pub open spec fn is_dec_digit(c: char) -> bool {
    48 <= c as u32 && c as u32 <= 57
}

/// Numeric value of one decimal digit character.
pub open spec fn digit_value(c: char) -> nat {
    (c as u32 - 48) as nat
}

/// The digit character for `d`, which must be below ten.
pub open spec fn digit_char(d: nat) -> char {
    if d == 0 {
        '0'
    } else if d == 1 {
        '1'
    } else if d == 2 {
        '2'
    } else if d == 3 {
        '3'
    } else if d == 4 {
        '4'
    } else if d == 5 {
        '5'
    } else if d == 6 {
        '6'
    } else if d == 7 {
        '7'
    } else if d == 8 {
        '8'
    } else {
        '9'
    }
}

/// Every character of `s` is a decimal digit.
pub open spec fn all_dec_digits(s: Seq<char>) -> bool {
    forall|i: int| 0 <= i < s.len() ==> is_dec_digit(s[i])
}

/// The value of a digit string, most significant digit first.
pub open spec fn dec_value(s: Seq<char>) -> nat
    decreases s.len(),
{
    if s.len() == 0 {
        0
    } else {
        dec_value(s.drop_last()) * 10 + digit_value(s.last())
    }
}

/// The canonical decimal digit string of `v`: no sign, no leading zeros.
pub open spec fn dec_digits(v: nat) -> Seq<char>
    decreases v,
{
    if v < 10 {
        seq![digit_char(v)]
    } else {
        dec_digits(v / 10).push(digit_char(v % 10))
    }
}

/// The digits of a decimal string once an optional leading plus sign is
/// stripped, mirroring what the standard integer parsers accept.
pub open spec fn dec_body(s: Seq<char>) -> Seq<char> {
    if s.len() > 0 && s[0] == '+' {
        s.skip(1)
    } else {
        s
    }
}

/// `s` is a decimal string some 128-bit unsigned integer parser accepts:
/// an optional plus sign, then at least one digit, with a value in range.
pub open spec fn parses_as_u128(s: Seq<char>) -> bool {
    let b = dec_body(s);
    b.len() > 0 && all_dec_digits(b) && dec_value(b) <= u128::MAX
}

/// `s` is a decimal string a 32-bit unsigned integer parser accepts.
pub open spec fn parses_as_u32(s: Seq<char>) -> bool {
    let b = dec_body(s);
    b.len() > 0 && all_dec_digits(b) && dec_value(b) <= u32::MAX
}

/// Extending a digit prefix never lowers its value.
proof fn lemma_dec_value_prefix(s: Seq<char>, k: int)
    requires
        0 <= k <= s.len(),
    ensures
        dec_value(s) >= dec_value(s.take(k)),
    decreases s.len() - k,
{
    if k < s.len() {
        assert(s.take(k + 1).drop_last() =~= s.take(k));
        assert(dec_value(s.take(k + 1)) == dec_value(s.take(k)) * 10 + digit_value(s.take(
            k + 1,
        ).last()));
        assert(dec_value(s.take(k)) * 10 >= dec_value(s.take(k))) by (nonlinear_arith);
        lemma_dec_value_prefix(s, k + 1);
    } else {
        assert(s.take(k) =~= s);
    }
}

/// Parse the decimal content of a wire number string: an optional plus sign
/// and decimal digits, rejected exactly when malformed or out of the 128-bit
/// range.
pub fn parse_u128_dec(s: &str) -> (r: Option<u128>)
    ensures
        parses_as_u128(s@) ==> (r matches Some(v) && v == dec_value(dec_body(s@))),
        !parses_as_u128(s@) ==> r is None,
{
    let n = s.unicode_len();
    let start: usize = if n > 0 && s.get_char(0) == '+' {
        1
    } else {
        0
    };
    proof {
        if start == 1 {
            assert(dec_body(s@) =~= s@.skip(1));
        } else {
            assert(dec_body(s@) =~= s@);
        }
    }
    if n == start {
        return None;
    }
    let ghost body = dec_body(s@);
    let mut acc: u128 = 0;
    let mut i: usize = start;
    while i < n
        invariant
            start <= i <= n,
            n == s@.len(),
            start <= 1,
            body == dec_body(s@),
            body =~= s@.skip(start as int),
            all_dec_digits(s@.subrange(start as int, i as int)),
            acc == dec_value(s@.subrange(start as int, i as int)),
        decreases n - i,
    {
        let c = s.get_char(i);
        let cv = c as u32;
        if cv < 48 || cv > 57 {
            proof {
                assert(body[i - start] == s@[i as int]);
                assert(!is_dec_digit(body[i - start]));
            }
            return None;
        }
        let d: u128 = (cv - 48) as u128;
        let ghost pre = s@.subrange(start as int, i as int);
        let ghost post = s@.subrange(start as int, i as int + 1);
        proof {
            assert(post.drop_last() =~= pre);
            assert(post.last() == s@[i as int]);
        }
        if acc > (u128::MAX - d) / 10 {
            proof {
                assert(dec_value(post) == acc * 10 + d);
                assert(acc * 10 + d > u128::MAX) by (nonlinear_arith)
                    requires
                        acc > (u128::MAX - d) / 10,
                        d <= 9,
                ;
                assert(post =~= body.take(i - start + 1));
                lemma_dec_value_prefix(body, i - start + 1);
            }
            return None;
        }
        proof {
            assert(acc * 10 + d <= u128::MAX) by (nonlinear_arith)
                requires
                    acc <= (u128::MAX - d) / 10,
                    d <= 9,
            ;
        }
        acc = acc * 10 + d;
        i = i + 1;
    }
    proof {
        assert(s@.subrange(start as int, n as int) =~= body);
    }
    Some(acc)
}

/// How a 32-bit wire number string reads: its value, or the diagnostic the
/// standard parser reports — nothing to read, a character that is no digit,
/// or a value out of range. The first condition met, scanning left to
/// right, decides, as the standard parser does.
#[derive(Debug, PartialEq, Eq, Structural)]
pub enum U32Parse {
    Value(u32),
    EmptyInput,
    InvalidDigit,
    TooLarge,
}

/// Read the digits of `b` from position `i` with `acc` already read.
pub open spec fn u32_digits_read(b: Seq<char>, i: int, acc: int) -> U32Parse
    decreases b.len() - i,
{
    if i < 0 || i >= b.len() {
        U32Parse::Value(acc as u32)
    } else if !is_dec_digit(b[i]) {
        U32Parse::InvalidDigit
    } else if acc * 10 + digit_value(b[i]) > u32::MAX {
        U32Parse::TooLarge
    } else {
        u32_digits_read(b, i + 1, acc * 10 + digit_value(b[i]))
    }
}

/// How the whole wire string reads as a 32-bit value.
pub open spec fn u32_read(s: Seq<char>) -> U32Parse {
    if s.len() == 0 {
        U32Parse::EmptyInput
    } else if dec_body(s).len() == 0 {
        U32Parse::InvalidDigit
    } else {
        u32_digits_read(dec_body(s), 0, 0)
    }
}

/// Read a 32-bit wire number string, reporting exactly what the reading
/// specification says: the value, or which diagnostic applies.
pub fn parse_u32_wire(s: &str) -> (r: U32Parse)
    ensures
        r == u32_read(s@),
{
    let n = s.unicode_len();
    if n == 0 {
        return U32Parse::EmptyInput;
    }
    let start: usize = if s.get_char(0) == '+' {
        1
    } else {
        0
    };
    proof {
        if start == 1 {
            assert(dec_body(s@) =~= s@.skip(1));
        } else {
            assert(dec_body(s@) =~= s@);
        }
    }
    if n == start {
        return U32Parse::InvalidDigit;
    }
    let ghost body = dec_body(s@);
    let mut acc: u32 = 0;
    let mut i: usize = start;
    while i < n
        invariant
            start <= i <= n,
            n == s@.len(),
            start <= 1,
            body == dec_body(s@),
            body =~= s@.skip(start as int),
            body.len() > 0,
            u32_read(s@) == u32_digits_read(body, i - start, acc as int),
        decreases n - i,
    {
        let c = s.get_char(i);
        let cv = c as u32;
        proof {
            assert(body[i - start] == s@[i as int]);
        }
        if cv < 48 || cv > 57 {
            return U32Parse::InvalidDigit;
        }
        let d: u32 = cv - 48;
        if acc > (u32::MAX - d) / 10 {
            proof {
                assert(acc * 10 + d > u32::MAX) by (nonlinear_arith)
                    requires
                        acc > (u32::MAX - d) / 10,
                        d <= 9,
                ;
            }
            return U32Parse::TooLarge;
        }
        proof {
            assert(acc * 10 + d <= u32::MAX) by (nonlinear_arith)
                requires
                    acc <= (u32::MAX - d) / 10,
                    d <= 9,
            ;
        }
        acc = acc * 10 + d;
        i = i + 1;
    }
    U32Parse::Value(acc)
}

/// Parse the decimal content of a 32-bit wire number string.
pub fn parse_u32_dec(s: &str) -> (r: Option<u32>)
    ensures
        parses_as_u32(s@) ==> (r matches Some(v) && v == dec_value(dec_body(s@))),
        !parses_as_u32(s@) ==> r is None,
{
    match parse_u128_dec(s) {
        Some(v) => {
            if v <= u32::MAX as u128 {
                Some(v as u32)
            } else {
                None
            }
        },
        None => None,
    }
}

/// The one-character string for a digit below ten.
fn digit_str(d: u8) -> (r: &'static str)
    requires
        d < 10,
    ensures
        r@ =~= seq![digit_char(d as nat)],
{
    proof {
        reveal_strlit("0");
        reveal_strlit("1");
        reveal_strlit("2");
        reveal_strlit("3");
        reveal_strlit("4");
        reveal_strlit("5");
        reveal_strlit("6");
        reveal_strlit("7");
        reveal_strlit("8");
        reveal_strlit("9");
    }
    match d {
        0 => "0",
        1 => "1",
        2 => "2",
        3 => "3",
        4 => "4",
        5 => "5",
        6 => "6",
        7 => "7",
        8 => "8",
        _ => "9",
    }
}

/// Render `v` as its canonical decimal digit string.
pub fn u128_to_dec(v: u128) -> (r: String)
    ensures
        r@ == dec_digits(v as nat),
    decreases v,
{
    if v < 10 {
        String::from_str(digit_str(v as u8))
    } else {
        let mut s = u128_to_dec(v / 10);
        s.append(digit_str((v % 10) as u8));
        proof {
            assert(s@ =~= dec_digits((v / 10) as nat).push(digit_char((v % 10) as nat)));
        }
        s
    }
}

/// Render `v` as its canonical decimal digit string.
pub fn u64_to_dec(v: u64) -> (r: String)
    ensures
        r@ == dec_digits(v as nat),
{
    u128_to_dec(v as u128)
}

/// Render `v` as its canonical decimal digit string.
pub fn u32_to_dec(v: u32) -> (r: String)
    ensures
        r@ == dec_digits(v as nat),
{
    u128_to_dec(v as u128)
}

/// The canonical digit string of `v` really is made of digits, is never
/// empty, and starts with no sign.
proof fn lemma_dec_digits_shape(v: nat)
    ensures
        dec_digits(v).len() > 0,
        all_dec_digits(dec_digits(v)),
        dec_digits(v)[0] != '+',
    decreases v,
{
    if v < 10 {
    } else {
        lemma_dec_digits_shape(v / 10);
        assert(forall|i: int|
            0 <= i < dec_digits(v).len() ==> is_dec_digit(#[trigger] dec_digits(v)[i]));
    }
}

/// Reading the canonical digit string back gives the value it was made from.
proof fn lemma_dec_value_of_digits(v: nat)
    ensures
        dec_value(dec_digits(v)) == v,
    decreases v,
{
    if v < 10 {
        assert(dec_digits(v).drop_last() =~= Seq::<char>::empty());
        assert(dec_digits(v).last() == digit_char(v));
        assert(digit_value(digit_char(v)) == v);
        assert(dec_value(Seq::<char>::empty()) == 0);
        assert(dec_value(dec_digits(v)) == v);
    } else {
        lemma_dec_value_of_digits(v / 10);
        assert(dec_digits(v).drop_last() =~= dec_digits(v / 10));
        assert(dec_digits(v).last() == digit_char(v % 10));
        assert(digit_value(digit_char(v % 10)) == v % 10);
        assert(dec_value(dec_digits(v)) == (v / 10) * 10 + v % 10);
        assert((v / 10) * 10 + v % 10 == v) by (nonlinear_arith);
        assert(dec_value(dec_digits(v)) == v);
    }
}

/// Round trip for 128-bit wire numbers: encoding any value to its decimal
/// wire string and parsing that string back returns the value exactly.
pub proof fn lemma_u128_wire_round_trip(v: u128)
    ensures
        parses_as_u128(dec_digits(v as nat)),
        dec_value(dec_body(dec_digits(v as nat))) == v,
{
    lemma_dec_digits_shape(v as nat);
    lemma_dec_value_of_digits(v as nat);
    assert(dec_body(dec_digits(v as nat)) =~= dec_digits(v as nat));
}

/// Round trip for 32-bit wire numbers: encoding any value to its decimal
/// wire string and parsing that string back returns the value exactly.
pub proof fn lemma_u32_wire_round_trip(v: u32)
    ensures
        parses_as_u32(dec_digits(v as nat)),
        dec_value(dec_body(dec_digits(v as nat))) == v,
        u32_read(dec_digits(v as nat)) == U32Parse::Value(v),
{
    lemma_dec_digits_shape(v as nat);
    lemma_dec_value_of_digits(v as nat);
    assert(dec_body(dec_digits(v as nat)) =~= dec_digits(v as nat));
    lemma_u32_read_of_digits(dec_digits(v as nat), 0);
    assert(dec_digits(v as nat).take(0) =~= Seq::<char>::empty());
}

/// Reading a digit string whose value is in range yields exactly that value.
proof fn lemma_u32_read_of_digits(b: Seq<char>, i: int)
    requires
        0 <= i <= b.len(),
        b.len() > 0,
        all_dec_digits(b),
        dec_value(b) <= u32::MAX,
    ensures
        u32_digits_read(b, i, dec_value(b.take(i)) as int) == U32Parse::Value(dec_value(b) as u32),
    decreases b.len() - i,
{
    lemma_dec_value_prefix(b, i);
    if i < b.len() {
        lemma_dec_value_prefix(b, i + 1);
        assert(b.take(i + 1).drop_last() =~= b.take(i));
        assert(b.take(i + 1).last() == b[i]);
        assert(dec_value(b.take(i + 1)) == dec_value(b.take(i)) * 10 + digit_value(b[i]));
        lemma_u32_read_of_digits(b, i + 1);
    } else {
        assert(b.take(i) =~= b);
    }
}

} // verus!
