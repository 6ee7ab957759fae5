//! Decimal and hexadecimal text forms of the integers that the proof
//! messages are built from, together with verified conversions.

use vstd::prelude::*;

verus! {

/// The character standing for one digit value below 16.
pub open spec fn digit_char(d: nat) -> char {
    if d == 0 {
        '0'
    } else if d == 1 {
        '1'
    } else if d == 2 {
        '2'
    } else if d == 3 {
        '3'
    } else if d == 4 {
        '4'
    } else if d == 5 {
        '5'
    } else if d == 6 {
        '6'
    } else if d == 7 {
        '7'
    } else if d == 8 {
        '8'
    } else if d == 9 {
        '9'
    } else if d == 10 {
        'a'
    } else if d == 11 {
        'b'
    } else if d == 12 {
        'c'
    } else if d == 13 {
        'd'
    } else if d == 14 {
        'e'
    } else if d == 15 {
        'f'
    } else {
        '?'
    }
}

/// The value of a hexadecimal digit character; 16 for any other character.
pub open spec fn char_hex_val(c: char) -> nat {
    if c == '0' {
        0
    } else if c == '1' {
        1
    } else if c == '2' {
        2
    } else if c == '3' {
        3
    } else if c == '4' {
        4
    } else if c == '5' {
        5
    } else if c == '6' {
        6
    } else if c == '7' {
        7
    } else if c == '8' {
        8
    } else if c == '9' {
        9
    } else if c == 'a' {
        10
    } else if c == 'b' {
        11
    } else if c == 'c' {
        12
    } else if c == 'd' {
        13
    } else if c == 'e' {
        14
    } else if c == 'f' {
        15
    } else {
        16
    }
}

pub open spec fn is_hex_seq(s: Seq<char>) -> bool {
    forall|i: int| 0 <= i < s.len() ==> char_hex_val(#[trigger] s[i]) < 16
}

/// Decimal form of a natural number, most significant digit first.
pub open spec fn dec_of(n: nat) -> Seq<char>
    decreases n,
{
    if n < 10 {
        seq![digit_char(n)]
    } else {
        dec_of(n / 10).push(digit_char(n % 10))
    }
}

/// Decimal form of an integer, with a leading minus sign when negative.
pub open spec fn dec_of_int(n: int) -> Seq<char> {
    if n < 0 {
        seq!['-'] + dec_of((-n) as nat)
    } else {
        dec_of(n as nat)
    }
}

/// Hexadecimal form of `n` padded to exactly `w` digits (modulo `16^w`).
pub open spec fn hex_pad(n: nat, w: nat) -> Seq<char>
    decreases w,
{
    if w == 0 {
        Seq::<char>::empty()
    } else {
        hex_pad(n / 16, (w - 1) as nat).push(digit_char(n % 16))
    }
}

/// The number a sequence of hexadecimal digits denotes.
pub open spec fn hex_parse(s: Seq<char>) -> nat
    decreases s.len(),
{
    if s.len() == 0 {
        0
    } else {
        hex_parse(s.drop_last()) * 16 + char_hex_val(s.last())
    }
}

/// The number a sequence of decimal digits denotes.
pub open spec fn dec_parse(s: Seq<char>) -> nat
    decreases s.len(),
{
    if s.len() == 0 {
        0
    } else {
        dec_parse(s.drop_last()) * 10 + char_hex_val(s.last())
    }
}

pub open spec fn is_dec_seq(s: Seq<char>) -> bool {
    forall|i: int| 0 <= i < s.len() ==> char_hex_val(#[trigger] s[i]) < 10
}

/// What parsing a whole string as a `u64` yields: the denoted value when the
/// string is a non-empty run of decimal digits whose value fits, else nothing.
pub open spec fn dec_parse_u64(s: Seq<char>) -> Option<u64> {
    if s.len() == 0 || !is_dec_seq(s) || dec_parse(s) > u64::MAX {
        None
    } else {
        Some(dec_parse(s) as u64)
    }
}

/// Hexadecimal form of a byte sequence: two lowercase digits per byte.
pub open spec fn hex_of_bytes(bs: Seq<u8>) -> Seq<char> {
    Seq::new(
        bs.len() * 2,
        |i: int|
            if i % 2 == 0 {
                digit_char((bs[i / 2] as nat) / 16)
            } else {
                digit_char((bs[i / 2] as nat) % 16)
            },
    )
}

pub open spec fn char_repeat(c: char, n: nat) -> Seq<char> {
    Seq::new(n, |i: int| c)
}

/// Products grow with their factors.
pub proof fn lemma_mul_le(a: int, b: int, c: int, d: int)
    requires
        0 <= a <= c,
        0 <= b <= d,
    ensures
        a * b <= c * d,
{
    assert(a * b <= c * d) by (nonlinear_arith)
        requires
            0 <= a <= c,
            0 <= b <= d,
    ;
}

pub proof fn lemma_digit_char_val(d: nat)
    requires
        d < 16,
    ensures
        char_hex_val(digit_char(d)) == d,
        '0' <= digit_char(d) <= 'f',
{
}

pub proof fn lemma_hex_pad_len(n: nat, w: nat)
    ensures
        hex_pad(n, w).len() == w,
        is_hex_seq(hex_pad(n, w)),
    decreases w,
{
    if w > 0 {
        lemma_hex_pad_len(n / 16, (w - 1) as nat);
        lemma_digit_char_val(n % 16);
        assert forall|i: int| 0 <= i < w implies char_hex_val(#[trigger] hex_pad(n, w)[i])
            < 16 by {
            if i < w - 1 {
                assert(hex_pad(n, w)[i] == hex_pad(n / 16, (w - 1) as nat)[i]);
            }
        }
    }
}

pub proof fn lemma_hex_parse_bound(s: Seq<char>)
    requires
        is_hex_seq(s),
    ensures
        hex_parse(s) < vstd::arithmetic::power::pow(16, s.len()),
    decreases s.len(),
{
    vstd::arithmetic::power::lemma_pow_positive(16, s.len());
    if s.len() > 0 {
        assert forall|i: int| 0 <= i < s.drop_last().len() implies char_hex_val(
            #[trigger] s.drop_last()[i],
        ) < 16 by {
            assert(s.drop_last()[i] == s[i]);
        }
        lemma_hex_parse_bound(s.drop_last());
        assert(vstd::arithmetic::power::pow(16, s.len()) == 16 * vstd::arithmetic::power::pow(
            16,
            (s.len() - 1) as nat,
        )) by {
            vstd::arithmetic::power::lemma_pow1(16);
            vstd::arithmetic::power::lemma_pow_adds(16, 1, (s.len() - 1) as nat);
        }
        assert(char_hex_val(s.last()) <= 16);
    }
}

/// Parsing sixteen hex digits and padding the value back to sixteen digits
/// returns the original digits.
pub proof fn lemma_hex_pad_parse_id(s: Seq<char>)
    requires
        is_hex_seq(s),
    ensures
        hex_pad(hex_parse(s), s.len()) == s,
    decreases s.len(),
{
    if s.len() > 0 {
        let p = hex_parse(s.drop_last());
        let v = char_hex_val(s.last());
        assert(char_hex_val(s[s.len() - 1]) < 16);
        assert forall|i: int| 0 <= i < s.drop_last().len() implies char_hex_val(
            #[trigger] s.drop_last()[i],
        ) < 16 by {
            assert(s.drop_last()[i] == s[i]);
        }
        lemma_hex_pad_parse_id(s.drop_last());
        assert((p * 16 + v) % 16 == v && (p * 16 + v) / 16 == p) by {
            vstd::arithmetic::div_mod::lemma_fundamental_div_mod_converse(
                (p * 16 + v) as int,
                16,
                p as int,
                v as int,
            );
        }
        lemma_digit_char_found(s);
        assert(hex_pad(hex_parse(s), s.len()) =~= s);
    }
}

proof fn lemma_digit_char_found(s: Seq<char>)
    requires
        s.len() > 0,
        char_hex_val(s.last()) < 16,
    ensures
        digit_char(char_hex_val(s.last())) == s.last(),
{
}

/// The value of a digit run only grows as more digits follow.
pub proof fn lemma_dec_parse_prefix_monotone(s: Seq<char>, i: int, j: int)
    requires
        0 <= i <= j <= s.len(),
    ensures
        dec_parse(s.take(i)) <= dec_parse(s.take(j)),
    decreases j - i,
{
    if i < j {
        lemma_dec_parse_prefix_monotone(s, i, j - 1);
        assert(s.take(j).drop_last() =~= s.take(j - 1));
        assert(dec_parse(s.take(j)) == dec_parse(s.take(j - 1)) * 10 + char_hex_val(
            s.take(j).last(),
        ));
    }
}

pub proof fn lemma_hex_of_bytes_hex(bs: Seq<u8>)
    ensures
        hex_of_bytes(bs).len() == bs.len() * 2,
        is_hex_seq(hex_of_bytes(bs)),
        vstd::utf8::is_ascii_chars(hex_of_bytes(bs)),
{
    assert forall|i: int| 0 <= i < hex_of_bytes(bs).len() implies char_hex_val(
        #[trigger] hex_of_bytes(bs)[i],
    ) < 16 && '\0' <= hex_of_bytes(bs)[i] <= '\u{7f}' by {
        if i % 2 == 0 {
            lemma_digit_char_val((bs[i / 2] as nat) / 16);
        } else {
            lemma_digit_char_val((bs[i / 2] as nat) % 16);
        }
    }
}

/// Every run of hexadecimal digit characters is an ASCII character run.
pub proof fn lemma_hex_seq_ascii(s: Seq<char>)
    requires
        is_hex_seq(s),
    ensures
        vstd::utf8::is_ascii_chars(s),
{
    assert forall|i: int| 0 <= i < s.len() implies '\0' <= #[trigger] s[i] <= '\u{7f}' by {
        assert(char_hex_val(s[i]) < 16);
    }
}

/// The text of one digit value below 16.
pub fn digit_to_str(d: u8) -> (s: &'static str)
    requires
        d < 16,
    ensures
        s@ =~= seq![digit_char(d as nat)],
{
    if d == 0 {
        proof {
            reveal_strlit("0");
        }
        "0"
    } else if d == 1 {
        proof {
            reveal_strlit("1");
        }
        "1"
    } else if d == 2 {
        proof {
            reveal_strlit("2");
        }
        "2"
    } else if d == 3 {
        proof {
            reveal_strlit("3");
        }
        "3"
    } else if d == 4 {
        proof {
            reveal_strlit("4");
        }
        "4"
    } else if d == 5 {
        proof {
            reveal_strlit("5");
        }
        "5"
    } else if d == 6 {
        proof {
            reveal_strlit("6");
        }
        "6"
    } else if d == 7 {
        proof {
            reveal_strlit("7");
        }
        "7"
    } else if d == 8 {
        proof {
            reveal_strlit("8");
        }
        "8"
    } else if d == 9 {
        proof {
            reveal_strlit("9");
        }
        "9"
    } else if d == 10 {
        proof {
            reveal_strlit("a");
        }
        "a"
    } else if d == 11 {
        proof {
            reveal_strlit("b");
        }
        "b"
    } else if d == 12 {
        proof {
            reveal_strlit("c");
        }
        "c"
    } else if d == 13 {
        proof {
            reveal_strlit("d");
        }
        "d"
    } else if d == 14 {
        proof {
            reveal_strlit("e");
        }
        "e"
    } else {
        proof {
            reveal_strlit("f");
        }
        "f"
    }
}

/// Decimal text of a `u64`.
pub fn u64_to_dec(n: u64) -> (s: String)
    ensures
        s@ == dec_of(n as nat),
{
    let mut digits: Vec<u8> = Vec::new();
    let mut m: u64 = n;
    while m >= 10
        invariant
            forall|i: int| 0 <= i < digits@.len() ==> #[trigger] digits@[i] < 10,
            dec_of(n as nat) =~= dec_of(m as nat) + Seq::new(
                digits@.len(),
                |i: int| digit_char(digits@[digits@.len() - 1 - i] as nat),
            ),
        decreases m,
    {
        let ghost pre = digits@;
        let ghost m0 = m as nat;
        let d: u8 = (m % 10) as u8;
        digits.push(d);
        m = m / 10;
        proof {
            assert(dec_of(m0) == dec_of(m0 / 10).push(digit_char(m0 % 10)));
            assert(dec_of(m as nat) + Seq::new(
                digits@.len(),
                |i: int| digit_char(digits@[digits@.len() - 1 - i] as nat),
            ) =~= dec_of(m0) + Seq::new(
                pre.len(),
                |i: int| digit_char(pre[pre.len() - 1 - i] as nat),
            ));
        }
    }
    let ghost pre = digits@;
    let d_last: u8 = m as u8;
    digits.push(d_last);
    let ghost rev = Seq::new(
        digits@.len() as nat,
        |i: int| digit_char(digits@[digits@.len() - 1 - i] as nat),
    );
    proof {
        assert(dec_of(m as nat) =~= seq![digit_char(m as nat)]);
        assert(dec_of(n as nat) =~= rev);
    }
    let mut s = String::new();
    let mut j: usize = 0;
    while j < digits.len()
        invariant
            j <= digits@.len(),
            forall|i: int| 0 <= i < digits@.len() ==> #[trigger] digits@[i] < 10,
            rev == Seq::new(
                digits@.len() as nat,
                |i: int| digit_char(digits@[digits@.len() - 1 - i] as nat),
            ),
            dec_of(n as nat) == rev,
            s@ =~= rev.take(j as int),
        decreases digits@.len() - j,
    {
        let d = digits[digits.len() - 1 - j];
        let piece = digit_to_str(d);
        s.append(piece);
        proof {
            assert(s@ =~= rev.take(j + 1));
        }
        j = j + 1;
    }
    proof {
        assert(s@ =~= dec_of(n as nat));
    }
    s
}

/// Decimal text of a `u128`.
pub fn u128_to_dec(n: u128) -> (s: String)
    ensures
        s@ == dec_of(n as nat),
{
    let mut digits: Vec<u8> = Vec::new();
    let mut m: u128 = n;
    while m >= 10
        invariant
            forall|i: int| 0 <= i < digits@.len() ==> #[trigger] digits@[i] < 10,
            dec_of(n as nat) =~= dec_of(m as nat) + Seq::new(
                digits@.len(),
                |i: int| digit_char(digits@[digits@.len() - 1 - i] as nat),
            ),
        decreases m,
    {
        let ghost pre = digits@;
        let ghost m0 = m as nat;
        let d: u8 = (m % 10) as u8;
        digits.push(d);
        m = m / 10;
        proof {
            assert(dec_of(m0) == dec_of(m0 / 10).push(digit_char(m0 % 10)));
            assert(dec_of(m as nat) + Seq::new(
                digits@.len(),
                |i: int| digit_char(digits@[digits@.len() - 1 - i] as nat),
            ) =~= dec_of(m0) + Seq::new(
                pre.len(),
                |i: int| digit_char(pre[pre.len() - 1 - i] as nat),
            ));
        }
    }
    let ghost pre = digits@;
    let d_last: u8 = m as u8;
    digits.push(d_last);
    let ghost rev = Seq::new(
        digits@.len() as nat,
        |i: int| digit_char(digits@[digits@.len() - 1 - i] as nat),
    );
    proof {
        assert(dec_of(m as nat) =~= seq![digit_char(m as nat)]);
        assert(dec_of(n as nat) =~= rev);
    }
    let mut s = String::new();
    let mut j: usize = 0;
    while j < digits.len()
        invariant
            j <= digits@.len(),
            forall|i: int| 0 <= i < digits@.len() ==> #[trigger] digits@[i] < 10,
            rev == Seq::new(
                digits@.len() as nat,
                |i: int| digit_char(digits@[digits@.len() - 1 - i] as nat),
            ),
            dec_of(n as nat) == rev,
            s@ =~= rev.take(j as int),
        decreases digits@.len() - j,
    {
        let d = digits[digits.len() - 1 - j];
        let piece = digit_to_str(d);
        s.append(piece);
        proof {
            assert(s@ =~= rev.take(j + 1));
        }
        j = j + 1;
    }
    proof {
        assert(s@ =~= dec_of(n as nat));
    }
    s
}

/// Decimal text of an `i64`, signed.
pub fn i64_to_dec(n: i64) -> (s: String)
    ensures
        s@ == dec_of_int(n as int),
{
    if n >= 0 {
        u64_to_dec(n as u64)
    } else {
        let mag: u64 = if n == i64::MIN {
            9223372036854775808u64
        } else {
            (-n) as u64
        };
        let mut s = String::new();
        proof {
            reveal_strlit("-");
        }
        s.append("-");
        let rest = u64_to_dec(mag);
        s.append(rest.as_str());
        proof {
            assert(s@ =~= dec_of_int(n as int));
        }
        s
    }
}

/// Decimal text of a `usize`.
pub fn usize_to_dec(n: usize) -> (s: String)
    ensures
        s@ == dec_of(n as nat),
{
    u64_to_dec(n as u64)
}

/// Hexadecimal text of `n`, zero-padded to sixteen digits.
pub fn u64_to_hex16(n: u64) -> (s: String)
    ensures
        s@ == hex_pad(n as nat, 16),
{
    let mut digits: Vec<u8> = Vec::new();
    let mut m: u64 = n;
    let mut k: usize = 0;
    while k < 16
        invariant
            k <= 16,
            digits@.len() == k,
            forall|i: int| 0 <= i < k ==> #[trigger] digits@[i] < 16,
            hex_pad(n as nat, 16) =~= hex_pad(m as nat, (16 - k) as nat) + Seq::new(
                k as nat,
                |i: int| digit_char(digits@[k - 1 - i] as nat),
            ),
        decreases 16 - k,
    {
        let ghost old_digits = digits@;
        let d: u8 = (m % 16) as u8;
        digits.push(d);
        m = m / 16;
        k = k + 1;
        proof {
            assert(hex_pad(n as nat, 16) =~= hex_pad(m as nat, (16 - k) as nat) + Seq::new(
                k as nat,
                |i: int| digit_char(digits@[k - 1 - i] as nat),
            ));
        }
    }
    let ghost rev = Seq::new(16nat, |i: int| digit_char(digits@[15 - i] as nat));
    proof {
        assert(hex_pad(n as nat, 16) =~= rev);
    }
    let mut s = String::new();
    let mut j: usize = 0;
    while j < 16
        invariant
            j <= 16,
            digits@.len() == 16,
            forall|i: int| 0 <= i < 16 ==> #[trigger] digits@[i] < 16,
            rev == Seq::new(16nat, |i: int| digit_char(digits@[15 - i] as nat)),
            s@ =~= rev.take(j as int),
        decreases 16 - j,
    {
        let d = digits[15 - j];
        let piece = digit_to_str(d);
        s.append(piece);
        proof {
            assert(s@ =~= rev.take(j + 1));
        }
        j = j + 1;
    }
    proof {
        assert(s@ =~= hex_pad(n as nat, 16));
    }
    s
}

/// Hexadecimal text of a byte string, two lowercase digits per byte.
pub fn bytes_to_hex(bs: &Vec<u8>) -> (s: String)
    ensures
        s@ == hex_of_bytes(bs@),
{
    let mut s = String::new();
    let mut i: usize = 0;
    while i < bs.len()
        invariant
            i <= bs@.len(),
            s@ =~= hex_of_bytes(bs@).take(2 * i as int),
        decreases bs@.len() - i,
    {
        let b = bs[i];
        let hi = digit_to_str(b / 16);
        s.append(hi);
        let lo = digit_to_str(b % 16);
        s.append(lo);
        proof {
            assert(s@ =~= hex_of_bytes(bs@).take(2 * (i + 1)));
        }
        i = i + 1;
    }
    proof {
        assert(s@ =~= hex_of_bytes(bs@));
    }
    s
}

/// Parses a whole string as a decimal `u64`; mirrors `dec_parse_u64`.
pub fn parse_dec_u64(s: &str) -> (r: Option<u64>)
    ensures
        r == dec_parse_u64(s@),
{
    let n = s.unicode_len();
    if n == 0 {
        return None;
    }
    let mut acc: u64 = 0;
    let mut i: usize = 0;
    while i < n
        invariant
            n == s@.len(),
            0 < n,
            i <= n,
            is_dec_seq(s@.take(i as int)),
            acc == dec_parse(s@.take(i as int)),
        decreases n - i,
    {
        let c = s.get_char(i);
        let d: u64 = if c == '0' {
            0
        } else if c == '1' {
            1
        } else if c == '2' {
            2
        } else if c == '3' {
            3
        } else if c == '4' {
            4
        } else if c == '5' {
            5
        } else if c == '6' {
            6
        } else if c == '7' {
            7
        } else if c == '8' {
            8
        } else if c == '9' {
            9
        } else {
            proof {
                assert(char_hex_val(s@[i as int]) >= 10);
            }
            return None;
        };
        let wide: u128 = (acc as u128) * 10 + (d as u128);
        proof {
            assert(s@.take(i + 1).drop_last() =~= s@.take(i as int));
            assert(s@.take(i + 1).last() == s@[i as int]);
            assert(char_hex_val(s@[i as int]) == d);
        }
        if wide > u64::MAX as u128 {
            proof {
                lemma_dec_parse_prefix_monotone(s@, i + 1, s@.len() as int);
                assert(s@.take(s@.len() as int) =~= s@);
            }
            return None;
        }
        acc = wide as u64;
        i = i + 1;
    }
    proof {
        assert(s@.take(n as int) =~= s@);
    }
    Some(acc)
}

/// What parsing a whole string as a `usize` yields.
pub open spec fn dec_parse_usize(s: Seq<char>) -> Option<usize> {
    match dec_parse_u64(s) {
        Some(v) => if v <= usize::MAX {
            Some(v as usize)
        } else {
            None
        },
        None => None,
    }
}

/// Parses a whole string as a decimal `usize`; mirrors `dec_parse_usize`.
pub fn parse_dec_usize(s: &str) -> (r: Option<usize>)
    ensures
        r == dec_parse_usize(s@),
{
    match parse_dec_u64(s) {
        Some(v) => if v <= usize::MAX as u64 {
            Some(v as usize)
        } else {
            None
        },
        None => None,
    }
}

/// Sixteen hexadecimal digits exactly fill a 64-bit value.
pub proof fn lemma_pow16_u64()
    ensures
        vstd::arithmetic::power::pow(16, 16) == 0x10000000000000000,
{
    reveal_with_fuel(vstd::arithmetic::power::pow, 6);
    assert(vstd::arithmetic::power::pow(2, 4) == 16);
    vstd::arithmetic::power::lemma_pow_multiplies(2, 4, 16);
    vstd::arithmetic::power2::lemma_pow2(64);
    vstd::arithmetic::power2::lemma2_to64();
}

/// Parses the first `k` hexadecimal digits of `s` as a number.
pub fn parse_hex_prefix(s: &str, k: usize) -> (r: u64)
    requires
        k <= 16,
        k <= s@.len(),
        is_hex_seq(s@.take(k as int)),
    ensures
        r == hex_parse(s@.take(k as int)),
{
    let mut acc: u128 = 0;
    let mut i: usize = 0;
    while i < k
        invariant
            k <= 16,
            k <= s@.len(),
            is_hex_seq(s@.take(k as int)),
            i <= k,
            acc == hex_parse(s@.take(i as int)),
            acc <= 0xffffffffffffffff,
        decreases k - i,
    {
        let c = s.get_char(i);
        proof {
            assert(s@.take(k as int)[i as int] == s@[i as int]);
            assert(char_hex_val(s@[i as int]) < 16);
        }
        let d: u128 = if c == '0' {
            0
        } else if c == '1' {
            1
        } else if c == '2' {
            2
        } else if c == '3' {
            3
        } else if c == '4' {
            4
        } else if c == '5' {
            5
        } else if c == '6' {
            6
        } else if c == '7' {
            7
        } else if c == '8' {
            8
        } else if c == '9' {
            9
        } else if c == 'a' {
            10
        } else if c == 'b' {
            11
        } else if c == 'c' {
            12
        } else if c == 'd' {
            13
        } else if c == 'e' {
            14
        } else {
            15
        };
        acc = acc * 16 + d;
        i = i + 1;
        proof {
            assert(s@.take(i as int).drop_last() =~= s@.take(i - 1));
            assert(s@.take(i as int).last() == s@[i - 1]);
            assert forall|j: int| 0 <= j < i implies char_hex_val(#[trigger] s@.take(i as int)[j])
                < 16 by {
                assert(s@.take(k as int)[j] == s@.take(i as int)[j]);
            }
            lemma_hex_parse_bound(s@.take(i as int));
            vstd::arithmetic::power::lemma_pow_increases(16, i as nat, 16);
            lemma_pow16_u64();
        }
    }
    acc as u64
}

/// Whether two strings hold the same characters.
pub fn str_eq(a: &str, b: &str) -> (r: bool)
    ensures
        r == (a@ == b@),
{
    let la = a.unicode_len();
    let lb = b.unicode_len();
    if la != lb {
        return false;
    }
    let mut i: usize = 0;
    while i < la
        invariant
            la == a@.len(),
            lb == b@.len(),
            la == lb,
            i <= la,
            forall|j: int| 0 <= j < i ==> a@[j] == b@[j],
        decreases la - i,
    {
        if a.get_char(i) != b.get_char(i) {
            return false;
        }
        i = i + 1;
    }
    proof {
        assert(a@ =~= b@);
    }
    true
}

/// Whether `p` is a prefix of `s`.
pub fn str_starts_with(s: &str, p: &str) -> (r: bool)
    ensures
        r == (p@.len() <= s@.len() && s@.take(p@.len() as int) == p@),
{
    let ls = s.unicode_len();
    let lp = p.unicode_len();
    if lp > ls {
        return false;
    }
    let mut i: usize = 0;
    while i < lp
        invariant
            ls == s@.len(),
            lp == p@.len(),
            lp <= ls,
            i <= lp,
            forall|j: int| 0 <= j < i ==> s@[j] == p@[j],
        decreases lp - i,
    {
        if s.get_char(i) != p.get_char(i) {
            proof {
                assert(s@.take(p@.len() as int)[i as int] != p@[i as int]);
            }
            return false;
        }
        i = i + 1;
    }
    proof {
        assert(s@.take(p@.len() as int) =~= p@);
    }
    true
}

/// A run of `d` zero characters, the proof-of-work target text.
pub fn zeros_string(d: usize) -> (s: String)
    ensures
        s@ == char_repeat('0', d as nat),
{
    let mut s = String::new();
    let mut i: usize = 0;
    while i < d
        invariant
            i <= d,
            s@ =~= char_repeat('0', i as nat),
        decreases d - i,
    {
        s.append("0");
        proof {
            reveal_strlit("0");
            assert(s@ =~= char_repeat('0', (i + 1) as nat));
        }
        i = i + 1;
    }
    s
}

} // verus!
