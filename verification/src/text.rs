//! Decimal and hexadecimal rendering of numbers, and decimal parsing of a
//! block count.

use vstd::prelude::*;

verus! {

/// The ASCII digit for `d`, for `d < 10`.
pub open spec fn digit_char(d: int) -> char {
    if d == 0 {
        '0'
    } else if d == 1 {
        '1'
    } else if d == 2 {
        '2'
    } else if d == 3 {
        '3'
    } else if d == 4 {
        '4'
    } else if d == 5 {
        '5'
    } else if d == 6 {
        '6'
    } else if d == 7 {
        '7'
    } else if d == 8 {
        '8'
    } else {
        '9'
    }
}

/// The lower-case hexadecimal digit for `d`, for `d < 16`.
pub open spec fn hex_char(d: int) -> char {
    if d < 10 {
        digit_char(d)
    } else if d == 10 {
        'a'
    } else if d == 11 {
        'b'
    } else if d == 12 {
        'c'
    } else if d == 13 {
        'd'
    } else if d == 14 {
        'e'
    } else {
        'f'
    }
}

/// The decimal notation of `n`, without leading zeros.
pub open spec fn decimal(n: nat) -> Seq<char>
    decreases n,
{
    if n < 10 {
        seq![digit_char(n as int)]
    } else {
        decimal(n / 10) + seq![digit_char((n % 10) as int)]
    }
}

/// Whether `c` is one of the ASCII digits `0` to `9`.
pub open spec fn is_digit(c: char) -> bool {
    '0' <= c && c <= '9'
}

/// The value of the ASCII digit `c`.
pub open spec fn digit_value(c: char) -> int {
    c as int - '0' as int
}

/// Whether every character of `s` is an ASCII digit.
pub open spec fn all_digits(s: Seq<char>) -> bool {
    forall|i: int| 0 <= i < s.len() ==> is_digit(#[trigger] s[i])
}

/// The number that the digits `s` denote in base ten.
pub open spec fn digits_value(s: Seq<char>) -> nat
    decreases s.len(),
{
    if s.len() == 0 {
        0
    } else {
        (digits_value(s.drop_last()) * 10 + digit_value(s.last())) as nat
    }
}

/// `s` with one leading `+` taken off, if it has one.
pub open spec fn unsigned_body(s: Seq<char>) -> Seq<char> {
    if s.len() > 0 && s[0] == '+' {
        s.drop_first()
    } else {
        s
    }
}

/// The `u16` that `s` denotes: an optional `+` followed by at least one
/// ASCII digit, with a value at most `u16::MAX`; `None` for anything else
/// (empty text, signs other than one leading `+`, spaces, other characters,
/// values out of range).
pub open spec fn parse_u16_spec(s: Seq<char>) -> Option<u16> {
    let body = unsigned_body(s);
    if body.len() > 0 && all_digits(body) && digits_value(body) <= u16::MAX {
        Some(digits_value(body) as u16)
    } else {
        None
    }
}

/// The eight lower-case hexadecimal digits of `v`, most significant first.
pub open spec fn hex8(v: u32) -> Seq<char> {
    seq![
        hex_char((v / 0x1000_0000) as int % 16),
        hex_char((v / 0x100_0000) as int % 16),
        hex_char((v / 0x10_0000) as int % 16),
        hex_char((v / 0x1_0000) as int % 16),
        hex_char((v / 0x1000) as int % 16),
        hex_char((v / 0x100) as int % 16),
        hex_char((v / 0x10) as int % 16),
        hex_char(v as int % 16),
    ]
}

/// The value of a lower-case hexadecimal digit; -1 for any other character.
pub open spec fn hex_digit_value(c: char) -> int {
    if '0' <= c <= '9' {
        c as int - '0' as int
    } else if 'a' <= c <= 'f' {
        c as int - 'a' as int + 10
    } else {
        -1
    }
}

/// Each hexadecimal digit character reads back as its value.
proof fn lemma_hex_char_value(d: int)
    requires
        0 <= d < 16,
    ensures
        hex_digit_value(hex_char(d)) == d,
{
}

/// The eight hexadecimal digits of a number are lower-case hexadecimal
/// digits that read back, most significant first, as that number.
pub proof fn lemma_hex8_reads_back(v: u32)
    ensures
        hex8(v).len() == 8,
        forall|k: int| 0 <= k < 8 ==> 0 <= #[trigger] hex_digit_value(hex8(v)[k]) < 16,
        hex_digit_value(hex8(v)[0]) * 0x1000_0000 + hex_digit_value(hex8(v)[1]) * 0x100_0000
            + hex_digit_value(hex8(v)[2]) * 0x10_0000 + hex_digit_value(hex8(v)[3]) * 0x1_0000
            + hex_digit_value(hex8(v)[4]) * 0x1000 + hex_digit_value(hex8(v)[5]) * 0x100
            + hex_digit_value(hex8(v)[6]) * 0x10 + hex_digit_value(hex8(v)[7]) == v,
{
    let a = v / 0x1000_0000 % 16;
    let b = v / 0x100_0000 % 16;
    let c = v / 0x10_0000 % 16;
    let d = v / 0x1_0000 % 16;
    let e = v / 0x1000 % 16;
    let f = v / 0x100 % 16;
    let g = v / 0x10 % 16;
    let h = v % 16;
    lemma_hex_char_value(a as int);
    lemma_hex_char_value(b as int);
    lemma_hex_char_value(c as int);
    lemma_hex_char_value(d as int);
    lemma_hex_char_value(e as int);
    lemma_hex_char_value(f as int);
    lemma_hex_char_value(g as int);
    lemma_hex_char_value(h as int);
    assert(a * 0x1000_0000 + b * 0x100_0000 + c * 0x10_0000 + d * 0x1_0000 + e * 0x1000 + f
        * 0x100 + g * 0x10 + h == v) by (bit_vector)
        requires
            a == v / 0x1000_0000 % 16,
            b == v / 0x100_0000 % 16,
            c == v / 0x10_0000 % 16,
            d == v / 0x1_0000 % 16,
            e == v / 0x1000 % 16,
            f == v / 0x100 % 16,
            g == v / 0x10 % 16,
            h == v % 16,
    ;
}

/// The text of the hexadecimal digit `d`.
fn hex_digit_str(d: u32) -> (s: &'static str)
    requires
        d < 16,
    ensures
        s@ == seq![hex_char(d as int)],
{
    match d {
        0 => {
            proof {
                reveal_strlit("0");
            }
            "0"
        },
        1 => {
            proof {
                reveal_strlit("1");
            }
            "1"
        },
        2 => {
            proof {
                reveal_strlit("2");
            }
            "2"
        },
        3 => {
            proof {
                reveal_strlit("3");
            }
            "3"
        },
        4 => {
            proof {
                reveal_strlit("4");
            }
            "4"
        },
        5 => {
            proof {
                reveal_strlit("5");
            }
            "5"
        },
        6 => {
            proof {
                reveal_strlit("6");
            }
            "6"
        },
        7 => {
            proof {
                reveal_strlit("7");
            }
            "7"
        },
        8 => {
            proof {
                reveal_strlit("8");
            }
            "8"
        },
        9 => {
            proof {
                reveal_strlit("9");
            }
            "9"
        },
        10 => {
            proof {
                reveal_strlit("a");
            }
            "a"
        },
        11 => {
            proof {
                reveal_strlit("b");
            }
            "b"
        },
        12 => {
            proof {
                reveal_strlit("c");
            }
            "c"
        },
        13 => {
            proof {
                reveal_strlit("d");
            }
            "d"
        },
        14 => {
            proof {
                reveal_strlit("e");
            }
            "e"
        },
        _ => {
            proof {
                reveal_strlit("f");
            }
            "f"
        },
    }
}

/// Appends the decimal notation of `n` to `s`.
pub fn push_decimal(s: &mut String, n: u64)
    ensures
        final(s)@ == old(s)@ + decimal(n as nat),
    decreases n,
{
    if n >= 10 {
        push_decimal(s, n / 10);
        s.append(hex_digit_str((n % 10) as u32));
    } else {
        s.append(hex_digit_str(n as u32));
    }
}

/// The decimal notation of `n`.
pub fn decimal_string(n: u64) -> (s: String)
    ensures
        s@ == decimal(n as nat),
{
    let mut s = String::new();
    push_decimal(&mut s, n);
    s
}

/// Appends the eight lower-case hexadecimal digits of `v` to `s`.
pub fn push_hex8(s: &mut String, v: u32)
    ensures
        final(s)@ == old(s)@ + hex8(v),
{
    let ghost start = s@;
    s.append(hex_digit_str((v / 0x1000_0000) % 16));
    s.append(hex_digit_str((v / 0x100_0000) % 16));
    s.append(hex_digit_str((v / 0x10_0000) % 16));
    s.append(hex_digit_str((v / 0x1_0000) % 16));
    s.append(hex_digit_str((v / 0x1000) % 16));
    s.append(hex_digit_str((v / 0x100) % 16));
    s.append(hex_digit_str((v / 0x10) % 16));
    s.append(hex_digit_str(v % 16));
    assert(s@ =~= start + hex8(v));
}

/// The digits of a prefix of a run of digits never denote more than the
/// whole run.
proof fn lemma_digits_value_prefix(s: Seq<char>, k: int)
    requires
        all_digits(s),
        0 <= k <= s.len(),
    ensures
        digits_value(s.take(k)) <= digits_value(s),
    decreases s.len(),
{
    if k < s.len() {
        assert(all_digits(s.drop_last()));
        lemma_digits_value_prefix(s.drop_last(), k);
        assert(s.drop_last().take(k) =~= s.take(k));
        assert(is_digit(s[s.len() - 1]));
    } else {
        assert(s.take(k) =~= s);
    }
}

/// Parses a block count the way `u16::from_str` does: an optional `+`
/// followed by ASCII digits, the value at most `u16::MAX`.
pub fn parse_u16(s: &str) -> (r: Option<u16>)
    ensures
        r == parse_u16_spec(s@),
{
    let len = s.unicode_len();
    let mut i: usize = 0;
    if len > 0 && s.get_char(0) == '+' {
        i = 1;
    }
    let start = i;
    let ghost body = unsigned_body(s@);
    assert(body =~= s@.subrange(start as int, len as int));
    if start == len {
        return None;
    }
    let mut acc: u32 = 0;
    assert(s@.subrange(start as int, start as int) =~= Seq::<char>::empty());
    while i < len
        invariant
            start <= i <= len,
            len == s@.len(),
            body == s@.subrange(start as int, len as int),
            body == unsigned_body(s@),
            all_digits(s@.subrange(start as int, i as int)),
            acc == digits_value(s@.subrange(start as int, i as int)),
            acc <= u16::MAX,
        decreases len - i,
    {
        let c = s.get_char(i);
        if !('0' <= c && c <= '9') {
            assert(!is_digit(body[i - start]));
            return None;
        }
        let d: u32 = (c as u32) - ('0' as u32);
        let next: u32 = acc * 10 + d;
        let ghost prefix = s@.subrange(start as int, i + 1);
        assert(prefix.drop_last() =~= s@.subrange(start as int, i as int));
        assert(prefix.last() == c);
        assert(all_digits(prefix));
        assert(digits_value(prefix) == next);
        if next > 65535 {
            proof {
                if all_digits(body) {
                    assert(body.take(i + 1 - start) =~= prefix);
                    lemma_digits_value_prefix(body, i + 1 - start);
                }
            }
            return None;
        }
        acc = next;
        i += 1;
    }
    Some(acc as u16)
}

/// Each decimal digit character reads back as its value.
proof fn lemma_digit_char_value(d: int)
    requires
        0 <= d < 10,
    ensures
        is_digit(digit_char(d)),
        digit_value(digit_char(d)) == d,
{
}

/// The decimal notation of a number is a non-empty run of ASCII digits
/// that reads back as that number, with no leading zero unless the number
/// is zero itself (written `0`).
pub proof fn lemma_decimal_digits(n: nat)
    ensures
        decimal(n).len() > 0,
        forall|i: int| 0 <= i < decimal(n).len() ==> '0' <= #[trigger] decimal(n)[i] <= '9',
        all_digits(decimal(n)),
        digits_value(decimal(n)) == n,
        n > 0 ==> decimal(n)[0] != '0',
        n == 0 ==> decimal(n) == seq!['0'],
    decreases n,
{
    if n >= 10 {
        lemma_decimal_digits(n / 10);
        lemma_digit_char_value((n % 10) as int);
        let s = decimal(n);
        assert(s.drop_last() =~= decimal(n / 10));
        assert(s.last() == digit_char((n % 10) as int));
        assert(digits_value(s) == digits_value(decimal(n / 10)) * 10 + digit_value(s.last()));
        assert((n / 10) * 10 + n % 10 == n);
        assert forall|i: int| 0 <= i < s.len() implies is_digit(#[trigger] s[i]) by {
            if i < s.len() - 1 {
                assert(s[i] == decimal(n / 10)[i]);
            }
        }
        assert(s[0] == decimal(n / 10)[0]);
    } else {
        lemma_digit_char_value(n as int);
        assert(decimal(n).drop_last() =~= Seq::<char>::empty());
        assert(digits_value(decimal(n)) == digits_value(Seq::<char>::empty()) * 10 + digit_value(decimal(n).last()));
    }
}

/// What a block count without a leading `+` reads as: a non-empty run of
/// ASCII digits whose value fits in a `u16` reads as that value; empty
/// text, any other character (a space, a `-`, a letter) or a value above
/// `u16::MAX` reads as nothing.
pub proof fn lemma_parse_u16_unsigned(s: Seq<char>)
    requires
        s.len() == 0 || s[0] != '+',
    ensures
        s.len() == 0 ==> parse_u16_spec(s) is None,
        (exists|i: int| 0 <= i < s.len() && !('0' <= #[trigger] s[i] <= '9')) ==> parse_u16_spec(
            s,
        ) is None,
        digits_value(s) > 65535 ==> parse_u16_spec(s) is None,
        s.len() > 0 && (forall|i: int| 0 <= i < s.len() ==> '0' <= #[trigger] s[i] <= '9')
            && digits_value(s) <= 65535 ==> parse_u16_spec(s) == Some(digits_value(s) as u16),
{
    assert(unsigned_body(s) == s);
    if exists|i: int| 0 <= i < s.len() && !('0' <= #[trigger] s[i] <= '9') {
        let i = choose|i: int| 0 <= i < s.len() && !('0' <= #[trigger] s[i] <= '9');
        assert(!is_digit(s[i]));
    }
    if forall|i: int| 0 <= i < s.len() ==> '0' <= #[trigger] s[i] <= '9' {
        assert forall|i: int| 0 <= i < s.len() implies is_digit(#[trigger] s[i]) by {}
    }
}

/// One leading `+` does not change what a block count reads as, but a
/// second one makes it read as nothing.
pub proof fn lemma_parse_u16_plus(t: Seq<char>)
    ensures
        parse_u16_spec(seq!['+'] + t) == if t.len() > 0 && t[0] == '+' {
            None
        } else {
            parse_u16_spec(t)
        },
{
    let s = seq!['+'] + t;
    assert(s.drop_first() =~= t);
    assert(unsigned_body(s) == t);
    if t.len() > 0 && t[0] == '+' {
        assert(!is_digit(t[0]));
    } else {
        assert(unsigned_body(t) == t);
    }
}

/// Reading back the decimal text of a block count gives the same count:
/// parsing undoes `decimal_string` for every `u16`.
pub proof fn lemma_parse_decimal_roundtrip(v: u16)
    ensures
        parse_u16_spec(decimal(v as nat)) == Some(v),
{
    lemma_decimal_digits(v as nat);
    assert(is_digit(decimal(v as nat)[0]));
    assert(unsigned_body(decimal(v as nat)) == decimal(v as nat));
}

/// The text `a/b`, as in a progress counter or a threshold.
pub open spec fn ratio_text(a: nat, b: nat) -> Seq<char> {
    decimal(a) + seq!['/'] + decimal(b)
}

/// Writes `a/b`.
pub fn ratio_string(a: u64, b: u64) -> (s: String)
    ensures
        s@ == ratio_text(a as nat, b as nat),
{
    let mut s = String::new();
    push_decimal(&mut s, a);
    proof {
        reveal_strlit("/");
    }
    s.append("/");
    push_decimal(&mut s, b);
    s
}

} // verus!
