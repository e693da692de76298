//! Text forms of numbers and payload bytes, as the panels and error messages
//! show them.

use vstd::prelude::*;

verus! {

/// Lower-case hexadecimal digit of `n`.
pub open spec fn lower_digit(n: int) -> char {
    seq!['0', '1', '2', '3', '4', '5', '6', '7', '8', '9', 'a', 'b', 'c', 'd', 'e', 'f'][n]
}

/// Upper-case hexadecimal digit of `n`.
pub open spec fn upper_digit(n: int) -> char {
    seq!['0', '1', '2', '3', '4', '5', '6', '7', '8', '9', 'A', 'B', 'C', 'D', 'E', 'F'][n]
}

/// Two lower-case digits of a byte, high nibble first.
pub open spec fn byte_text(b: u8) -> Seq<char> {
    seq![lower_digit(b as int / 16), lower_digit(b as int % 16)]
}

/// Bytes as lower-case hex pairs with one space between neighbours.
pub open spec fn hex_text(data: Seq<u8>) -> Seq<char>
    decreases data.len(),
{
    if data.len() == 0 {
        seq![]
    } else if data.len() == 1 {
        byte_text(data[0])
    } else {
        hex_text(data.drop_last()) + seq![' '] + byte_text(data.last())
    }
}

/// `v` in decimal, without leading zeros.
pub open spec fn decimal_text(v: nat) -> Seq<char>
    decreases v,
{
    if v < 10 {
        seq![upper_digit(v as int)]
    } else {
        decimal_text(v / 10).push(upper_digit((v % 10) as int))
    }
}

/// `v` in upper-case hexadecimal, without leading zeros.
pub open spec fn upper_text(v: nat) -> Seq<char>
    decreases v,
{
    if v < 16 {
        seq![upper_digit(v as int)]
    } else {
        upper_text(v / 16).push(upper_digit((v % 16) as int))
    }
}

/// Two upper-case digits of a byte.
pub open spec fn upper2_text(v: u8) -> Seq<char> {
    seq![upper_digit(v as int / 16), upper_digit(v as int % 16)]
}

/// Four upper-case digits of a 16-bit value.
pub open spec fn upper4_text(v: u16) -> Seq<char> {
    seq![
        upper_digit(v as int / 4096),
        upper_digit(v as int / 256 % 16),
        upper_digit(v as int / 16 % 16),
        upper_digit(v as int % 16),
    ]
}

fn lower_digit_str(n: u8) -> (s: &'static str)
    requires
        n < 16,
    ensures
        s@ == seq![lower_digit(n as int)],
{
    proof {
        reveal_strlit("0");
        reveal_strlit("1");
        reveal_strlit("2");
        reveal_strlit("3");
        reveal_strlit("4");
        reveal_strlit("5");
        reveal_strlit("6");
        reveal_strlit("7");
        reveal_strlit("8");
        reveal_strlit("9");
        reveal_strlit("a");
        reveal_strlit("b");
        reveal_strlit("c");
        reveal_strlit("d");
        reveal_strlit("e");
        reveal_strlit("f");
    }
    match n {
        0 => "0",
        1 => "1",
        2 => "2",
        3 => "3",
        4 => "4",
        5 => "5",
        6 => "6",
        7 => "7",
        8 => "8",
        9 => "9",
        10 => "a",
        11 => "b",
        12 => "c",
        13 => "d",
        14 => "e",
        _ => "f",
    }
}

fn upper_digit_str(n: u8) -> (s: &'static str)
    requires
        n < 16,
    ensures
        s@ == seq![upper_digit(n as int)],
{
    proof {
        reveal_strlit("0");
        reveal_strlit("1");
        reveal_strlit("2");
        reveal_strlit("3");
        reveal_strlit("4");
        reveal_strlit("5");
        reveal_strlit("6");
        reveal_strlit("7");
        reveal_strlit("8");
        reveal_strlit("9");
        reveal_strlit("A");
        reveal_strlit("B");
        reveal_strlit("C");
        reveal_strlit("D");
        reveal_strlit("E");
        reveal_strlit("F");
    }
    match n {
        0 => "0",
        1 => "1",
        2 => "2",
        3 => "3",
        4 => "4",
        5 => "5",
        6 => "6",
        7 => "7",
        8 => "8",
        9 => "9",
        10 => "A",
        11 => "B",
        12 => "C",
        13 => "D",
        14 => "E",
        _ => "F",
    }
}

/// Lower-case, space-separated hex of a payload (`"11 22 aa"`).
pub fn hex(data: &[u8]) -> (s: String)
    ensures
        s@ == hex_text(data@),
{
    let mut s: String = String::new();
    let n: usize = data.len();
    for i in 0..n
        invariant
            n == data@.len(),
            s@ == hex_text(data@.take(i as int)),
    {
        let b: u8 = data[i];
        if i > 0 {
            s.append(" ");
        }
        s.append(lower_digit_str(b / 16));
        s.append(lower_digit_str(b % 16));
        proof {
            reveal_strlit(" ");
            let next = data@.take(i as int + 1);
            assert(next.drop_last() =~= data@.take(i as int));
            assert(next.last() == b);
            assert(s@ =~= hex_text(next));
        }
    }
    proof {
        assert(data@.take(n as int) =~= data@);
    }
    s
}

/// Appends two upper-case hex digits (`0F`).
pub fn push_upper2(s: &mut String, v: u8)
    ensures
        final(s)@ == old(s)@ + upper2_text(v),
{
    s.append(upper_digit_str(v / 16));
    s.append(upper_digit_str(v % 16));
    assert(s@ =~= old(s)@ + upper2_text(v));
}

/// Appends four upper-case hex digits (`00FF`).
pub fn push_upper4(s: &mut String, v: u16)
    ensures
        final(s)@ == old(s)@ + upper4_text(v),
{
    s.append(upper_digit_str((v / 4096) as u8));
    s.append(upper_digit_str((v / 256 % 16) as u8));
    s.append(upper_digit_str((v / 16 % 16) as u8));
    s.append(upper_digit_str((v % 16) as u8));
    assert(s@ =~= old(s)@ + upper4_text(v));
}

/// Appends `v` in upper-case hex, without leading zeros.
pub fn push_upper(s: &mut String, v: u32)
    ensures
        final(s)@ == old(s)@ + upper_text(v as nat),
    decreases v,
{
    if v >= 16 {
        push_upper(s, v / 16);
    }
    s.append(upper_digit_str((v % 16) as u8));
    assert(s@ =~= old(s)@ + upper_text(v as nat));
}

/// Appends `v` in decimal.
pub fn push_decimal(s: &mut String, v: u64)
    ensures
        final(s)@ == old(s)@ + decimal_text(v as nat),
    decreases v,
{
    if v >= 10 {
        push_decimal(s, v / 10);
    }
    s.append(upper_digit_str((v % 10) as u8));
    assert(s@ =~= old(s)@ + decimal_text(v as nat));
}

/// Payload text is three characters per byte, less the last separator.
pub proof fn hex_text_layout(data: Seq<u8>)
    ensures
        hex_text(data).len() == (if data.len() == 0 { 0 } else { 3 * data.len() - 1 }),
        forall|i: int| #![trigger data[i]] 0 <= i < data.len() ==> {
            &&& hex_text(data)[3 * i] == lower_digit(data[i] as int / 16)
            &&& hex_text(data)[3 * i + 1] == lower_digit(data[i] as int % 16)
            &&& i + 1 < data.len() ==> hex_text(data)[3 * i + 2] == ' '
        },
    decreases data.len(),
{
    if data.len() > 1 {
        let init = data.drop_last();
        hex_text_layout(init);
        let n = data.len() as int;
        assert forall|i: int| #![trigger data[i]] 0 <= i < n implies {
            &&& hex_text(data)[3 * i] == lower_digit(data[i] as int / 16)
            &&& hex_text(data)[3 * i + 1] == lower_digit(data[i] as int % 16)
            &&& i + 1 < n ==> hex_text(data)[3 * i + 2] == ' '
        } by {
            if i < n - 1 {
                assert(init[i] == data[i]);
            }
        }
    }
}

/// Two payloads with the same text are the same payload.
pub proof fn hex_text_tells_payloads_apart(a: Seq<u8>, b: Seq<u8>)
    requires
        hex_text(a) == hex_text(b),
    ensures
        a == b,
{
    hex_text_layout(a);
    hex_text_layout(b);
    assert(a.len() == b.len());
    assert forall|i: int| 0 <= i < a.len() implies a[i] == b[i] by {
        let (x, y) = (a[i] as int, b[i] as int);
        assert(lower_digit(x / 16) == lower_digit(y / 16));
        assert(lower_digit(x % 16) == lower_digit(y % 16));
        lower_digit_injective(x / 16, y / 16);
        lower_digit_injective(x % 16, y % 16);
    }
    assert(a =~= b);
}

proof fn lower_digit_injective(m: int, n: int)
    requires
        0 <= m < 16,
        0 <= n < 16,
        lower_digit(m) == lower_digit(n),
    ensures
        m == n,
{
}

/// The value of a digit, of either case.
pub open spec fn digit_value(c: char) -> int {
    if '0' <= c && c <= '9' {
        c as int - '0' as int
    } else if 'A' <= c && c <= 'F' {
        c as int - 'A' as int + 10
    } else {
        c as int - 'a' as int + 10
    }
}

/// The number that digits stand for in a base, the highest first.
pub open spec fn read_number(digits: Seq<char>, base: int) -> int
    decreases digits.len(),
{
    if digits.len() == 0 {
        0
    } else {
        read_number(digits.drop_last(), base) * base + digit_value(digits.last())
    }
}

/// A decimal text reads back as its number, holds decimal digits only, and has no
/// leading zero but for the number zero.
pub proof fn decimal_reads_back(v: nat)
    ensures
        read_number(decimal_text(v), 10) == v,
        decimal_text(v).len() > 0,
        forall|i: int|
            #![trigger decimal_text(v)[i]]
            0 <= i < decimal_text(v).len() ==> '0' <= decimal_text(v)[i] && decimal_text(v)[i]
                <= '9',
        v > 0 ==> decimal_text(v)[0] != '0',
    decreases v,
{
    reveal_with_fuel(read_number, 2);
    if v >= 10 {
        decimal_reads_back(v / 10);
        let init = decimal_text(v / 10);
        assert(decimal_text(v).drop_last() =~= init);
        assert(decimal_text(v)[0] == init[0]);
        assert forall|i: int| #![trigger decimal_text(v)[i]] 0 <= i < decimal_text(v).len() implies
            '0' <= decimal_text(v)[i] && decimal_text(v)[i] <= '9' by {
            if i < init.len() {
                assert(decimal_text(v)[i] == init[i]);
            }
        }
    } else {
        assert(decimal_text(v).drop_last() =~= seq![]);
    }
}

/// A hexadecimal text reads back as its number, holds upper-case digits only, and has no
/// leading zero but for the number zero.
pub proof fn hexadecimal_reads_back(v: nat)
    ensures
        read_number(upper_text(v), 16) == v,
        upper_text(v).len() > 0,
        forall|i: int|
            #![trigger upper_text(v)[i]]
            0 <= i < upper_text(v).len() ==> is_upper_hex(upper_text(v)[i]),
        v > 0 ==> upper_text(v)[0] != '0',
    decreases v,
{
    reveal_with_fuel(read_number, 2);
    if v >= 16 {
        hexadecimal_reads_back(v / 16);
        let init = upper_text(v / 16);
        assert(upper_text(v).drop_last() =~= init);
        assert(upper_text(v)[0] == init[0]);
        assert forall|i: int| #![trigger upper_text(v)[i]] 0 <= i < upper_text(v).len() implies
            is_upper_hex(upper_text(v)[i]) by {
            if i < init.len() {
                assert(upper_text(v)[i] == init[i]);
            }
        }
    } else {
        assert(upper_text(v).drop_last() =~= seq![]);
    }
}

/// An upper-case hexadecimal digit.
pub open spec fn is_upper_hex(c: char) -> bool {
    ('0' <= c && c <= '9') || ('A' <= c && c <= 'F')
}

/// A lower-case hexadecimal digit.
pub open spec fn is_lower_hex(c: char) -> bool {
    ('0' <= c && c <= '9') || ('a' <= c && c <= 'f')
}

/// Padded texts have their width, hold upper-case digits, and read back as their number.
pub proof fn padded_reads_back(b: u8, w: u16)
    ensures
        upper2_text(b).len() == 2,
        upper4_text(w).len() == 4,
        forall|i: int| 0 <= i < 2 ==> is_upper_hex(#[trigger] upper2_text(b)[i]),
        forall|i: int| 0 <= i < 4 ==> is_upper_hex(#[trigger] upper4_text(w)[i]),
        digit_value(upper2_text(b)[0]) * 16 + digit_value(upper2_text(b)[1]) == b,
        digit_value(upper4_text(w)[0]) * 4096 + digit_value(upper4_text(w)[1]) * 256
            + digit_value(upper4_text(w)[2]) * 16 + digit_value(upper4_text(w)[3]) == w,
{
    let n = w as int;
    assert(n == n / 4096 * 4096 + n / 256 % 16 * 256 + n / 16 % 16 * 16 + n % 16);
}

/// Every payload byte can be read off its text: two lower-case digits each, with a space
/// between neighbours and nothing else.
pub proof fn payload_reads_back(data: Seq<u8>, i: int)
    requires
        0 <= i < data.len(),
    ensures
        hex_text(data).len() == 3 * data.len() - 1,
        is_lower_hex(hex_text(data)[3 * i]),
        is_lower_hex(hex_text(data)[3 * i + 1]),
        digit_value(hex_text(data)[3 * i]) * 16 + digit_value(hex_text(data)[3 * i + 1])
            == data[i],
        i + 1 < data.len() ==> hex_text(data)[3 * i + 2] == ' ',
{
    hex_text_layout(data);
    let b = data[i] as int;
    assert(0 <= b / 16 < 16 && 0 <= b % 16 < 16);
}

} // verus!
