use vstd::prelude::*;
use vstd::string::{StrSliceExecFns, StringExecFns};

verus! {

/// The character that stands for the digit `d` (0 to 15).
pub open spec fn digit_char(d: nat) -> char {
    "0123456789abcdef"@[d as int]
}

/// `n` written in base 16, lower case, without leading zeros.
pub open spec fn hex_text(n: nat) -> Seq<char>
    decreases n,
{
    if n < 16 {
        seq![digit_char(n)]
    } else {
        hex_text(n / 16).push(digit_char(n % 16))
    }
}

/// `n` written in base 10, without leading zeros.
pub open spec fn decimal_text(n: nat) -> Seq<char>
    decreases n,
{
    if n < 10 {
        seq![digit_char(n)]
    } else {
        decimal_text(n / 10).push(digit_char(n % 10))
    }
}

/// `text` with zeros put in front until it has at least `width` characters.
pub open spec fn zero_padded(text: Seq<char>, width: nat) -> Seq<char> {
    if text.len() >= width {
        text
    } else {
        Seq::new((width - text.len()) as nat, |i: int| '0') + text
    }
}

/// `n` written in base 16 where `hexadecimal` holds, in base 10 where it
/// does not.
pub open spec fn number_text(n: nat, hexadecimal: bool) -> Seq<char> {
    if hexadecimal {
        hex_text(n)
    } else {
        decimal_text(n)
    }
}

/// The one character that stands for the digit `d`, as a string.
fn digit(d: u64) -> (s: &'static str)
    requires
        d < 16,
    ensures
        s@ == seq![digit_char(d as nat)],
{
    proof {
        reveal_strlit("0123456789abcdef");
    }
    let at: usize = d as usize;
    let s = "0123456789abcdef".substring_ascii(at, at + 1);
    assert(s@ =~= seq![digit_char(d as nat)]);
    s
}

/// Writes `n` in base 16 or in base 10, without leading zeros.
fn digits(n: u64, hexadecimal: bool) -> (s: String)
    ensures
        s@ == number_text(n as nat, hexadecimal),
{
    let base: u64 = if hexadecimal {
        16
    } else {
        10
    };
    let mut cur: u64 = n;
    let mut s = String::new();
    assert(number_text(cur as nat, hexadecimal) + s@ =~= number_text(n as nat, hexadecimal));
    while cur >= base
        invariant
            base == if hexadecimal {
                16u64
            } else {
                10u64
            },
            number_text(n as nat, hexadecimal) == number_text(cur as nat, hexadecimal) + s@,
        decreases cur,
    {
        let d = digit(cur % base);
        let ghost rest = s@;
        s = String::from_str(d).concat(s.as_str());
        assert(number_text(cur as nat, hexadecimal) + rest =~= number_text(
            (cur / base) as nat,
            hexadecimal,
        ) + s@);
        cur = cur / base;
    }
    let s = String::from_str(digit(cur)).concat(s.as_str());
    assert(s@ =~= number_text(n as nat, hexadecimal));
    s
}

/// Writes `n` in base 16, in lower case, with zeros put in front until
/// there are at least `width` characters.
pub fn hex(n: u64, width: usize) -> (s: String)
    ensures
        s@ == zero_padded(hex_text(n as nat), width as nat),
{
    let s = digits(n, true);
    let mut len: usize = s.as_str().unicode_len();
    let mut zeros = String::new();
    assert(zeros@ =~= Seq::new(0, |i: int| '0'));
    while len < width
        invariant
            len == s@.len() + zeros@.len(),
            len <= width || zeros@.len() == 0,
            zeros@ == Seq::new(zeros@.len(), |i: int| '0'),
        decreases width - len,
    {
        proof {
            reveal_strlit("0");
        }
        zeros.append("0");
        len += 1;
        assert(zeros@ =~= Seq::new(zeros@.len(), |i: int| '0'));
    }
    zeros.concat(s.as_str())
}

/// Writes `n` in base 10.
pub fn decimal(n: u64) -> (s: String)
    ensures
        s@ == decimal_text(n as nat),
{
    digits(n, false)
}

} // verus!
