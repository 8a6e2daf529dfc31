//! Fixed-point quantities and their decimal text.
//!
//! Every calibrated value in this crate is a [`Measure`]: a signed count of
//! hundredths of the physical unit (percent, lux, degree). Two decimals is the
//! resolution the panel shows, so nothing finer is carried around.

use vstd::prelude::*;
use vstd::string::*;

verus! {

/// A quantity in hundredths of its unit: `Measure { hundredths: 5025 }` is 50.25.
#[derive(Clone, Copy, Debug, PartialEq, Eq, Structural)]
pub struct Measure {
    pub hundredths: i32,
}

/// The character that shows the decimal digit `d`.
pub open spec fn digit_char(d: int) -> char {
    if d == 0 {
        '0'
    } else if d == 1 {
        '1'
    } else if d == 2 {
        '2'
    } else if d == 3 {
        '3'
    } else if d == 4 {
        '4'
    } else if d == 5 {
        '5'
    } else if d == 6 {
        '6'
    } else if d == 7 {
        '7'
    } else if d == 8 {
        '8'
    } else {
        '9'
    }
}

/// The decimal digits of `n`, most significant first, without leading zeros
/// (`0` itself is the single digit `0`).
pub open spec fn decimal_digits(n: nat) -> Seq<char>
    decreases n,
{
    if n < 10 {
        seq![digit_char(n as int)]
    } else {
        decimal_digits(n / 10).push(digit_char((n % 10) as int))
    }
}

/// A number has at least one digit and no more digits than its value plus
/// one.
pub proof fn lemma_decimal_digits_len(n: nat)
    ensures
        1 <= decimal_digits(n).len() <= n + 1,
    decreases n,
{
    if n >= 10 {
        lemma_decimal_digits_len(n / 10);
    }
}

/// The absolute value of `h`.
pub open spec fn magnitude(h: int) -> nat {
    if h < 0 {
        (-h) as nat
    } else {
        h as nat
    }
}

/// `-` for a negative count of hundredths, nothing otherwise.
pub open spec fn sign_text(h: int) -> Seq<char> {
    if h < 0 {
        seq!['-']
    } else {
        Seq::<char>::empty()
    }
}

/// The text of `h` hundredths with exactly two decimals: `5000` is `50.00`,
/// `-5` is `-0.05`.
pub open spec fn fixed2_text(h: int) -> Seq<char> {
    let m = magnitude(h);
    sign_text(h) + decimal_digits(m / 100) + seq![
        '.',
        digit_char(((m / 10) % 10) as int),
        digit_char((m % 10) as int),
    ]
}

/// The shortest text of `h` hundredths that still has a decimal point and one
/// decimal: `5000` is `50.0`, `34310` is `343.1`, `1205` is `12.05`.
pub open spec fn compact_text(h: int) -> Seq<char> {
    let m = magnitude(h);
    let head = sign_text(h) + decimal_digits(m / 100) + seq![
        '.',
        digit_char(((m / 10) % 10) as int),
    ];
    if m % 10 == 0 {
        head
    } else {
        head.push(digit_char((m % 10) as int))
    }
}

/// The one-character text of the digit `d`.
fn digit_str(d: u32) -> (s: &'static str)
    requires
        d < 10,
    ensures
        s@ == seq![digit_char(d as int)],
{
    proof {
        reveal_strlit("0");
        reveal_strlit("1");
        reveal_strlit("2");
        reveal_strlit("3");
        reveal_strlit("4");
        reveal_strlit("5");
        reveal_strlit("6");
        reveal_strlit("7");
        reveal_strlit("8");
        reveal_strlit("9");
    }
    let s: &'static str = match d {
        0 => "0",
        1 => "1",
        2 => "2",
        3 => "3",
        4 => "4",
        5 => "5",
        6 => "6",
        7 => "7",
        8 => "8",
        _ => "9",
    };
    assert(s@ =~= seq![digit_char(d as int)]);
    s
}

/// Appends the decimal digits of `n` to `out`.
fn push_decimal(out: &mut String, n: u32)
    ensures
        final(out)@ == old(out)@ + decimal_digits(n as nat),
    decreases n,
{
    if n >= 10 {
        push_decimal(out, n / 10);
    }
    out.append(digit_str(n % 10));
    assert(out@ =~= old(out)@ + decimal_digits(n as nat));
}

impl Measure {
    /// The measure of `hundredths` hundredths.
    pub fn from_hundredths(hundredths: i32) -> (m: Self)
        ensures
            m.hundredths == hundredths,
    {
        Measure { hundredths }
    }

    /// Zero, the value every display field starts from.
    pub fn zero() -> (m: Self)
        ensures
            m.hundredths == 0,
    {
        Measure { hundredths: 0 }
    }

    /// The count of hundredths.
    pub fn hundredths(&self) -> (h: i32)
        ensures
            h == self.hundredths,
    {
        self.hundredths
    }

    /// The absolute count of hundredths.
    fn unsigned(&self) -> (m: u32)
        ensures
            m == magnitude(self.hundredths as int),
    {
        let wide: i64 = self.hundredths as i64;
        if wide < 0 {
            (-wide) as u32
        } else {
            wide as u32
        }
    }

    /// The value with exactly two decimals, as the panel shows it.
    pub fn fixed2(&self) -> (text: String)
        ensures
            text@ == fixed2_text(self.hundredths as int),
    {
        let m: u32 = self.unsigned();
        let mut text = String::new();
        if self.hundredths < 0 {
            text.append("-");
            proof {
                reveal_strlit("-");
            }
        }
        assert(text@ =~= sign_text(self.hundredths as int));
        push_decimal(&mut text, m / 100);
        text.append(".");
        text.append(digit_str((m / 10) % 10));
        text.append(digit_str(m % 10));
        proof {
            reveal_strlit(".");
            assert(text@ =~= fixed2_text(self.hundredths as int));
        }
        text
    }

    /// The value in its shortest form that keeps one decimal, as it is
    /// published.
    pub fn compact(&self) -> (text: String)
        ensures
            text@ == compact_text(self.hundredths as int),
    {
        let m: u32 = self.unsigned();
        let mut text = String::new();
        if self.hundredths < 0 {
            text.append("-");
            proof {
                reveal_strlit("-");
            }
        }
        assert(text@ =~= sign_text(self.hundredths as int));
        push_decimal(&mut text, m / 100);
        text.append(".");
        text.append(digit_str((m / 10) % 10));
        if m % 10 != 0 {
            text.append(digit_str(m % 10));
        }
        proof {
            reveal_strlit(".");
            assert(text@ =~= compact_text(self.hundredths as int));
        }
        text
    }
}

} // verus!
