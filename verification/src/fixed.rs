use vstd::prelude::*;

verus! {

/// A fixed-point number: a count of hundredths, so a `Fixed` with
/// `hundredths == v` stands for the real number `v / 100`. Every
/// distribution parameter is held in this form, which carries exactly
/// the two decimal places that the library displays.
#[derive(Clone, Copy, PartialEq, Eq, Structural, PartialOrd, Ord, Debug)]
pub struct Fixed {
    pub hundredths: i64,
}

impl View for Fixed {
    type V = int;

    open spec fn view(&self) -> int {
        self.hundredths as int
    }
}

/// The character for one decimal digit.
pub open spec fn digit_char(d: int) -> char {
    if d == 0 {
        '0'
    } else if d == 1 {
        '1'
    } else if d == 2 {
        '2'
    } else if d == 3 {
        '3'
    } else if d == 4 {
        '4'
    } else if d == 5 {
        '5'
    } else if d == 6 {
        '6'
    } else if d == 7 {
        '7'
    } else if d == 8 {
        '8'
    } else {
        '9'
    }
}

/// The decimal digits of `n`, most significant first, with no leading
/// zeros (a single `'0'` for zero itself).
pub open spec fn decimal_digits(n: nat) -> Seq<char>
    decreases n,
{
    if n < 10 {
        seq![digit_char(n as int)]
    } else {
        decimal_digits(n / 10) + seq![digit_char((n % 10) as int)]
    }
}

/// The canonical rendering of the fixed-point value `v` (a count of
/// hundredths): an optional minus sign, the integer part without
/// leading zeros, a decimal point, and exactly two fractional digits.
pub open spec fn fixed_chars(v: int) -> Seq<char> {
    let sign: Seq<char> = if v < 0 {
        seq!['-']
    } else {
        seq![]
    };
    let m = if v < 0 {
        -v
    } else {
        v
    };
    sign + decimal_digits((m / 100) as nat) + seq!['.', digit_char((m / 10) % 10), digit_char(
        m % 10,
    )]
}

/// Relies on std's `String::push`: appends exactly the given character.
#[verifier::external_body]
pub(crate) fn push_char(s: &mut String, c: char)
    ensures
        final(s)@ == old(s)@.push(c),
{
    s.push(c);
}

fn digit_to_char(d: u64) -> (c: char)
    requires
        d < 10,
    ensures
        c == digit_char(d as int),
{
    match d {
        0 => '0',
        1 => '1',
        2 => '2',
        3 => '3',
        4 => '4',
        5 => '5',
        6 => '6',
        7 => '7',
        8 => '8',
        _ => '9',
    }
}

/// Appends the decimal digits of `n` to `s`.
pub(crate) fn push_digits(s: &mut String, n: u64)
    ensures
        final(s)@ == old(s)@ + decimal_digits(n as nat),
    decreases n,
{
    if n < 10 {
        push_char(s, digit_to_char(n));
        assert(s@ =~= old(s)@ + decimal_digits(n as nat));
    } else {
        push_digits(s, n / 10);
        push_char(s, digit_to_char(n % 10));
        assert(s@ =~= old(s)@ + decimal_digits(n as nat));
    }
}

impl Fixed {
    /// The number `h / 100`.
    pub fn from_hundredths(h: i64) -> (r: Fixed)
        ensures
            r@ == h as int,
    {
        Fixed { hundredths: h }
    }

    /// The stored count of hundredths.
    pub fn hundredths(&self) -> (r: i64)
        ensures
            r as int == self@,
    {
        self.hundredths
    }

    /// Renders the value with exactly two decimal places.
    pub fn format(&self) -> (s: String)
        ensures
            s@ == fixed_chars(self@),
    {
        let mut s = String::new();
        let m: u64 = if self.hundredths < 0 {
            push_char(&mut s, '-');
            ((-(self.hundredths + 1)) as u64) + 1
        } else {
            self.hundredths as u64
        };
        assert(m as int == if self@ < 0 {
            -self@
        } else {
            self@
        });
        push_digits(&mut s, m / 100);
        push_char(&mut s, '.');
        push_char(&mut s, digit_to_char((m / 10) % 10));
        push_char(&mut s, digit_to_char(m % 10));
        assert(s@ =~= fixed_chars(self@));
        s
    }
}

} // verus!
