use vstd::prelude::*;
use crate::fixed::Fixed;
use crate::fixed::decimal_digits;
use crate::fixed::digit_char;
use crate::fixed::fixed_chars;

verus! {

use vstd::string::StrSliceExecFns;

/// Whether `c` is a decimal digit.
pub open spec fn is_digit(c: char) -> bool {
    48 <= c as u32 && c as u32 <= 57
}

/// The numeric value of a decimal digit.
pub open spec fn digit_val(c: char) -> int {
    c as u32 - 48
}

/// Whether every character of `s` is a decimal digit.
pub open spec fn all_digits(s: Seq<char>) -> bool {
    forall|i: int| 0 <= i < s.len() ==> is_digit(#[trigger] s[i])
}

/// The number the digit string `s` denotes, most significant digit
/// first.
pub open spec fn digits_val(s: Seq<char>) -> int
    decreases s.len(),
{
    if s.len() == 0 {
        0
    } else {
        digits_val(s.drop_last()) * 10 + digit_val(s.last())
    }
}

/// The position of the first `'.'` in `s`, if any.
pub open spec fn first_dot(s: Seq<char>) -> Option<int>
    decreases s.len(),
{
    if s.len() == 0 {
        None
    } else if s[0] == '.' {
        Some(0int)
    } else {
        match first_dot(s.drop_first()) {
            Some(i) => Some(i + 1),
            None => None,
        }
    }
}

/// The count of hundredths that a fractional part of one or two digits
/// contributes.
pub open spec fn fraction_val(f: Seq<char>) -> int {
    if f.len() == 1 {
        digit_val(f[0]) * 10
    } else {
        digit_val(f[0]) * 10 + digit_val(f[1])
    }
}

/// The count of hundredths an unsigned decimal numeral denotes:
/// one or more digits, optionally followed by a point and one or two
/// fractional digits. Anything else denotes nothing.
pub open spec fn unsigned_value(s: Seq<char>) -> Option<int> {
    match first_dot(s) {
        None => if s.len() > 0 && all_digits(s) {
            Some(digits_val(s) * 100)
        } else {
            None
        },
        Some(k) => {
            let ip = s.take(k);
            let fp = s.skip(k + 1);
            if ip.len() > 0 && all_digits(ip) && 1 <= fp.len() <= 2 && all_digits(fp) {
                Some(digits_val(ip) * 100 + fraction_val(fp))
            } else {
                None
            }
        },
    }
}

/// The count of hundredths a decimal numeral denotes, with an optional
/// leading sign.
pub open spec fn parse_value(s: Seq<char>) -> Option<int> {
    if s.len() > 0 && (s[0] == '-' || s[0] == '+') {
        match unsigned_value(s.drop_first()) {
            Some(v) => Some(
                if s[0] == '-' {
                    -v
                } else {
                    v
                },
            ),
            None => None,
        }
    } else {
        unsigned_value(s)
    }
}

proof fn lemma_digits_val_nonneg(s: Seq<char>)
    requires
        all_digits(s),
    ensures
        digits_val(s) >= 0,
    decreases s.len(),
{
    if s.len() > 0 {
        assert(all_digits(s.drop_last()));
        lemma_digits_val_nonneg(s.drop_last());
    }
}

proof fn lemma_digits_val_prefix_le(s: Seq<char>, i: int)
    requires
        all_digits(s),
        0 <= i <= s.len(),
    ensures
        digits_val(s.take(i)) <= digits_val(s),
    decreases s.len() - i,
{
    if i == s.len() {
        assert(s.take(i) =~= s);
    } else {
        assert(s.take(i + 1).drop_last() =~= s.take(i));
        assert(all_digits(s.take(i)));
        lemma_digits_val_nonneg(s.take(i));
        lemma_digits_val_prefix_le(s, i + 1);
    }
}

proof fn lemma_first_dot_props(s: Seq<char>)
    ensures
        first_dot(s) matches Some(k) ==> 0 <= k < s.len() && s[k] == '.' && (forall|i: int|
            0 <= i < k ==> s[i] != '.'),
        first_dot(s) is None ==> forall|i: int| 0 <= i < s.len() ==> s[i] != '.',
    decreases s.len(),
{
    if s.len() > 0 && s[0] != '.' {
        let t = s.drop_first();
        lemma_first_dot_props(t);
        match first_dot(t) {
            Some(k) => {
                assert(s[k + 1] == t[k]);
                assert forall|i: int| 0 <= i < k + 1 implies s[i] != '.' by {
                    if i > 0 {
                        assert(t[i - 1] != '.');
                    }
                }
            },
            None => {
                assert forall|i: int| 0 <= i < s.len() implies s[i] != '.' by {
                    if i > 0 {
                        assert(t[i - 1] != '.');
                    }
                }
            },
        }
    }
}

proof fn lemma_unsigned_lower_bound(u: Seq<char>, p: int)
    requires
        0 <= p <= u.len(),
        all_digits(u.take(p)),
    ensures
        unsigned_value(u) matches Some(v) ==> v >= digits_val(u.take(p)) * 100,
{
    lemma_first_dot_props(u);
    match unsigned_value(u) {
        Some(v) => {
            match first_dot(u) {
                None => {
                    assert(all_digits(u));
                    lemma_digits_val_prefix_le(u, p);
                },
                Some(k) => {
                    let ip = u.take(k);
                    let fp = u.skip(k + 1);
                    assert(p <= k) by {
                        if k < p {
                            assert(is_digit(u.take(p)[k]));
                        }
                    }
                    assert(ip.take(p) =~= u.take(p));
                    lemma_digits_val_prefix_le(ip, p);
                    assert(fraction_val(fp) >= 0) by {
                        assert(is_digit(fp[0]));
                        if fp.len() == 2 {
                            assert(is_digit(fp[1]));
                        }
                    }
                },
            }
        },
        None => {
        },
    }
}

proof fn lemma_unsigned_none_at(u: Seq<char>, p: int)
    requires
        0 <= p < u.len(),
        all_digits(u.take(p)),
        !is_digit(u[p]),
        u[p] != '.',
    ensures
        unsigned_value(u) is None,
{
    lemma_first_dot_props(u);
    match first_dot(u) {
        None => {
            assert(!all_digits(u)) by {
                assert(!is_digit(u[p]));
            }
        },
        Some(k) => {
            assert(k != p);
            if k < p {
                assert(is_digit(u.take(p)[k]));
            } else {
                assert(!is_digit(u.take(k)[p]));
            }
        },
    }
}

proof fn lemma_parse_unsigned_rel(s: Seq<char>, signed: bool, neg: bool, u: Seq<char>)
    requires
        s.len() > 0,
        signed == (s[0] == '-' || s[0] == '+'),
        neg == (s[0] == '-'),
        u == if signed {
            s.drop_first()
        } else {
            s
        },
    ensures
        parse_value(s) == (match unsigned_value(u) {
            Some(v) => Some(
                if neg {
                    -v
                } else {
                    v
                },
            ),
            None => None::<int>,
        }),
{
}

fn is_digit_exec(c: char) -> (r: bool)
    ensures
        r == is_digit(c),
{
    let u = c as u32;
    48 <= u && u <= 57
}

fn digit_at(s: &str, i: usize, n: usize) -> (r: bool)
    requires
        n == s@.len(),
    ensures
        r == (i < s@.len() && is_digit(s@[i as int])),
{
    if i < n {
        is_digit_exec(s.get_char(i))
    } else {
        false
    }
}

impl Fixed {
    /// Reads a decimal numeral: an optional `'-'` or `'+'`, one or
    /// more digits, and optionally a point with one or two fractional
    /// digits. Yields the denoted number exactly when the text has
    /// that shape and the denoted count of hundredths fits in the
    /// stored `i64`.
    pub fn parse(s: &str) -> (r: Option<Fixed>)
        ensures
            r matches Some(x) ==> parse_value(s@) == Some(x@),
            r is Some <==> (parse_value(s@) matches Some(v) && i64::MIN <= v <= i64::MAX),
    {
        let n = s.unicode_len();
        if n == 0 {
            return None;
        }
        let c0 = s.get_char(0);
        let neg: bool = c0 == '-';
        let signed: bool = c0 == '-' || c0 == '+';
        let start: usize = if signed {
            1
        } else {
            0
        };
        let ghost u: Seq<char> = if signed {
            s@.drop_first()
        } else {
            s@
        };
        assert(u.len() == n - start);
        proof {
            lemma_parse_unsigned_rel(s@, signed, neg, u);
        }
        let limit: u64 = if neg {
            9223372036854775808
        } else {
            9223372036854775807
        };
        let cap: u64 = limit / 100;
        let mut i: usize = start;
        let mut mag: u64 = 0;
        assert(u.take(0) =~= Seq::<char>::empty());
        while digit_at(s, i, n)
            invariant
                n == s@.len(),
                n > 0,
                signed == (s@[0] == '-' || s@[0] == '+'),
                neg == (s@[0] == '-'),
                start <= i <= n,
                start == if signed {
                    1int
                } else {
                    0int
                },
                u == if signed {
                    s@.drop_first()
                } else {
                    s@
                },
                u.len() == n - start,
                all_digits(u.take(i - start)),
                mag == digits_val(u.take(i - start)),
                mag <= cap,
                cap == limit / 100,
                limit == if neg {
                    9223372036854775808u64
                } else {
                    9223372036854775807u64
                },
            decreases n - i,
        {
            let c = s.get_char(i);
            assert(u[i - start] == s@[i as int]);
            let d: u64 = ((c as u32) - 48) as u64;
            let next_mag: u64 = mag * 10 + d;
            proof {
                assert(u.take(i - start + 1).drop_last() =~= u.take(i - start));
                assert(all_digits(u.take(i - start + 1)));
                assert(next_mag == digits_val(u.take(i - start + 1)));
            }
            if next_mag > cap {
                proof {
                    lemma_parse_unsigned_rel(s@, signed, neg, u);
                    lemma_unsigned_lower_bound(u, i - start + 1);
                    if unsigned_value(u) is Some {
                        let v = unsigned_value(u)->Some_0;
                        assert(v >= next_mag * 100);
                        assert(next_mag * 100 >= (cap + 1) * 100);
                        assert((cap + 1) * 100 > limit);
                        assert(parse_value(s@) == Some(
                            if neg {
                                -v
                            } else {
                                v
                            },
                        ));
                        if neg {
                            assert(-v < i64::MIN);
                        } else {
                            assert(v > i64::MAX);
                        }
                    }
                }
                return None;
            }
            mag = next_mag;
            i = i + 1;
        }
        if i == start {
            // No digits at all: the numeral is empty or starts with
            // something other than a digit.
            proof {
                if u.len() == 0 {
                    assert(unsigned_value(u) is None);
                } else {
                    assert(u.take(0) =~= Seq::<char>::empty());
                    if u[0] == '.' {
                        lemma_first_dot_props(u);
                        assert(first_dot(u) is Some) by {
                            if first_dot(u) is None {
                                assert(u[0] != '.');
                            }
                        }
                        let k = first_dot(u)->Some_0;
                        assert(k == 0) by {
                            if k > 0 {
                                assert(u[0] != '.');
                            }
                        }
                        assert(u.take(0).len() == 0);
                        assert(unsigned_value(u) is None);
                    } else {
                        lemma_unsigned_none_at(u, 0);
                    }
                }
            }
            return None;
        }
        if i == n {
            // The whole numeral is digits: a pure integer.
            proof {
                assert(u.take(i - start) =~= u);
                lemma_first_dot_props(u);
                assert(first_dot(u) is None) by {
                    if first_dot(u) is Some {
                        assert(is_digit(u[first_dot(u)->Some_0]));
                    }
                }
                assert(unsigned_value(u) == Some(digits_val(u) * 100));
                assert(mag * 100 <= cap * 100);
                assert(cap * 100 <= limit);
                assert(parse_value(s@) == Some(
                    if neg {
                        -(mag * 100)
                    } else {
                        mag * 100
                    },
                ));
            }
            let total: u64 = mag * 100;
            let out: i64 = if neg {
                (-(total as i128)) as i64
            } else {
                total as i64
            };
            return Some(Fixed { hundredths: out });
        }
        let c = s.get_char(i);
        assert(u[i - start] == s@[i as int]);
        if c != '.' {
            proof {
                lemma_unsigned_none_at(u, i - start);
            }
            return None;
        }
        proof {
            lemma_first_dot_props(u);
            assert(first_dot(u) is Some) by {
                if first_dot(u) is None {
                    assert(u[i - start] != '.');
                }
            }
            let k = first_dot(u)->Some_0;
            assert(k == i - start) by {
                if k < i - start {
                    assert(is_digit(u.take(i - start)[k]));
                }
                if k > i - start {
                    assert(u[i - start] != '.');
                }
            }
            assert(u.take(k) == u.take(i - start));
            assert(first_dot(u) == Some(i - start as int));
        }
        let ghost fp: Seq<char> = u.skip(i - start + 1);
        assert(fp.len() == n - i - 1);
        if n - i - 1 < 1 || n - i - 1 > 2 {
            return None;
        }
        let c1 = s.get_char(i + 1);
        assert(fp[0] == s@[i + 1]);
        if !is_digit_exec(c1) {
            return None;
        }
        let d1: u64 = ((c1 as u32) - 48) as u64;
        let frac: u64;
        if n - i - 1 == 2 {
            let c2 = s.get_char(i + 2);
            assert(fp[1] == s@[i + 2]);
            if !is_digit_exec(c2) {
                return None;
            }
            let d2: u64 = ((c2 as u32) - 48) as u64;
            frac = d1 * 10 + d2;
        } else {
            frac = d1 * 10;
        }
        assert(frac == fraction_val(fp));
        assert(all_digits(fp)) by {
            assert(is_digit(fp[0]));
            if fp.len() == 2 {
                assert(is_digit(fp[1]));
            }
        }
        assert(unsigned_value(u) == Some(digits_val(u.take(i - start)) * 100 + fraction_val(fp)));
        assert(mag * 100 <= cap * 100);
        assert(cap * 100 <= limit);
        let total: u64 = mag * 100 + frac;
        if total > limit {
            proof {
                assert(parse_value(s@) == Some(
                    if neg {
                        -(total as int)
                    } else {
                        total as int
                    },
                ));
                if neg {
                    assert(-(total as int) < i64::MIN);
                } else {
                    assert(total as int > i64::MAX);
                }
            }
            return None;
        }
        let out: i64 = if neg {
            (-(total as i128)) as i64
        } else {
            total as i64
        };
        Some(Fixed { hundredths: out })
    }
}


proof fn lemma_digit_char_val(d: int)
    requires
        0 <= d <= 9,
    ensures
        is_digit(digit_char(d)),
        digit_val(digit_char(d)) == d,
{
}

proof fn lemma_decimal_digits_props(n: nat)
    ensures
        decimal_digits(n).len() >= 1,
        all_digits(decimal_digits(n)),
        digits_val(decimal_digits(n)) == n,
    decreases n,
{
    if n < 10 {
        lemma_digit_char_val(n as int);
        assert(decimal_digits(n).drop_last() =~= Seq::<char>::empty());
        assert(decimal_digits(n).last() == digit_char(n as int));
        assert(digits_val(decimal_digits(n)) == n) by {
            reveal_with_fuel(digits_val, 2);
        }
    } else {
        lemma_decimal_digits_props(n / 10);
        lemma_digit_char_val((n % 10) as int);
        let s = decimal_digits(n);
        assert(s.drop_last() =~= decimal_digits(n / 10));
        assert(s.last() == digit_char((n % 10) as int));
        assert((n / 10) * 10 + n % 10 == n) by {
            vstd::arithmetic::div_mod::lemma_fundamental_div_mod(n as int, 10);
        }
        assert(all_digits(s)) by {
            assert forall|i: int| 0 <= i < s.len() implies is_digit(s[i]) by {
                if i < s.len() - 1 {
                    assert(s[i] == decimal_digits(n / 10)[i]);
                }
            }
        }
    }
}

/// Rendering a value with `format` and reading the text back with
/// `parse` recovers the value exactly: the renderer and the reader
/// agree on the decimal grammar.
pub proof fn lemma_parse_of_format(v: int)
    requires
        i64::MIN <= v <= i64::MAX,
    ensures
        parse_value(fixed_chars(v)) == Some(v),
{
    let m = if v < 0 {
        -v
    } else {
        v
    };
    let ds = decimal_digits((m / 100) as nat);
    let c1 = digit_char((m / 10) % 10);
    let c2 = digit_char(m % 10);
    lemma_decimal_digits_props((m / 100) as nat);
    lemma_digit_char_val((m / 10) % 10);
    lemma_digit_char_val(m % 10);
    let u = ds + seq!['.', c1, c2];
    let k = ds.len() as int;
    assert(u[k] == '.');
    lemma_first_dot_props(u);
    assert(first_dot(u) is Some) by {
        if first_dot(u) is None {
            assert(u[k] != '.');
        }
    }
    assert(first_dot(u) == Some(k)) by {
        let j = first_dot(u)->Some_0;
        if j < k {
            assert(u[j] == ds[j]);
            assert(is_digit(ds[j]));
        }
        if j > k {
            assert(u[k] != '.');
        }
    }
    let ip = u.take(k);
    let fp = u.skip(k + 1);
    assert(ip =~= ds);
    assert(fp =~= seq![c1, c2]);
    assert(fraction_val(fp) == ((m / 10) % 10) * 10 + m % 10);
    assert(((m / 10) % 10) * 10 + m % 10 == m % 100) by {
        vstd::arithmetic::div_mod::lemma_mod_breakdown(m, 10, 10);
    }
    assert((m / 100) * 100 + m % 100 == m) by {
        vstd::arithmetic::div_mod::lemma_fundamental_div_mod(m, 100);
    }
    assert(unsigned_value(u) == Some(m));
    if v < 0 {
        let s = fixed_chars(v);
        assert(s =~= seq!['-'] + u);
        assert(s[0] == '-');
        assert(s.drop_first() =~= u);
        assert(parse_value(s) == Some(-m));
    } else {
        let s = fixed_chars(v);
        assert(s =~= u);
        assert(s[0] == u[0] && u[0] == ds[0]);
        assert(is_digit(ds[0]));
        assert(s[0] != '-' && s[0] != '+');
        assert(parse_value(s) == Some(m));
    }
}

} // verus!
