use vstd::prelude::*;
use vstd::string::StrSliceExecFns;
use vstd::string::StringExecFns;

verus! {

/// The decimal digit character for a value below ten.
pub open spec fn digit_char(d: nat) -> char {
    if d == 0 {
        '0'
    } else if d == 1 {
        '1'
    } else if d == 2 {
        '2'
    } else if d == 3 {
        '3'
    } else if d == 4 {
        '4'
    } else if d == 5 {
        '5'
    } else if d == 6 {
        '6'
    } else if d == 7 {
        '7'
    } else if d == 8 {
        '8'
    } else {
        '9'
    }
}

/// The decimal digits of a natural number, most significant first.
pub open spec fn dec_digits(n: nat) -> Seq<char>
    decreases n,
{
    if n < 10 {
        seq![digit_char(n)]
    } else {
        dec_digits(n / 10) + seq![digit_char(n % 10)]
    }
}

/// The decimal rendering of an integer: the digits of its magnitude, with a
/// leading minus sign when it is negative.
pub open spec fn int_digits(n: int) -> Seq<char> {
    if n < 0 {
        seq!['-'] + dec_digits((-n) as nat)
    } else {
        dec_digits(n as nat)
    }
}

/// Appends one decimal digit character to `s`.
fn push_digit(s: &mut String, d: u64)
    requires
        d < 10,
    ensures
        final(s)@ == old(s)@ + seq![digit_char(d as nat)],
{
    match d {
        0 => {
            proof {
                reveal_strlit("0");
            }
            s.append("0")
        },
        1 => {
            proof {
                reveal_strlit("1");
            }
            s.append("1")
        },
        2 => {
            proof {
                reveal_strlit("2");
            }
            s.append("2")
        },
        3 => {
            proof {
                reveal_strlit("3");
            }
            s.append("3")
        },
        4 => {
            proof {
                reveal_strlit("4");
            }
            s.append("4")
        },
        5 => {
            proof {
                reveal_strlit("5");
            }
            s.append("5")
        },
        6 => {
            proof {
                reveal_strlit("6");
            }
            s.append("6")
        },
        7 => {
            proof {
                reveal_strlit("7");
            }
            s.append("7")
        },
        8 => {
            proof {
                reveal_strlit("8");
            }
            s.append("8")
        },
        _ => {
            proof {
                reveal_strlit("9");
            }
            s.append("9")
        },
    }
}

/// Appends the decimal digits of `n` to `s`.
fn push_u64(s: &mut String, n: u64)
    ensures
        final(s)@ == old(s)@ + dec_digits(n as nat),
    decreases n,
{
    if n < 10 {
        push_digit(s, n);
    } else {
        push_u64(s, n / 10);
        push_digit(s, n % 10);
        proof {
            assert(s@ == old(s)@ + dec_digits(n as nat)) by {
                assert(dec_digits(n as nat) == dec_digits(n as nat / 10) + seq![
                    digit_char(n as nat % 10),
                ]);
                assert(s@ =~= old(s)@ + dec_digits(n as nat));
            }
        }
    }
}

/// Renders an unsigned number in decimal.
pub fn u64_to_string(n: u64) -> (r: String)
    ensures
        r@ == dec_digits(n as nat),
{
    let mut s = String::new();
    push_u64(&mut s, n);
    proof {
        assert(s@ =~= dec_digits(n as nat));
    }
    s
}

/// Renders a usize in decimal.
pub fn usize_to_string(n: usize) -> (r: String)
    ensures
        r@ == dec_digits(n as nat),
{
    u64_to_string(n as u64)
}

/// Renders a signed number in decimal, with a leading `-` when negative.
pub fn i64_to_string(n: i64) -> (r: String)
    ensures
        r@ == int_digits(n as int),
{
    if n >= 0 {
        u64_to_string(n as u64)
    } else {
        let mut s = String::new();
        proof {
            reveal_strlit("-");
        }
        s.append("-");
        let magnitude: u64 = (-(n as i128)) as u64;
        push_u64(&mut s, magnitude);
        proof {
            assert(s@ =~= int_digits(n as int));
        }
        s
    }
}


/// The numeric value of a decimal digit character, if it is one.
pub open spec fn digit_of(c: char) -> Option<nat> {
    if c == '0' {
        Some(0nat)
    } else if c == '1' {
        Some(1nat)
    } else if c == '2' {
        Some(2nat)
    } else if c == '3' {
        Some(3nat)
    } else if c == '4' {
        Some(4nat)
    } else if c == '5' {
        Some(5nat)
    } else if c == '6' {
        Some(6nat)
    } else if c == '7' {
        Some(7nat)
    } else if c == '8' {
        Some(8nat)
    } else if c == '9' {
        Some(9nat)
    } else {
        None
    }
}

/// The number the decimal digits of `s` spell, folded onto `acc`; a
/// character that is no digit spoils the whole parse.
pub open spec fn parse_digits(s: Seq<char>, acc: nat) -> Option<nat>
    decreases s.len(),
{
    if s.len() == 0 {
        Some(acc)
    } else {
        match digit_of(s[0]) {
            Some(d) => parse_digits(s.skip(1), acc * 10 + d),
            None => None,
        }
    }
}

/// A successful parse is at least as large as its accumulator.
pub proof fn lemma_parse_digits_lower(s: Seq<char>, acc: nat)
    ensures
        parse_digits(s, acc) matches Some(n) ==> n >= acc,
    decreases s.len(),
{
    if s.len() > 0 {
        match digit_of(s[0]) {
            Some(d) => {
                lemma_parse_digits_lower(s.skip(1), acc * 10 + d);
            },
            None => {},
        }
    }
}

/// Parses a nonempty all-digit string as an unsigned 32-bit number.
#[verifier::loop_isolation(false)]
pub fn parse_u32(s: &str) -> (r: Option<u32>)
    ensures
        match r {
            Some(n) => s@.len() > 0 && parse_digits(s@, 0) == Some(n as nat),
            None => s@.len() == 0 || parse_digits(s@, 0) is None || (parse_digits(s@, 0)
                matches Some(n) && n > u32::MAX),
        },
{
    let n = s.unicode_len();
    if n == 0 {
        return None;
    }
    let mut acc: u64 = 0;
    let mut i: usize = 0;
    proof {
        assert(s@.skip(0) =~= s@);
    }
    while i < n
        invariant
            i <= n,
            n == s@.len(),
            acc <= u32::MAX as u64,
            parse_digits(s@, 0) == parse_digits(s@.skip(i as int), acc as nat),
        decreases n - i,
    {
        let c = s.get_char(i);
        let u = c as u32;
        if !(48 <= u && u <= 57) {
            proof {
                assert(digit_of(s@[i as int]) is None);
            }
            return None;
        }
        let d = (u - 48) as u64;
        proof {
            assert(digit_of(s@[i as int]) == Some((u - 48) as nat));
            assert(s@.skip(i as int)[0] == s@[i as int]);
            assert(s@.skip(i as int).skip(1) =~= s@.skip(i + 1));
        }
        acc = acc * 10 + d;
        i += 1;
        if acc > u32::MAX as u64 {
            proof {
                lemma_parse_digits_lower(s@.skip(i as int), acc as nat);
            }
            return None;
        }
    }
    proof {
        assert(s@.skip(n as int) =~= Seq::<char>::empty());
    }
    Some(acc as u32)
}


/// The signed number a decimal string spells: an optional leading minus
/// sign, then at least one digit; the empty string spells nothing.
pub open spec fn parse_signed(s: Seq<char>) -> Option<int> {
    if s.len() == 0 {
        None
    } else if s[0] == '-' {
        if s.len() == 1 {
            None
        } else {
            match parse_digits(s.skip(1), 0) {
                Some(n) => Some(-(n as int)),
                None => None,
            }
        }
    } else {
        match parse_digits(s, 0) {
            Some(n) => Some(n as int),
            None => None,
        }
    }
}

/// Parses a decimal string as a signed 32-bit number.
pub fn parse_i32(s: &str) -> (r: Option<i32>)
    ensures
        match r {
            Some(n) => parse_signed(s@) == Some(n as int),
            None => parse_signed(s@) is None || (parse_signed(s@) matches Some(n) && !(i32::MIN
                <= n <= i32::MAX)),
        },
{
    let n = s.unicode_len();
    if n == 0 {
        return None;
    }
    if s.get_char(0) == '-' {
        if n == 1 {
            return None;
        }
        let magnitude_str = s.substring_char(1, n);
        proof {
            assert(magnitude_str@ =~= s@.skip(1));
        }
        match parse_u32(magnitude_str) {
            Some(m) => {
                if m <= 0x8000_0000u32 {
                    if m == 0x8000_0000u32 {
                        Some(i32::MIN)
                    } else {
                        Some(-(m as i32))
                    }
                } else {
                    None
                }
            },
            None => {
                proof {
                    match parse_digits(s@.skip(1), 0) {
                        Some(k) => {
                            assert(k > u32::MAX);
                        },
                        None => {},
                    }
                }
                None
            },
        }
    } else {
        match parse_u32(s) {
            Some(v) => {
                if v <= i32::MAX as u32 {
                    Some(v as i32)
                } else {
                    None
                }
            },
            None => {
                proof {
                    match parse_digits(s@, 0) {
                        Some(k) => {
                            assert(k > u32::MAX);
                        },
                        None => {},
                    }
                }
                None
            },
        }
    }
}

/// Compares two string slices for equality of their characters.
pub fn str_eq(a: &str, b: &str) -> (r: bool)
    ensures
        r == (a@ == b@),
{
    let sa = String::from_str(a);
    let sb = String::from_str(b);
    sa == sb
}

} // verus!
