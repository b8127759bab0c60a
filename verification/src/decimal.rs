use vstd::prelude::*;

verus! {

/// The value of a decimal digit, if the character is one.
pub open spec fn digit_of(c: char) -> Option<nat> {
    if c == '0' {
        Some(0)
    } else if c == '1' {
        Some(1)
    } else if c == '2' {
        Some(2)
    } else if c == '3' {
        Some(3)
    } else if c == '4' {
        Some(4)
    } else if c == '5' {
        Some(5)
    } else if c == '6' {
        Some(6)
    } else if c == '7' {
        Some(7)
    } else if c == '8' {
        Some(8)
    } else if c == '9' {
        Some(9)
    } else {
        None
    }
}

/// The digit with the given value.
pub open spec fn digit_char(value: nat) -> char {
    if value == 0 {
        '0'
    } else if value == 1 {
        '1'
    } else if value == 2 {
        '2'
    } else if value == 3 {
        '3'
    } else if value == 4 {
        '4'
    } else if value == 5 {
        '5'
    } else if value == 6 {
        '6'
    } else if value == 7 {
        '7'
    } else if value == 8 {
        '8'
    } else {
        '9'
    }
}

/// The number that a run of decimal digits stands for. An empty run, and one
/// that holds anything but digits, stands for none.
pub open spec fn value_of(digits: Seq<char>) -> Option<nat>
    decreases digits.len(),
{
    if digits.len() == 0 {
        None
    } else {
        match digit_of(digits.last()) {
            None => None,
            Some(d) => if digits.len() == 1 {
                Some(d)
            } else {
                match value_of(digits.drop_last()) {
                    None => None,
                    Some(v) => Some(10 * v + d),
                }
            },
        }
    }
}

/// The digits of a number, without leading zeros; zero is written `0`.
pub open spec fn digits_of(n: nat) -> Seq<char>
    decreases n,
{
    if n < 10 {
        seq![digit_char(n)]
    } else {
        digits_of(n / 10).push(digit_char(n % 10))
    }
}

/// The number that a text stands for: an optional plus sign and then digits,
/// nothing before, between or after them, and a value that fits in 32 bits.
pub open spec fn spec_parse_u32(text: Seq<char>) -> Option<u32> {
    let digits = if text.len() > 0 && text[0] == '+' {
        text.drop_first()
    } else {
        text
    };
    fitting(value_of(digits))
}

/// A number as far as it fits in 32 bits.
pub open spec fn fitting(value: Option<nat>) -> Option<u32> {
    match value {
        Some(v) => if v <= u32::MAX {
            Some(v as u32)
        } else {
            None
        },
        None => None,
    }
}

/// A run of digits that stands for a number begins with runs that stand for
/// numbers too, none of them larger.
pub proof fn lemma_value_of_prefix(digits: Seq<char>, n: int)
    requires
        0 < n <= digits.len(),
        value_of(digits) is Some,
    ensures
        value_of(digits.take(n)) is Some,
        value_of(digits.take(n))->0 <= value_of(digits)->0,
    decreases digits.len(),
{
    if n == digits.len() {
        assert(digits.take(n) =~= digits);
    } else {
        lemma_value_of_prefix(digits.drop_last(), n);
        assert(digits.drop_last().take(n) =~= digits.take(n));
    }
}

/// Writing a number and reading what was written gives the number again.
pub proof fn lemma_digits_round_trip(n: nat)
    ensures
        value_of(digits_of(n)) == Some(n),
        digits_of(n).len() > 0,
        n <= u32::MAX ==> spec_parse_u32(digits_of(n)) == Some(n as u32),
    decreases n,
{
    if n >= 10 {
        lemma_digits_round_trip(n / 10);
        assert(digits_of(n).drop_last() =~= digits_of(n / 10));
        assert(digit_of(digit_char(n % 10)) == Some(n % 10));
    }
    assert(digits_of(n)[0] != '+') by {
        lemma_first_digit(n);
    }
}

/// What is written for a number begins with a digit.
proof fn lemma_first_digit(n: nat)
    ensures
        digit_of(digits_of(n)[0]) is Some,
    decreases n,
{
    if n >= 10 {
        lemma_first_digit(n / 10);
    }
}

/// The value of a decimal digit, if the character is one.
pub fn digit(c: char) -> (value: Option<u8>)
    ensures
        match value {
            Some(d) => digit_of(c) == Some(d as nat),
            None => digit_of(c) is None,
        },
{
    match c {
        '0' => Some(0),
        '1' => Some(1),
        '2' => Some(2),
        '3' => Some(3),
        '4' => Some(4),
        '5' => Some(5),
        '6' => Some(6),
        '7' => Some(7),
        '8' => Some(8),
        '9' => Some(9),
        _ => None,
    }
}

/// Reads a number as it is written on a command line. The answer is `None`
/// where the text is no number or the number does not fit in 32 bits.
pub fn parse_u32(text: &str) -> (number: Option<u32>)
    ensures
        number == spec_parse_u32(text@),
{
    let len: usize = text.unicode_len();
    if len == 0 {
        return None;
    }
    let start: usize = if text.get_char(0) == '+' {
        1
    } else {
        0
    };
    let ghost digits = text@.subrange(start as int, len as int);
    assert(digits =~= if start == 1 {
        text@.drop_first()
    } else {
        text@
    });
    let mut value: u64 = 0;
    let mut i: usize = start;
    while i < len
        invariant
            start <= i <= len,
            len == text@.len(),
            digits == text@.subrange(start as int, len as int),
            spec_parse_u32(text@) == fitting(value_of(digits)),
            i == start ==> value == 0,
            i > start ==> value_of(digits.take(i - start)) == Some(value as nat),
            value <= u32::MAX,
        decreases len - i,
    {
        let ghost seen = digits.take(i - start + 1);
        assert(seen.drop_last() =~= digits.take(i - start));
        assert(seen.last() == text@[i as int]);
        let d: u8 = match digit(text.get_char(i)) {
            Some(d) => d,
            None => {
                proof {
                    assert(value_of(seen) is None);
                    if value_of(digits) is Some {
                        lemma_value_of_prefix(digits, i - start + 1);
                    }
                }
                return None;
            },
        };
        let next: u64 = value * 10 + d as u64;
        assert(value_of(seen) == Some(next as nat));
        if next > u32::MAX as u64 {
            proof {
                if value_of(digits) is Some {
                    lemma_value_of_prefix(digits, i - start + 1);
                }
            }
            return None;
        }
        value = next;
        i += 1;
    }
    assert(digits.take(len - start) =~= digits);
    if i == start {
        None
    } else {
        Some(value as u32)
    }
}

/// `String::push`: appends one character to the end of a string.
#[verifier::external_body]
fn push_char(text: &mut String, c: char)
    ensures
        final(text)@ == old(text)@.push(c),
{
    text.push(c)
}

/// The digit with the given value.
fn digit_for(value: u8) -> (c: char)
    requires
        value < 10,
    ensures
        c == digit_char(value as nat),
{
    match value {
        0 => '0',
        1 => '1',
        2 => '2',
        3 => '3',
        4 => '4',
        5 => '5',
        6 => '6',
        7 => '7',
        8 => '8',
        _ => '9',
    }
}

/// Appends the digits of a number to a text.
pub fn push_decimal(text: &mut String, n: u64)
    ensures
        final(text)@ == old(text)@ + digits_of(n as nat),
    decreases n,
{
    if n >= 10 {
        push_decimal(text, n / 10);
    }
    push_char(text, digit_for((n % 10) as u8));
    assert(text@ =~= old(text)@ + digits_of(n as nat));
}

} // verus!
