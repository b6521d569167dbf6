//! Whole numbers written in decimal, and read back.
use vstd::prelude::*;
use crate::text::chars_of;

verus! {

/// The character of a digit.
pub open spec fn digit_char(d: int) -> char {
    (0x30 + d) as char
}

/// The decimal digits of a number, without leading zeros.
pub open spec fn digits(n: nat) -> Seq<char>
    decreases n,
{
    if n < 10 {
        seq![digit_char(n as int)]
    } else {
        digits(n / 10).push(digit_char((n % 10) as int))
    }
}

/// A number in decimal, with a minus sign where it is negative.
pub open spec fn decimal(n: int) -> Seq<char> {
    if n < 0 {
        seq!['-'] + digits((-n) as nat)
    } else {
        digits(n as nat)
    }
}

fn digit(d: u64) -> (c: char)
    requires
        d < 10,
    ensures
        c == digit_char(d as int),
{
    match d {
        0 => '0',
        1 => '1',
        2 => '2',
        3 => '3',
        4 => '4',
        5 => '5',
        6 => '6',
        7 => '7',
        8 => '8',
        _ => '9',
    }
}

fn push_digits(text: &mut String, n: u64)
    ensures
        final(text)@ == old(text)@ + digits(n as nat),
    decreases n,
{
    if n >= 10 {
        push_digits(text, n / 10);
    }
    text.push(digit(n % 10));
}

/// A number in decimal.
pub fn unsigned_text(n: u64) -> (s: String)
    ensures
        s@ == decimal(n as int),
{
    let mut s = String::new();
    push_digits(&mut s, n);
    s
}

/// A number in decimal, with a minus sign where it is negative.
pub fn signed_text(n: i64) -> (s: String)
    ensures
        s@ == decimal(n as int),
{
    let mut s = String::new();
    if n < 0 {
        s.push('-');
        if n == i64::MIN {
            push_digits(&mut s, 0x8000_0000_0000_0000);
        } else {
            push_digits(&mut s, (-n) as u64);
        }
    } else {
        push_digits(&mut s, n as u64);
    }
    s
}

/// Why a text is not a number.
#[derive(Clone, Copy, Debug, PartialEq, Eq, Structural)]
pub enum NumberError {
    /// There is no text.
    Empty,
    /// Something other than a digit, or a sign without digits.
    InvalidDigit,
    /// More than the type holds.
    TooLarge,
    /// Less than the type holds.
    TooSmall,
}

pub open spec fn is_digit(c: char) -> bool {
    '0' <= c <= '9'
}

pub open spec fn digit_value(c: char) -> int {
    c as int - 0x30
}

/// Reads digits from left to right onto `acc`, stopping at the first character
/// that is no digit or takes the value past `limit`.
pub open spec fn read_digits(text: Seq<char>, acc: int, limit: int) -> Result<int, NumberError>
    decreases text.len(),
{
    if text.len() == 0 {
        Ok(acc)
    } else if !is_digit(text[0]) {
        Err(NumberError::InvalidDigit)
    } else if acc * 10 + digit_value(text[0]) > limit {
        Err(NumberError::TooLarge)
    } else {
        read_digits(text.skip(1), acc * 10 + digit_value(text[0]), limit)
    }
}

/// What an unsigned number's text says: digits, behind an optional plus sign.
pub open spec fn read_unsigned(text: Seq<char>, limit: int) -> Result<int, NumberError> {
    if text.len() == 0 {
        Err(NumberError::Empty)
    } else if text.len() == 1 && (text[0] == '+' || text[0] == '-') {
        Err(NumberError::InvalidDigit)
    } else if text[0] == '+' {
        read_digits(text.skip(1), 0, limit)
    } else {
        read_digits(text, 0, limit)
    }
}

/// What a signed number's text says: digits, behind an optional sign. The
/// lowest value has an absolute value one above the highest.
pub open spec fn read_signed(text: Seq<char>, limit: int) -> Result<int, NumberError> {
    if text.len() == 0 {
        Err(NumberError::Empty)
    } else if text.len() == 1 && (text[0] == '+' || text[0] == '-') {
        Err(NumberError::InvalidDigit)
    } else if text[0] == '-' {
        match read_digits(text.skip(1), 0, limit + 1) {
            Ok(n) => Ok(-n),
            Err(NumberError::TooLarge) => Err(NumberError::TooSmall),
            Err(e) => Err(e),
        }
    } else if text[0] == '+' {
        read_digits(text.skip(1), 0, limit)
    } else {
        read_digits(text, 0, limit)
    }
}

fn parse_digits(text: &Vec<char>, from: usize, limit: u64) -> (r: Result<u64, NumberError>)
    requires
        from <= text@.len(),
    ensures
        match r {
            Ok(n) => read_digits(text@.skip(from as int), 0, limit as int) == Ok::<int, NumberError>(
                n as int,
            ),
            Err(e) => read_digits(text@.skip(from as int), 0, limit as int) == Err::<
                int,
                NumberError,
            >(e),
        },
{
    let mut acc: u64 = 0;
    let mut i: usize = from;
    while i < text.len()
        invariant
            from <= i <= text@.len(),
            acc <= limit,
            read_digits(text@.skip(from as int), 0, limit as int) == read_digits(
                text@.skip(i as int),
                acc as int,
                limit as int,
            ),
        decreases text@.len() - i,
    {
        let c = text[i];
        assert(text@.skip(i as int)[0] == c);
        assert(text@.skip(i as int).skip(1) == text@.skip(i + 1));
        if !('0' <= c && c <= '9') {
            return Err(NumberError::InvalidDigit);
        }
        let next: u128 = acc as u128 * 10 + (c as u32 - 0x30) as u128;
        if next > limit as u128 {
            return Err(NumberError::TooLarge);
        }
        acc = next as u64;
        i = i + 1;
    }
    assert(text@.skip(i as int).len() == 0);
    Ok(acc)
}

/// Reads an unsigned number of at most `limit`.
pub fn parse_unsigned(text: &str, limit: u64) -> (r: Result<u64, NumberError>)
    ensures
        match r {
            Ok(n) => read_unsigned(text@, limit as int) == Ok::<int, NumberError>(n as int),
            Err(e) => read_unsigned(text@, limit as int) == Err::<int, NumberError>(e),
        },
{
    let c = chars_of(text);
    if c.len() == 0 {
        return Err(NumberError::Empty);
    }
    if c.len() == 1 && (c[0] == '+' || c[0] == '-') {
        return Err(NumberError::InvalidDigit);
    }
    if c[0] == '+' {
        parse_digits(&c, 1, limit)
    } else {
        assert(c@.skip(0) == c@);
        parse_digits(&c, 0, limit)
    }
}

/// Reads a 32-bit signed number.
pub fn parse_i32_text(text: &str) -> (r: Result<i32, NumberError>)
    ensures
        match r {
            Ok(n) => read_signed(text@, i32::MAX as int) == Ok::<int, NumberError>(n as int),
            Err(e) => read_signed(text@, i32::MAX as int) == Err::<int, NumberError>(e),
        },
{
    let c = chars_of(text);
    if c.len() == 0 {
        return Err(NumberError::Empty);
    }
    if c.len() == 1 && (c[0] == '+' || c[0] == '-') {
        return Err(NumberError::InvalidDigit);
    }
    proof {
        read_digits_bounded(c@.skip(1), 0, i32::MAX as int);
        read_digits_bounded(c@.skip(1), 0, i32::MAX + 1);
        read_digits_bounded(c@, 0, i32::MAX as int);
    }
    if c[0] == '-' {
        match parse_digits(&c, 1, 0x8000_0000) {
            Ok(n) => Ok((-(n as i64)) as i32),
            Err(NumberError::TooLarge) => Err(NumberError::TooSmall),
            Err(e) => Err(e),
        }
    } else {
        let from: usize = if c[0] == '+' {
            1
        } else {
            0
        };
        assert(c@.skip(0) == c@);
        match parse_digits(&c, from, 0x7fff_ffff) {
            Ok(n) => Ok(n as i32),
            Err(e) => Err(e),
        }
    }
}

proof fn read_digits_bounded(text: Seq<char>, acc: int, limit: int)
    requires
        0 <= acc <= limit,
    ensures
        match read_digits(text, acc, limit) {
            Ok(n) => acc <= n <= limit,
            Err(e) => e is InvalidDigit || e is TooLarge,
        },
    decreases text.len(),
{
    if text.len() > 0 && is_digit(text[0]) && acc * 10 + digit_value(text[0]) <= limit {
        read_digits_bounded(text.skip(1), acc * 10 + digit_value(text[0]), limit);
    }
}

/// Appends one digit to a text that reads as a number.
proof fn read_digits_push(text: Seq<char>, acc: int, limit: int, c: char)
    requires
        is_digit(c),
    ensures
        match read_digits(text, acc, limit) {
            Ok(n) => read_digits(text.push(c), acc, limit) == (if n * 10 + digit_value(c) > limit {
                Err::<int, NumberError>(NumberError::TooLarge)
            } else {
                Ok::<int, NumberError>(n * 10 + digit_value(c))
            }),
            Err(_) => true,
        },
    decreases text.len(),
{
    if text.len() == 0 {
        assert(text.push(c).skip(1) == Seq::<char>::empty());
        assert(read_digits(text.push(c).skip(1), acc * 10 + digit_value(c), limit) == Ok::<
            int,
            NumberError,
        >(acc * 10 + digit_value(c)));
    } else {
        assert(text.push(c).skip(1) == text.skip(1).push(c));
        if is_digit(text[0]) && acc * 10 + digit_value(text[0]) <= limit {
            read_digits_push(text.skip(1), acc * 10 + digit_value(text[0]), limit, c);
        }
    }
}

proof fn digits_read_back(n: nat, limit: int)
    requires
        n <= limit,
    ensures
        read_digits(digits(n), 0, limit) == Ok::<int, NumberError>(n as int),
        digits(n).len() > 0,
        is_digit(digits(n)[0]),
    decreases n,
{
    if n < 10 {
        assert(digits(n).skip(1) == Seq::<char>::empty());
        assert(read_digits(digits(n).skip(1), n as int, limit) == Ok::<int, NumberError>(n as int));
    } else {
        digits_read_back(n / 10, limit);
        read_digits_push(digits(n / 10), 0, limit, digit_char((n % 10) as int));
    }
}

/// A number written in decimal reads back as itself.
pub proof fn decimal_reads_back(n: int, limit: int)
    requires
        0 <= limit,
    ensures
        0 <= n <= limit ==> read_unsigned(decimal(n), limit) == Ok::<int, NumberError>(n),
        -limit - 1 <= n <= limit ==> read_signed(decimal(n), limit) == Ok::<int, NumberError>(n),
{
    if 0 <= n <= limit {
        digits_read_back(n as nat, limit);
    } else if -limit - 1 <= n < 0 {
        digits_read_back((-n) as nat, limit + 1);
        assert(decimal(n).skip(1) == digits((-n) as nat));
    }
}

/// A number of one digit is that digit, and a longer one ends in its last digit;
/// a negative number has a sign in front.
pub proof fn numbers_are_written_in_tens(n: nat)
    ensures
        digits(n).len() >= 1,
        n < 10 ==> digits(n).len() == 1 && digits(n)[0] as int == '0' as int + n,
        n >= 10 ==> digits(n).len() == digits(n / 10).len() + 1 && digits(n).last() as int
            == '0' as int + n % 10 && digits(n).drop_last() == digits(n / 10),
        n > 0 ==> decimal(-(n as int)).len() == digits(n).len() + 1 && decimal(-(n as int))[0] == '-',
        decimal(n as int) == digits(n),
    decreases n,
{
    if n >= 10 {
        numbers_are_written_in_tens(n / 10);
        assert(digits(n).drop_last() =~= digits(n / 10));
    }
}

/// A text is read as a number exactly if it is one: a text without digits, with
/// something else among them or with a number over the limit is refused.
pub proof fn only_numbers_are_read(text: Seq<char>, limit: int)
    requires
        limit >= 0,
    ensures
        text.len() == 0 ==> read_unsigned(text, limit) == Err::<int, NumberError>(NumberError::Empty)
            && read_signed(text, limit) == Err::<int, NumberError>(NumberError::Empty),
        text.len() == 1 && '0' <= text[0] <= '9' && text[0] as int - '0' as int <= limit
            ==> read_unsigned(text, limit) == Ok::<int, NumberError>(text[0] as int - '0' as int)
            && read_signed(text, limit) == Ok::<int, NumberError>(text[0] as int - '0' as int),
        text.len() >= 1 && !('0' <= text[0] <= '9') && text[0] != '+' ==> read_unsigned(text, limit)
            == Err::<int, NumberError>(NumberError::InvalidDigit),
        text.len() >= 1 && !('0' <= text[0] <= '9') && text[0] != '+' && text[0] != '-'
            ==> read_signed(text, limit) == Err::<int, NumberError>(NumberError::InvalidDigit),
        text.len() == 1 && (text[0] == '+' || text[0] == '-') ==> read_signed(text, limit) == Err::<
            int,
            NumberError,
        >(NumberError::InvalidDigit),
        text.len() >= 2 && text[0] == '-' ==> (read_signed(text, limit) matches Ok(n) ==> n <= 0),
        read_unsigned(text, limit) matches Ok(n) ==> 0 <= n <= limit,
        read_signed(text, limit) matches Ok(n) ==> -limit - 1 <= n <= limit,
{
    reveal_with_fuel(read_digits, 3);
    digits_stay_within(text, 0, limit);
    if text.len() > 0 {
        digits_stay_within(text.skip(1), 0, limit);
        digits_stay_within(text.skip(1), 0, limit + 1);
    }
}

/// What is read stays within the limit, and each digit adds to ten times what was
/// read before it.
pub proof fn digits_stay_within(text: Seq<char>, acc: int, limit: int)
    requires
        0 <= acc <= limit,
    ensures
        read_digits(text, acc, limit) matches Ok(n) ==> acc <= n <= limit && forall|i: int|
            0 <= i < text.len() ==> '0' <= #[trigger] text[i] <= '9',
        text.len() == 0 ==> read_digits(text, acc, limit) == Ok::<int, NumberError>(acc),
        text.len() > 0 && '0' <= text[0] <= '9' && 10 * acc + (text[0] as int - '0' as int) <= limit
            ==> read_digits(text, acc, limit) == read_digits(
            text.skip(1),
            10 * acc + (text[0] as int - '0' as int),
            limit,
        ),
    decreases text.len(),
{
    if text.len() > 0 && is_digit(text[0]) && acc * 10 + digit_value(text[0]) <= limit {
        digits_stay_within(text.skip(1), acc * 10 + digit_value(text[0]), limit);
        if read_digits(text, acc, limit) is Ok {
            assert forall|i: int| 0 <= i < text.len() implies '0' <= #[trigger] text[i] <= '9' by {
                if i > 0 {
                    assert(text.skip(1)[i - 1] == text[i]);
                }
            }
        }
    }
}

} // verus!
