//! Decimal numbers, written and read, and ASCII case folding.
use vstd::prelude::*;

verus! {

/// The character of one decimal digit.
pub open spec fn digit(d: nat) -> char {
    (48 + d) as char
}

/// A number in decimal, without leading zeros.
pub open spec fn decimal(n: nat) -> Seq<char>
    decreases n,
{
    if n < 10 {
        seq![digit(n)]
    } else {
        decimal(n / 10).push(digit(n % 10))
    }
}

/// A character with `A` to `Z` mapped to `a` to `z`, and every other one kept.
pub open spec fn lower_char(c: char) -> char {
    if 'A' <= c && c <= 'Z' {
        (c as u32 + 32) as char
    } else {
        c
    }
}

/// A text with each character mapped by [`lower_char`].
pub open spec fn lowered(s: Seq<char>) -> Seq<char> {
    s.map_values(|c: char| lower_char(c))
}

/// `str::to_ascii_lowercase` of the standard library: a copy of the text in
/// which each ASCII upper case letter is its lower case letter, and every other
/// character is unchanged.
pub assume_specification[ str::to_ascii_lowercase ](s: &str) -> (r: String)
    ensures
        r@ == lowered(s@),
;

fn digit_text(d: u64) -> (r: &'static str)
    requires
        d < 10,
    ensures
        r@ == seq![digit(d as nat)],
{
    proof {
        reveal_strlit("0");
        reveal_strlit("1");
        reveal_strlit("2");
        reveal_strlit("3");
        reveal_strlit("4");
        reveal_strlit("5");
        reveal_strlit("6");
        reveal_strlit("7");
        reveal_strlit("8");
        reveal_strlit("9");
    }
    let r = match d {
        0 => "0",
        1 => "1",
        2 => "2",
        3 => "3",
        4 => "4",
        5 => "5",
        6 => "6",
        7 => "7",
        8 => "8",
        _ => "9",
    };
    assert(r@ =~= seq![digit(d as nat)]);
    r
}

/// Writes a number in decimal.
pub fn decimal_text(n: u64) -> (r: String)
    ensures
        r@ == decimal(n as nat),
    decreases n,
{
    if n < 10 {
        digit_text(n).to_owned()
    } else {
        let mut r = decimal_text(n / 10);
        r.append(digit_text(n % 10));
        assert(r@ =~= decimal(n as nat));
        r
    }
}

/// The number that decimal digits are written for.
pub open spec fn digits_value(digits: Seq<char>) -> nat
    decreases digits.len(),
{
    if digits.len() == 0 {
        0
    } else {
        digits_value(digits.drop_last()) * 10 + (digits.last() as nat - 48) as nat
    }
}

/// Whether a text is made of decimal digits alone.
pub open spec fn all_digits(text: Seq<char>) -> bool {
    forall|i: int| 0 <= i < text.len() ==> '0' <= #[trigger] text[i] && text[i] <= '9'
}

/// The number that a text is read as: decimal digits, behind a `+` or not.
pub open spec fn number(text: Seq<char>) -> Option<nat> {
    let digits = if text.len() > 0 && text[0] == '+' {
        text.skip(1)
    } else {
        text
    };
    if digits.len() > 0 && all_digits(digits) {
        Some(digits_value(digits))
    } else {
        None
    }
}

proof fn more_digits_are_more(digits: Seq<char>, n: int)
    requires
        all_digits(digits),
        0 <= n <= digits.len(),
    ensures
        digits_value(digits.take(n)) <= digits_value(digits),
    decreases digits.len(),
{
    if n < digits.len() {
        more_digits_are_more(digits.drop_last(), n);
        assert(digits.drop_last().take(n) =~= digits.take(n));
    } else {
        assert(digits.take(n) =~= digits);
    }
}

/// Reads a number, if the text is one and it is not too large.
pub fn parse_number(text: &str) -> (r: Option<usize>)
    ensures
        match number(text@) {
            Some(n) if n <= usize::MAX => r == Some(n as usize),
            _ => r is None,
        },
{
    let len: usize = text.unicode_len();
    let start: usize = if len > 0 && text.get_char(0) == '+' {
        1
    } else {
        0
    };
    let ghost digits = text@.skip(start as int);
    assert(start == 0 ==> digits =~= text@);
    if start == len {
        return None;
    }
    let mut i: usize = start;
    let mut n: usize = 0;
    while i < len
        invariant
            len == text@.len(),
            start <= i <= len,
            digits == text@.skip(start as int),
            digits.len() > 0,
            number(text@) == if all_digits(digits) {
                Some(digits_value(digits))
            } else {
                None
            },
            all_digits(digits.take(i - start)),
            n == digits_value(digits.take(i - start)),
        decreases len - i,
    {
        let c = text.get_char(i);
        let ghost at = i - start;
        assert(digits[at] == c);
        if c < '0' || c > '9' {
            return None;
        }
        let d: usize = (c as u32 - 48) as usize;
        assert(digits.take(at + 1).drop_last() =~= digits.take(at));
        assert(digits_value(digits.take(at + 1)) == n * 10 + d);
        if n > (usize::MAX - d) / 10 {
            proof {
                if all_digits(digits) {
                    more_digits_are_more(digits, at + 1);
                }
            }
            return None;
        }
        n = n * 10 + d;
        i = i + 1;
    }
    assert(digits.take(len - start) =~= digits);
    Some(n)
}

/// Reading a number gives back what was written.
pub proof fn reading_gives_back_writing(n: nat)
    ensures
        number(decimal(n)) == Some(n),
{
    decimal_is_read(n);
    assert('0' <= decimal(n)[0]);
}

proof fn decimal_is_read(n: nat)
    ensures
        decimal(n).len() > 0,
        all_digits(decimal(n)),
        digits_value(decimal(n)) == n,
    decreases n,
{
    if n < 10 {
        assert(decimal(n).drop_last() =~= Seq::<char>::empty());
        assert(digits_value(decimal(n).drop_last()) == 0);
    } else {
        decimal_is_read(n / 10);
        assert(decimal(n).drop_last() =~= decimal(n / 10));
        assert forall|i: int| 0 <= i < decimal(n).len() implies '0' <= #[trigger] decimal(n)[i]
            && decimal(n)[i] <= '9' by {
            if i < decimal(n / 10).len() {
                assert(decimal(n)[i] == decimal(n / 10)[i]);
            }
        }
    }
}

/// Lowering a text twice is lowering it once.
pub proof fn lowered_is_idempotent(s: Seq<char>)
    ensures
        lowered(lowered(s)) == lowered(s),
{
    assert(lowered(lowered(s)) =~= lowered(s));
}

/// A number is written digit by digit: one below ten as its digit, and every other one
/// as a tenth of it is written, with the last digit behind.
pub proof fn numbers_are_written_digit_by_digit(n: u64, tenth: u64, r: String, shorter: String)
    requires
        tenth == n / 10,
        call_ensures(decimal_text, (n,), r),
        call_ensures(decimal_text, (tenth,), shorter),
    ensures
        r@ == decimal(n as nat),
        n < 10 ==> r@.len() == 1 && r@[0] as int == '0' as int + n,
        n >= 10 ==> {
            &&& r@.len() == shorter@.len() + 1
            &&& r@.drop_last() == shorter@
            &&& r@.last() as int == '0' as int + n % 10
        },
{
    if n >= 10 {
        assert(r@.drop_last() =~= shorter@);
    }
}

/// As [`numbers_are_written_digit_by_digit`], for numbers of any size.
pub proof fn decimals_are_written_digit_by_digit(n: nat)
    ensures
        n < 10 ==> decimal(n).len() == 1 && decimal(n)[0] as int == '0' as int + n,
        n >= 10 ==> {
            &&& decimal(n).len() == decimal(n / 10).len() + 1
            &&& decimal(n).drop_last() == decimal(n / 10)
            &&& decimal(n).last() as int == '0' as int + n % 10
        },
{
    if n >= 10 {
        assert(decimal(n).drop_last() =~= decimal(n / 10));
    }
}

/// A number is read digit by digit: a digit as itself, and a number with a digit behind
/// it as ten times the number and the digit.
pub proof fn numbers_are_read_digit_by_digit(text: Seq<char>, c: char)
    requires
        '0' <= c <= '9',
        text.len() == 0 || number(text) is Some,
    ensures
        number(text.push(c)) is Some,
        text.len() == 0 ==> number(text.push(c))->Some_0 == c as int - '0' as int,
        text.len() > 0 ==> number(text.push(c))->Some_0 == 10 * number(text)->Some_0 + (c as int
            - '0' as int),
{
    let longer = text.push(c);
    let signed = text.len() > 0 && text[0] == '+';
    let digits = if signed {
        text.skip(1)
    } else {
        text
    };
    let more = if signed {
        longer.skip(1)
    } else {
        longer
    };
    assert(more =~= digits.push(c));
    assert(more.drop_last() =~= digits);
    if digits.len() == 0 {
        assert(digits_value(digits) == 0);
    }
    assert forall|i: int| 0 <= i < more.len() implies '0' <= #[trigger] more[i] && more[i]
        <= '9' by {
        if i < digits.len() {
            assert(more[i] == digits[i]);
        }
    }
}

/// Nothing but digits, behind a `+` or not, is read as a number, and a `+` makes no
/// difference to it.
pub proof fn only_digits_are_read(text: Seq<char>, i: int)
    ensures
        text.len() == 0 ==> number(text) is None,
        text == seq!['+'] ==> number(text) is None,
        0 <= i < text.len() && !('0' <= text[i] && text[i] <= '9') && (i > 0 || text[0] != '+')
            ==> number(text) is None,
        number(text) is Some && text[0] != '+' ==> number(seq!['+'] + text) == number(text),
{
    if 0 < i < text.len() && text[0] == '+' {
        assert(text.skip(1)[i - 1] == text[i]);
    }
    assert((seq!['+'] + text).skip(1) =~= text);
}

/// Reading gives a number exactly where the text is one that fits.
pub proof fn numbers_that_fit_are_read(text: &str, r: Option<usize>)
    requires
        call_ensures(parse_number, (text,), r),
    ensures
        r is Some <==> number(text@) is Some && number(text@)->Some_0 <= usize::MAX,
        r matches Some(n) ==> number(text@) == Some(n as nat),
{
}

} // verus!
