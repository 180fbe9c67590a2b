//! Text that the rest of the crate is rendered into: decimal numbers and bracketed lists.

use vstd::arithmetic::power::*;
use vstd::prelude::*;

verus! {

/// The character that stands for the digit `d`.
pub open spec fn digit(d: nat) -> char
    recommends
        d < 10,
{
    (48 + d) as char
}

/// The decimal notation of `n`, without leading zeros.
pub open spec fn decimal(n: nat) -> Seq<char>
    decreases n,
{
    if n < 10 {
        seq![digit(n)]
    } else {
        decimal(n / 10).push(digit(n % 10))
    }
}

/// The parts one after another, with a comma and a space between neighbours.
pub open spec fn comma_separated(parts: Seq<Seq<char>>) -> Seq<char>
    decreases parts.len(),
{
    if parts.len() == 0 {
        Seq::empty()
    } else if parts.len() == 1 {
        parts[0]
    } else {
        comma_separated(parts.drop_last()) + ", "@ + parts.last()
    }
}

/// The parts as a bracketed list.
pub open spec fn bracketed(parts: Seq<Seq<char>>) -> Seq<char> {
    "["@ + comma_separated(parts) + "]"@
}

/// Two numbers with the same decimal notation are the same number.
pub proof fn decimal_is_injective(a: nat, b: nat)
    requires
        decimal(a) == decimal(b),
    ensures
        a == b,
    decreases a,
{
    let ta = decimal(a);
    let tb = decimal(b);
    if a < 10 {
        if b >= 10 {
            decimal_is_not_empty(b / 10);
            assert(ta.len() == 1);
        }
        assert(ta[0] == tb[0]);
    } else {
        decimal_is_not_empty(a / 10);
        if b < 10 {
            assert(tb.len() == 1);
        }
        assert(ta.drop_last() == decimal(a / 10));
        assert(tb.drop_last() == decimal(b / 10));
        decimal_is_injective(a / 10, b / 10);
        assert(ta.last() == tb.last());
    }
}

/// Every decimal notation has at least one digit.
pub proof fn decimal_is_not_empty(n: nat)
    ensures
        decimal(n).len() >= 1,
{
}

/// Whether `c` is one of the ten digits.
pub open spec fn is_digit(c: char) -> bool {
    '0' <= c <= '9'
}

/// A decimal notation consists of digits.
pub proof fn decimal_consists_of_digits(n: nat)
    ensures
        forall|i: int| 0 <= i < decimal(n).len() ==> is_digit(#[trigger] decimal(n)[i]),
    decreases n,
{
    if n >= 10 {
        decimal_consists_of_digits(n / 10);
        let rest = decimal(n / 10);
        assert forall|i: int| 0 <= i < decimal(n).len() implies is_digit(
            #[trigger] decimal(n)[i],
        ) by {
            if i < rest.len() {
                assert(decimal(n)[i] == rest[i]);
            }
        }
    }
}

/// A number below the `len`-th power of ten has `len` digits at most.
proof fn decimal_length_is_bounded(n: nat, len: nat)
    requires
        len >= 1,
        n < pow(10, len),
    ensures
        decimal(n).len() <= len,
    decreases len,
{
    reveal(pow);
    if n >= 10 {
        if len == 1 {
            assert(pow(10, 0) == 1);
            assert(pow(10, 1) == 10);
        } else {
            let rest = pow(10, (len - 1) as nat);
            assert(pow(10, len) == 10 * rest);
            assert(n / 10 < rest);
            decimal_length_is_bounded(n / 10, (len - 1) as nat);
        }
    }
}

/// A number of 64 bits has 20 digits at most.
pub proof fn decimal_of_u64_is_short(n: u64)
    ensures
        decimal(n as nat).len() <= 20,
{
    reveal_with_fuel(pow, 21);
    assert(pow(10, 20) == 100_000_000_000_000_000_000);
    decimal_length_is_bounded(n as nat, 20);
}

/// The text of a single digit.
fn digit_text(d: u64) -> (text: &'static str)
    requires
        d < 10,
    ensures
        text@ == seq![digit(d as nat)],
{
    proof {
        reveal_strlit("0");
        reveal_strlit("1");
        reveal_strlit("2");
        reveal_strlit("3");
        reveal_strlit("4");
        reveal_strlit("5");
        reveal_strlit("6");
        reveal_strlit("7");
        reveal_strlit("8");
        reveal_strlit("9");
    }
    match d {
        0 => "0",
        1 => "1",
        2 => "2",
        3 => "3",
        4 => "4",
        5 => "5",
        6 => "6",
        7 => "7",
        8 => "8",
        _ => "9",
    }
}

/// Writes `n` in decimal notation.
pub fn decimal_string(n: u64) -> (text: String)
    ensures
        text@ == decimal(n as nat),
    decreases n,
{
    if n < 10 {
        digit_text(n).to_owned()
    } else {
        let mut text = decimal_string(n / 10);
        text.append(digit_text(n % 10));
        text
    }
}

/// The contents of each string of a list.
pub open spec fn contents(parts: Seq<String>) -> Seq<Seq<char>> {
    parts.map_values(|part: String| part@)
}

/// Writes the parts as a bracketed list.
pub fn bracketed_string(parts: &Vec<String>) -> (text: String)
    ensures
        text@ == bracketed(contents(parts@)),
{
    let mut text = "[".to_owned();
    for i in 0..parts.len()
        invariant
            text@ == "["@ + comma_separated(contents(parts@.take(i as int))),
    {
        let ghost before = contents(parts@.take(i as int));
        let ghost after = contents(parts@.take(i + 1));
        proof {
            assert(after.drop_last() == before);
            assert(after.last() == parts@[i as int]@);
        }
        if i > 0 {
            text.append(", ");
        }
        text.append(parts[i].as_str());
        assert(text@ == "["@ + comma_separated(after));
    }
    assert(parts@.take(parts@.len() as int) == parts@);
    text.append("]");
    text
}

/// The number that a row of digits stands for, where each digit counts ten times as much as the one
/// behind it.
pub open spec fn number_in(digits: Seq<char>) -> int
    decreases digits.len(),
{
    if digits.len() == 0 {
        0
    } else {
        10 * number_in(digits.drop_last()) + (digits.last() as int - '0' as int)
    }
}

/// Whether `text` is a row of digits that stands for `n` and has no zero in front that could be
/// left out.
pub open spec fn reads_as(text: Seq<char>, n: int) -> bool {
    &&& text.len() > 0
    &&& forall|i: int| 0 <= i < text.len() ==> is_digit(#[trigger] text[i])
    &&& text[0] == '0' ==> text.len() == 1
    &&& number_in(text) == n
}

/// Read digit by digit, the decimal notation of a number gives the number again.
pub proof fn decimal_reads_back(n: nat)
    ensures
        reads_as(decimal(n), n as int),
    decreases n,
{
    decimal_consists_of_digits(n);
    let text = decimal(n);
    if n < 10 {
        reveal_with_fuel(number_in, 2);
        assert(text.drop_last().len() == 0);
    } else {
        decimal_reads_back(n / 10);
        let rest = decimal(n / 10);
        assert(text.drop_last() == rest);
        assert(text[0] == rest[0]);
        if rest[0] == '0' {
            reveal_with_fuel(number_in, 2);
            assert(rest.drop_last().len() == 0);
        }
    }
}

/// A row of digits that does not begin with a zero stands for a number above zero.
proof fn number_without_leading_zero_is_positive(digits: Seq<char>)
    requires
        digits.len() > 0,
        forall|i: int| 0 <= i < digits.len() ==> is_digit(#[trigger] digits[i]),
        digits[0] != '0',
    ensures
        number_in(digits) > 0,
    decreases digits.len(),
{
    let rest = digits.drop_last();
    assert(is_digit(digits[digits.len() - 1]));
    if rest.len() > 0 {
        assert forall|i: int| 0 <= i < rest.len() implies is_digit(#[trigger] rest[i]) by {
            assert(rest[i] == digits[i]);
        }
        number_without_leading_zero_is_positive(rest);
    } else {
        assert(number_in(rest) == 0);
        assert(digits.last() == digits[0]);
    }
}

/// A number is written in one way only: as its decimal notation.
pub proof fn notation_is_unique(text: Seq<char>, n: nat)
    requires
        reads_as(text, n as int),
    ensures
        text == decimal(n),
    decreases text.len(),
{
    let rest = text.drop_last();
    assert(is_digit(text[text.len() - 1]));
    if rest.len() == 0 {
        assert(number_in(rest) == 0);
        assert(text == seq![digit(n)]);
    } else {
        assert(is_digit(text[0]));
        assert forall|i: int| 0 <= i < rest.len() implies is_digit(#[trigger] rest[i]) by {
            assert(rest[i] == text[i]);
        }
        assert(rest[0] == text[0]);
        number_without_leading_zero_is_positive(rest);
        let last = text.last() as int - '0' as int;
        assert(n == 10 * number_in(rest) + last);
        assert(n / 10 == number_in(rest));
        assert(n % 10 == last);
        notation_is_unique(rest, n / 10);
        assert(text == rest.push(digit(n % 10)));
    }
}

/// What is written of a number gives the number again when it is read digit by digit.
pub proof fn decimal_string_reads_back(n: u64, text: String)
    requires
        call_ensures(decimal_string, (n,), text),
    ensures
        reads_as(text@, n as int),
{
    decimal_reads_back(n as nat);
}

/// A list of no parts is empty, a list of one part is that part, and two lists one after another
/// are joined by a comma and a space.
pub proof fn lists_are_joined_by_commas(a: Seq<Seq<char>>, b: Seq<Seq<char>>, part: Seq<char>)
    ensures
        comma_separated(Seq::empty()) == Seq::<char>::empty(),
        comma_separated(seq![part]) == part,
        a.len() > 0 && b.len() > 0 ==> comma_separated(a + b) == comma_separated(a) + ", "@
            + comma_separated(b),
    decreases b.len(),
{
    if a.len() > 0 && b.len() > 0 {
        let all = a + b;
        assert(all.drop_last() == a + b.drop_last());
        assert(all.last() == b.last());
        if b.len() == 1 {
            assert(a + b.drop_last() == a);
        } else {
            lists_are_joined_by_commas(a, b.drop_last(), part);
        }
        assert(comma_separated(all) == comma_separated(a) + ", "@ + comma_separated(b));
    }
}

/// A list that is written stands in brackets, with a part for each string that it was made of.
pub proof fn list_stands_in_brackets(parts: Vec<String>, text: String, i: int)
    requires
        call_ensures(bracketed_string, (&parts,), text),
        0 <= i < parts@.len(),
    ensures
        text@.len() >= 2,
        text@.first() == '[',
        text@.last() == ']',
        text@.subrange(1, text@.len() - 1) == comma_separated(contents(parts@)),
        contents(parts@).len() == parts@.len(),
        contents(parts@)[i] == parts@[i]@,
{
    reveal_strlit("[");
    reveal_strlit("]");
    assert(text@ == "["@ + comma_separated(contents(parts@)) + "]"@);
}

} // verus!
