//! Text that the operator writes: decimal numbers and trimmed paths.

use vstd::prelude::*;
use vstd::string::*;

verus! {

/// The character of a decimal digit.
pub open spec fn digit(d: int) -> char {
    ('0' as int + d) as char
}

/// The decimal digits of a natural number, without leading zeros.
pub open spec fn digits(n: nat) -> Seq<char>
    decreases n,
{
    if n < 10 {
        seq![digit(n as int)]
    } else {
        digits(n / 10).push(digit((n % 10) as int))
    }
}

/// An integer in decimal, with a minus sign where it is negative.
pub open spec fn decimal(n: int) -> Seq<char> {
    if n < 0 {
        seq!['-'] + digits((-n) as nat)
    } else {
        digits(n as nat)
    }
}

fn digit_text(d: u32) -> (text: &'static str)
    requires
        d < 10,
    ensures
        text@ == seq![digit(d as int)],
{
    proof {
        reveal_strlit("0");
        reveal_strlit("1");
        reveal_strlit("2");
        reveal_strlit("3");
        reveal_strlit("4");
        reveal_strlit("5");
        reveal_strlit("6");
        reveal_strlit("7");
        reveal_strlit("8");
        reveal_strlit("9");
    }
    match d {
        0 => "0",
        1 => "1",
        2 => "2",
        3 => "3",
        4 => "4",
        5 => "5",
        6 => "6",
        7 => "7",
        8 => "8",
        _ => "9",
    }
}

fn append_digits(text: &mut String, n: u32)
    ensures
        final(text)@ == old(text)@ + digits(n as nat),
    decreases n,
{
    if n < 10 {
        text.append(digit_text(n));
    } else {
        append_digits(text, n / 10);
        text.append(digit_text(n % 10));
        proof {
            assert(digits(n as nat) == digits((n / 10) as nat).push(digit((n % 10) as int)));
        }
    }
}

/// Writes a number in decimal.
pub fn decimal_text(n: i32) -> (text: String)
    ensures
        text@ == decimal(n as int),
{
    let mut text = String::new();
    if n < 0 {
        proof {
            reveal_strlit("-");
        }
        let magnitude: i64 = -(n as i64);
        text.append("-");
        append_digits(&mut text, magnitude as u32);
    } else {
        append_digits(&mut text, n as u32);
    }
    text
}

/// A text without the slashes it starts with.
pub open spec fn without_leading_slashes(text: Seq<char>) -> Seq<char>
    decreases text.len(),
{
    if text.len() > 0 && text[0] == '/' {
        without_leading_slashes(text.skip(1))
    } else {
        text
    }
}

/// Removes the slashes that a path starts with.
pub fn trim_leading_slashes(text: &str) -> (rest: &str)
    ensures
        rest@ == without_leading_slashes(text@),
{
    let len: usize = text.unicode_len();
    let mut start: usize = 0;
    proof {
        assert(text@.skip(0) == text@);
    }
    while start < len && text.get_char(start) == '/'
        invariant
            start <= len,
            len == text@.len(),
            without_leading_slashes(text@) == without_leading_slashes(text@.skip(start as int)),
        decreases len - start,
    {
        proof {
            assert(text@.skip(start as int).skip(1) == text@.skip(start + 1));
        }
        start = start + 1;
    }
    proof {
        assert(text@.subrange(start as int, len as int) == text@.skip(start as int));
    }
    text.substring_char(start, len)
}

/// What is left of a trimmed path does not start with a slash, and is a suffix of
/// the path that it came from.
pub proof fn trimmed_has_no_leading_slash(text: Seq<char>)
    ensures
        without_leading_slashes(text).len() > 0 ==> without_leading_slashes(text)[0] != '/',
        without_leading_slashes(text).len() <= text.len(),
        without_leading_slashes(text) == text.skip(
            text.len() - without_leading_slashes(text).len(),
        ),
        forall|i: int|
            0 <= i < text.len() - without_leading_slashes(text).len() ==> #[trigger] text[i]
                == '/',
    decreases text.len(),
{
    if text.len() > 0 && text[0] == '/' {
        let rest = text.skip(1);
        trimmed_has_no_leading_slash(rest);
        let cut = text.len() - without_leading_slashes(text).len();
        assert(rest.skip(cut - 1) == text.skip(cut));
        assert forall|i: int| 0 <= i < cut implies #[trigger] text[i] == '/' by {
            if i > 0 {
                assert(rest[i - 1] == '/');
            }
        }
    } else {
        assert(text.skip(0) == text);
    }
}

/// The number that a row of decimal digits stands for.
pub open spec fn number_read(text: Seq<char>) -> int
    decreases text.len(),
{
    if text.len() == 0 {
        0
    } else {
        10 * number_read(text.drop_last()) + (text.last() as int - '0' as int)
    }
}

/// Nothing but decimal digits, at least one, and no zero in front of others.
pub open spec fn well_written(text: Seq<char>) -> bool {
    &&& text.len() > 0
    &&& forall|i: int| 0 <= i < text.len() ==> '0' <= #[trigger] text[i] <= '9'
    &&& text.len() > 1 ==> text[0] != '0'
}

proof fn lemma_digits_read_back(n: nat)
    ensures
        well_written(digits(n)),
        number_read(digits(n)) == n,
        n > 0 ==> digits(n)[0] != '0',
    decreases n,
{
    if n < 10 {
        let text = digits(n);
        assert(text.drop_last() =~= Seq::<char>::empty());
        assert(number_read(text.drop_last()) == 0);
        assert(text.last() as int == '0' as int + n);
    } else {
        lemma_digits_read_back(n / 10);
        let text = digits(n);
        assert(text.drop_last() =~= digits(n / 10));
        assert(text.last() as int == '0' as int + n % 10);
        assert(text[0] == digits(n / 10)[0]);
    }
}

/// A number that is written reads back as the same number: it is written in decimal digits
/// without a zero in front, and a negative one is the positive one behind a minus sign.
pub proof fn written_numbers_read_back(n: int)
    ensures
        n >= 0 ==> well_written(decimal(n)) && number_read(decimal(n)) == n,
        n < 0 ==> decimal(n)[0] == '-' && well_written(decimal(n).skip(1)) && number_read(
            decimal(n).skip(1),
        ) == -n,
{
    if n >= 0 {
        lemma_digits_read_back(n as nat);
    } else {
        lemma_digits_read_back((-n) as nat);
        assert(decimal(n).skip(1) =~= digits((-n) as nat));
    }
}

} // verus!
