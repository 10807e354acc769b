//! Port numbers as decimal text: reading one from a line of the
//! configuration format and writing one back.

use vstd::prelude::*;

verus! {

/// The largest port number.
pub const MAX_PORT: u16 = 65535;

/// One of the ten ASCII digits.
pub open spec fn is_digit(c: char) -> bool {
    '0' <= c <= '9'
}

/// What a digit stands for; a character that is no digit counts as nothing.
pub open spec fn digit_value(c: char) -> nat {
    if is_digit(c) {
        (c as int - '0' as int) as nat
    } else {
        0
    }
}

/// The digit that stands for `d`.
pub open spec fn digit_char(d: nat) -> char
    recommends
        d < 10,
{
    ('0' as int + d) as char
}

/// Every character is a digit.
pub open spec fn all_digits(s: Seq<char>) -> bool {
    forall|i: int| 0 <= i < s.len() ==> is_digit(#[trigger] s[i])
}

/// The number that a run of digits writes in base ten.
pub open spec fn decimal_value(digits: Seq<char>) -> nat
    decreases digits.len(),
{
    if digits.len() == 0 {
        0
    } else {
        decimal_value(digits.drop_last()) * 10 + digit_value(digits.last())
    }
}

/// `n` written in base ten, without leading zeros.
pub open spec fn decimal_text(n: nat) -> Seq<char>
    decreases n,
{
    if n < 10 {
        seq![digit_char(n)]
    } else {
        decimal_text(n / 10).push(digit_char(n % 10))
    }
}

/// The text without the single `+` that may stand in front of a number.
pub open spec fn without_sign(text: Seq<char>) -> Seq<char> {
    if text.len() > 0 && text[0] == '+' {
        text.skip(1)
    } else {
        text
    }
}

/// The port that `text` names, if it names one: an optional `+`, then one or
/// more digits and nothing else, whose value lies between 1 and 65535.
/// Leading zeros are allowed; spaces, a `-` and an empty text are not.
pub open spec fn port_of(text: Seq<char>) -> Option<u16> {
    let digits = without_sign(text);
    if digits.len() >= 1 && all_digits(digits) && 1 <= decimal_value(digits) <= MAX_PORT {
        Some(decimal_value(digits) as u16)
    } else {
        None
    }
}

/// The written form of a number consists of digits only, is not empty, and
/// reads back as the number.
pub proof fn lemma_decimal_text_reads_back(n: nat)
    ensures
        decimal_text(n).len() >= 1,
        all_digits(decimal_text(n)),
        decimal_value(decimal_text(n)) == n,
    decreases n,
{
    if n < 10 {
        let text = decimal_text(n);
        assert(text.drop_last() =~= Seq::empty());
        assert(decimal_value(text.drop_last()) == 0);
        assert(text.last() == digit_char(n));
    } else {
        lemma_decimal_text_reads_back(n / 10);
        let text = decimal_text(n);
        assert(text.drop_last() =~= decimal_text(n / 10));
        assert(text.last() == digit_char(n % 10));
    }
}

/// A port number, written and read again, is the same port number.
pub proof fn lemma_port_reads_back(port: u16)
    requires
        port >= 1,
    ensures
        port_of(decimal_text(port as nat)) == Some(port),
{
    lemma_decimal_text_reads_back(port as nat);
    let text = decimal_text(port as nat);
    assert(is_digit(text[0]));
}

/// The word for a single digit.
fn digit_word(d: u16) -> (word: &'static str)
    requires
        d < 10,
    ensures
        word@ == seq![digit_char(d as nat)],
{
    proof {
        reveal_strlit("0");
        reveal_strlit("1");
        reveal_strlit("2");
        reveal_strlit("3");
        reveal_strlit("4");
        reveal_strlit("5");
        reveal_strlit("6");
        reveal_strlit("7");
        reveal_strlit("8");
        reveal_strlit("9");
    }
    let word = if d == 0 {
        "0"
    } else if d == 1 {
        "1"
    } else if d == 2 {
        "2"
    } else if d == 3 {
        "3"
    } else if d == 4 {
        "4"
    } else if d == 5 {
        "5"
    } else if d == 6 {
        "6"
    } else if d == 7 {
        "7"
    } else if d == 8 {
        "8"
    } else {
        "9"
    };
    assert(word@ =~= seq![digit_char(d as nat)]);
    word
}

/// Writes a port number in base ten.
pub fn port_text(port: u16) -> (text: String)
    ensures
        text@ == decimal_text(port as nat),
    decreases port,
{
    if port < 10 {
        digit_word(port).to_owned()
    } else {
        let mut text = port_text(port / 10);
        text.append(digit_word(port % 10));
        assert(text@ =~= decimal_text(port as nat));
        text
    }
}

/// Reads a port number from `text`, in the manner of [`port_of`].
pub fn parse_port(text: &str) -> (port: Option<u16>)
    ensures
        port == port_of(text@),
{
    let mut value: u32 = 0;
    let mut any_digit = false;
    let mut stray = false;
    let mut too_big = false;
    let mut first = true;
    proof {
        assert(text@.take(0) =~= Seq::empty());
    }
    for c in it: text.chars()
        invariant
            it.seq() == text@,
            first == (it.index() == 0),
            any_digit == (without_sign(text@.take(it.index() as int)).len() > 0),
            stray == !all_digits(without_sign(text@.take(it.index() as int))),
            too_big ==> decimal_value(without_sign(text@.take(it.index() as int))) > MAX_PORT,
            !stray && !too_big ==> decimal_value(without_sign(text@.take(it.index() as int)))
                == value,
            value <= MAX_PORT,
    {
        let ghost i = it.index() as int;
        let ghost seen = without_sign(text@.take(i));
        let ghost next = without_sign(text@.take(i + 1));
        if first && c == '+' {
            proof {
                assert(next =~= Seq::empty());
                assert(seen =~= Seq::empty());
            }
        } else {
            proof {
                assert(text@.take(i + 1)[0] == text@[0]);
                assert(next =~= seen.push(c));
                assert(next.drop_last() =~= seen);
                assert(next.last() == c);
                if is_digit(c) {
                    if all_digits(seen) {
                        assert(all_digits(next));
                    } else {
                        let j = choose|j: int| 0 <= j < seen.len() && !is_digit(#[trigger] seen[j]);
                        assert(next[j] == seen[j]);
                    }
                } else {
                    assert(!is_digit(next[next.len() - 1]));
                }
            }
            any_digit = true;
            if '0' <= c && c <= '9' {
                if !stray && !too_big {
                    let digit = c as u32 - '0' as u32;
                    let grown = value * 10 + digit;
                    if grown > MAX_PORT as u32 {
                        too_big = true;
                    } else {
                        value = grown;
                    }
                }
            } else {
                stray = true;
            }
        }
        first = false;
    }
    proof {
        assert(text@.take(text@.len() as int) =~= text@);
    }
    if !any_digit || stray || too_big || value == 0 {
        None
    } else {
        Some(value as u16)
    }
}

} // verus!
