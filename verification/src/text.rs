//! Text building blocks: decimal numerals, joined paths and the name of the
//! host target.

use vstd::prelude::*;

verus! {

/// `String::push`: the character is added at the end.
pub assume_specification[ String::push ](text: &mut String, ch: char)
    ensures
        final(text)@ == old(text)@.push(ch),
;

/// The character of a decimal digit.
pub open spec fn digit_char(digit: nat) -> char {
    if digit == 0 {
        '0'
    } else if digit == 1 {
        '1'
    } else if digit == 2 {
        '2'
    } else if digit == 3 {
        '3'
    } else if digit == 4 {
        '4'
    } else if digit == 5 {
        '5'
    } else if digit == 6 {
        '6'
    } else if digit == 7 {
        '7'
    } else if digit == 8 {
        '8'
    } else {
        '9'
    }
}

/// The decimal numeral of a number: no sign, no leading zero but for zero
/// itself.
pub open spec fn decimal_text(number: nat) -> Seq<char>
    decreases number,
{
    if number < 10 {
        seq![digit_char(number)]
    } else {
        decimal_text(number / 10).push(digit_char(number % 10))
    }
}

/// The number that a digit character stands for; zero for any other character.
pub open spec fn digit_value(ch: char) -> nat {
    if ch == '1' {
        1
    } else if ch == '2' {
        2
    } else if ch == '3' {
        3
    } else if ch == '4' {
        4
    } else if ch == '5' {
        5
    } else if ch == '6' {
        6
    } else if ch == '7' {
        7
    } else if ch == '8' {
        8
    } else if ch == '9' {
        9
    } else {
        0
    }
}

/// Whether a character is a decimal digit.
pub open spec fn is_digit(ch: char) -> bool {
    ch == '0' || digit_value(ch) > 0
}

/// The number that a run of digits reads as in base ten.
pub open spec fn numeral_value(text: Seq<char>) -> nat
    decreases text.len(),
{
    if text.len() == 0 {
        0
    } else {
        10 * numeral_value(text.drop_last()) + digit_value(text.last())
    }
}

/// The decimal numeral of a number is made of digits only, reads back as the
/// number, and starts with a zero only where the number is zero.
pub proof fn law_decimal_text_reads_back(number: nat)
    ensures
        decimal_text(number).len() > 0,
        forall|at: int| 0 <= at < decimal_text(number).len() ==> is_digit(decimal_text(number)[at]),
        numeral_value(decimal_text(number)) == number,
        decimal_text(number)[0] == '0' <==> number == 0,
    decreases number,
{
    if number < 10 {
        assert(seq![digit_char(number)].drop_last() =~= Seq::<char>::empty());
        assert(numeral_value(Seq::<char>::empty()) == 0);
    } else {
        law_decimal_text_reads_back(number / 10);
        let head = decimal_text(number / 10);
        assert(head.push(digit_char(number % 10)).drop_last() =~= head);
    }
}

/// A path under a base directory, with `/` between the two: the name alone if
/// it starts at the root, and no second `/` after a base that ends in one or is
/// empty.
pub open spec fn joined_path(base: Seq<char>, name: Seq<char>) -> Seq<char> {
    if name.len() > 0 && name[0] == '/' {
        name
    } else if base.len() == 0 || base.last() == '/' {
        base + name
    } else {
        base + seq!['/'] + name
    }
}

/// The name of a host target: architecture, `-unknown-`, and the operating
/// system's name with its spaces taken out.
pub open spec fn host_target_text(arch: Seq<char>, os: Seq<char>) -> Seq<char> {
    arch + "-unknown-"@ + without_spaces(os)
}

/// The test that every character but the space passes.
pub open spec fn not_space() -> spec_fn(char) -> bool {
    |ch: char| ch != ' '
}

/// A text with its spaces taken out.
pub open spec fn without_spaces(text: Seq<char>) -> Seq<char> {
    text.filter(not_space())
}

fn digit(value: u32) -> (ch: char)
    requires
        value < 10,
    ensures
        ch == digit_char(value as nat),
{
    if value == 0 {
        '0'
    } else if value == 1 {
        '1'
    } else if value == 2 {
        '2'
    } else if value == 3 {
        '3'
    } else if value == 4 {
        '4'
    } else if value == 5 {
        '5'
    } else if value == 6 {
        '6'
    } else if value == 7 {
        '7'
    } else if value == 8 {
        '8'
    } else {
        '9'
    }
}

/// Adds the decimal numeral of a number to the end of a text.
pub fn push_decimal(text: &mut String, number: u32)
    ensures
        final(text)@ == old(text)@ + decimal_text(number as nat),
    decreases number,
{
    if number >= 10 {
        push_decimal(text, number / 10);
    }
    text.push(digit(number % 10));
    assert(final(text)@ =~= old(text)@ + decimal_text(number as nat));
}

/// The decimal numeral of a number.
pub fn decimal(number: u32) -> (text: String)
    ensures
        text@ == decimal_text(number as nat),
{
    let mut text = String::new();
    push_decimal(&mut text, number);
    assert(text@ =~= decimal_text(number as nat));
    text
}

/// Joins a name to a base directory.
pub fn join_path(base: &str, name: &str) -> (path: String)
    ensures
        path@ == joined_path(base@, name@),
{
    let name_len = name.unicode_len();
    if name_len > 0 && name.get_char(0) == '/' {
        return String::from_str(name);
    }
    let base_len = base.unicode_len();
    let mut path = String::from_str(base);
    if base_len > 0 && base.get_char(base_len - 1) != '/' {
        path.push('/');
    }
    path.append(name);
    assert(path@ =~= joined_path(base@, name@));
    path
}

/// Names the host target from the names of its architecture and operating
/// system.
pub fn host_target(arch: &str, os: &str) -> (target: String)
    ensures
        target@ == host_target_text(arch@, os@),
{
    let mut target = String::from_str(arch);
    target.append("-unknown-");
    let os_len = os.unicode_len();
    let mut at: usize = 0;
    while at < os_len
        invariant
            at <= os_len,
            os_len == os@.len(),
            target@ == arch@ + "-unknown-"@ + without_spaces(os@.take(at as int)),
        decreases os_len - at,
    {
        let ch = os.get_char(at);
        proof {
            assert(os@.take(at + 1) =~= os@.take(at as int).push(ch));
            os@.take(at as int).lemma_filter_push(ch, not_space());
        }
        if ch != ' ' {
            target.push(ch);
        }
        at = at + 1;
        assert(target@ =~= arch@ + "-unknown-"@ + without_spaces(os@.take(at as int)));
    }
    assert(os@.take(at as int) =~= os@);
    target
}

} // verus!
