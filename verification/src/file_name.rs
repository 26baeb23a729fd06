use vstd::prelude::*;
use vstd::string::StringExecFns;

verus! {

/// The directory, under the system's temporary directory, that holds the
/// files of the shell's screenshot service.
pub const SHELL_DIRECTORY: &'static str = "screenshot";

/// The decimal digit for `d`.
pub open spec fn digit_char(d: int) -> char {
    if d == 0 {
        '0'
    } else if d == 1 {
        '1'
    } else if d == 2 {
        '2'
    } else if d == 3 {
        '3'
    } else if d == 4 {
        '4'
    } else if d == 5 {
        '5'
    } else if d == 6 {
        '6'
    } else if d == 7 {
        '7'
    } else if d == 8 {
        '8'
    } else {
        '9'
    }
}

/// `n` in decimal digits, without leading zeros.
pub open spec fn decimal(n: nat) -> Seq<char>
    decreases n,
{
    if n < 10 {
        seq![digit_char(n as int)]
    } else {
        decimal(n / 10).push(digit_char((n % 10) as int))
    }
}

/// The name of the file for a capture that starts `micros` microseconds
/// after the epoch: the number, and the extension of a PNG file.
pub open spec fn shell_file_name_text(micros: nat) -> Seq<char> {
    decimal(micros) + seq!['.', 'p', 'n', 'g']
}

fn digit_text(d: u8) -> (text: &'static str)
    requires
        d < 10,
    ensures
        text@ == seq![digit_char(d as int)],
{
    proof {
        reveal_strlit("0");
        reveal_strlit("1");
        reveal_strlit("2");
        reveal_strlit("3");
        reveal_strlit("4");
        reveal_strlit("5");
        reveal_strlit("6");
        reveal_strlit("7");
        reveal_strlit("8");
        reveal_strlit("9");
    }
    let text = if d == 0 {
        "0"
    } else if d == 1 {
        "1"
    } else if d == 2 {
        "2"
    } else if d == 3 {
        "3"
    } else if d == 4 {
        "4"
    } else if d == 5 {
        "5"
    } else if d == 6 {
        "6"
    } else if d == 7 {
        "7"
    } else if d == 8 {
        "8"
    } else {
        "9"
    };
    assert(text@ =~= seq![digit_char(d as int)]);
    text
}

fn append_decimal(text: &mut String, n: u128)
    ensures
        final(text)@ == old(text)@ + decimal(n as nat),
    decreases n,
{
    if n >= 10 {
        append_decimal(text, n / 10);
    }
    text.append(digit_text((n % 10) as u8));
    assert(final(text)@ =~= old(text)@ + decimal(n as nat));
}

/// The name of the file that the shell's service is to write for a capture
/// that starts `micros` microseconds after the epoch.
pub fn shell_file_name(micros: u128) -> (name: String)
    ensures
        name@ == shell_file_name_text(micros as nat),
{
    let mut name = String::new();
    append_decimal(&mut name, micros);
    proof {
        reveal_strlit(".png");
    }
    name.append(".png");
    assert(name@ =~= shell_file_name_text(micros as nat));
    name
}

} // verus!
