use vstd::prelude::*;
use vstd::string::StringExecFns;

verus! {

/// The character a decimal digit value stands for.
pub open spec fn digit_char(d: nat) -> char {
    if d == 0 {
        '0'
    } else if d == 1 {
        '1'
    } else if d == 2 {
        '2'
    } else if d == 3 {
        '3'
    } else if d == 4 {
        '4'
    } else if d == 5 {
        '5'
    } else if d == 6 {
        '6'
    } else if d == 7 {
        '7'
    } else if d == 8 {
        '8'
    } else {
        '9'
    }
}

/// The decimal representation of a number, most significant digit first,
/// with no leading zero except on zero itself.
pub open spec fn decimal(n: nat) -> Seq<char>
    decreases n,
{
    if n < 10 {
        seq![digit_char(n)]
    } else {
        decimal(n / 10) + seq![digit_char(n % 10)]
    }
}

fn digit_str(d: usize) -> (r: &'static str)
    requires
        d < 10,
    ensures
        r@ == seq![digit_char(d as nat)],
{
    match d {
        0 => {
            proof { reveal_strlit("0"); }
            let r = "0";
            proof { assert(r@ =~= seq![digit_char(0)]); }
            r
        },
        1 => {
            proof { reveal_strlit("1"); }
            let r = "1";
            proof { assert(r@ =~= seq![digit_char(1)]); }
            r
        },
        2 => {
            proof { reveal_strlit("2"); }
            let r = "2";
            proof { assert(r@ =~= seq![digit_char(2)]); }
            r
        },
        3 => {
            proof { reveal_strlit("3"); }
            let r = "3";
            proof { assert(r@ =~= seq![digit_char(3)]); }
            r
        },
        4 => {
            proof { reveal_strlit("4"); }
            let r = "4";
            proof { assert(r@ =~= seq![digit_char(4)]); }
            r
        },
        5 => {
            proof { reveal_strlit("5"); }
            let r = "5";
            proof { assert(r@ =~= seq![digit_char(5)]); }
            r
        },
        6 => {
            proof { reveal_strlit("6"); }
            let r = "6";
            proof { assert(r@ =~= seq![digit_char(6)]); }
            r
        },
        7 => {
            proof { reveal_strlit("7"); }
            let r = "7";
            proof { assert(r@ =~= seq![digit_char(7)]); }
            r
        },
        8 => {
            proof { reveal_strlit("8"); }
            let r = "8";
            proof { assert(r@ =~= seq![digit_char(8)]); }
            r
        },
        _ => {
            proof { reveal_strlit("9"); }
            let r = "9";
            proof { assert(r@ =~= seq![digit_char(9)]); }
            r
        },
    }
}

/// Renders a number in decimal, most significant digit first.
pub fn decimal_string(n: usize) -> (s: String)
    ensures
        s@ == decimal(n as nat),
    decreases n,
{
    if n < 10 {
        String::from_str(digit_str(n))
    } else {
        let mut s = decimal_string(n / 10);
        s.append(digit_str(n % 10));
        s
    }
}

/// The escape sequence that turns a terminal style on.
pub open spec fn style_on(code: Seq<char>) -> Seq<char> {
    "\u{1b}["@ + code + "m"@
}

/// The escape sequence that turns every terminal style off.
pub open spec fn style_off() -> Seq<char> {
    "\u{1b}[0m"@
}

/// How the colorizer renders a piece of text: verbatim when coloring is off
/// for this process, or wrapped in the style's escape sequences when it is on.
pub open spec fn styled(code: Seq<char>, text: Seq<char>, out: Seq<char>) -> bool {
    out == text || out == style_on(code) + text + style_off()
}

/// Relies on `text_colorizer::Colorize::green` and the display of its
/// result: the text verbatim, or wrapped in the green (code 32) escape
/// sequences, depending on whether this process colorizes.
#[verifier::external_body]
fn green_str(s: &str) -> (r: String)
    requires
        forall|i: int| 0 <= i < s@.len() ==> s@[i] != '\u{1b}',
    ensures
        styled("32"@, s@, r@),
{
    format!("{}", text_colorizer::Colorize::green(s))
}

/// Relies on `text_colorizer::Colorize::purple` and the display of its
/// result: the text verbatim, or wrapped in the magenta (code 35) escape
/// sequences, depending on whether this process colorizes.
#[verifier::external_body]
fn purple_str(s: &str) -> (r: String)
    requires
        forall|i: int| 0 <= i < s@.len() ==> s@[i] != '\u{1b}',
    ensures
        styled("35"@, s@, r@),
{
    format!("{}", text_colorizer::Colorize::purple(s))
}

/// Relies on `text_colorizer::Colorize::purple` and `bold` and the display
/// of their result: the text verbatim, or wrapped in the bold-magenta
/// (code 1;35) escape sequences, depending on whether this process
/// colorizes.
#[verifier::external_body]
fn purple_bold_str(s: &str) -> (r: String)
    requires
        forall|i: int| 0 <= i < s@.len() ==> s@[i] != '\u{1b}',
    ensures
        styled("1;35"@, s@, r@),
{
    format!("{}", text_colorizer::Colorize::bold(text_colorizer::Colorize::purple(s)))
}

/// The first line of the usage banner: the tool's name, possibly colored,
/// and its one-line description.
pub fn usage_first_line() -> (r: String)
    ensures
        exists|deco: Seq<char>|
            styled("32"@, "quickreplace"@, deco) && r@ == deco
                + " - change occurances of one string into another"@,
{
    proof {
        reveal_strlit("quickreplace");
    }
    let mut line = green_str("quickreplace");
    let ghost deco = line@;
    line.append(" - change occurances of one string into another");
    proof {
        assert(styled("32"@, "quickreplace"@, deco) && line@ == deco
            + " - change occurances of one string into another"@);
    }
    line
}

/// The second line of the usage banner: the template of an invocation,
/// showing the four positional slots.
pub fn usage_second_line() -> (r: String)
    ensures
        r@ == "Usage: quickreplace <target> <replacement> <INPUT> <OUTPUT>"@,
{
    String::from_str("Usage: quickreplace <target> <replacement> <INPUT> <OUTPUT>")
}

/// The diagnostic line for a wrong argument count: an error marker, possibly
/// colored, then the expected and the actual count.
pub fn wrong_count_line(actual: usize) -> (r: String)
    ensures
        exists|deco: Seq<char>|
            styled("35"@, "ERROR"@, deco) && r@ == deco
                + " wrong number of arguments: expected 4, got "@ + decimal(actual as nat),
{
    proof {
        reveal_strlit("ERROR");
    }
    let mut line = purple_str("ERROR");
    let ghost deco = line@;
    line.append(" wrong number of arguments: expected 4, got ");
    let count = decimal_string(actual);
    line.append(count.as_str());
    proof {
        assert(styled("35"@, "ERROR"@, deco) && line@ == deco
            + " wrong number of arguments: expected 4, got "@ + decimal(actual as nat));
    }
    line
}

/// The diagnostic line for a failed read: an error marker, possibly colored,
/// then the input path and the rendered cause.
pub fn read_failure_line(path: &str, cause: &str) -> (r: String)
    ensures
        exists|deco: Seq<char>|
            styled("35"@, "ERROR"@, deco) && r@ == deco + " failed to read from the file '"@
                + path@ + "':"@ + cause@,
{
    proof {
        reveal_strlit("ERROR");
    }
    let mut line = purple_str("ERROR");
    let ghost deco = line@;
    line.append(" failed to read from the file '");
    line.append(path);
    line.append("':");
    line.append(cause);
    proof {
        assert(styled("35"@, "ERROR"@, deco) && line@ == deco
            + " failed to read from the file '"@ + path@ + "':"@ + cause@);
    }
    line
}

/// The diagnostic line for a failed substitution: an error marker, possibly
/// colored, then the rendered cause.
pub fn replace_failure_line(cause: &str) -> (r: String)
    ensures
        exists|deco: Seq<char>|
            styled("1;35"@, "Error:"@, deco) && r@ == deco + " failed to replace text: "@
                + cause@,
{
    proof {
        reveal_strlit("Error:");
    }
    let mut line = purple_bold_str("Error:");
    let ghost deco = line@;
    line.append(" failed to replace text: ");
    line.append(cause);
    proof {
        assert(styled("1;35"@, "Error:"@, deco) && line@ == deco + " failed to replace text: "@
            + cause@);
    }
    line
}

/// The diagnostic line for a failed write: an error marker, possibly
/// colored, then the output path and the rendered cause.
pub fn write_failure_line(path: &str, cause: &str) -> (r: String)
    ensures
        exists|deco: Seq<char>|
            styled("35"@, "ERROR"@, deco) && r@ == deco + " failed to write to file '"@ + path@
                + "': "@ + cause@,
{
    proof {
        reveal_strlit("ERROR");
    }
    let mut line = purple_str("ERROR");
    let ghost deco = line@;
    line.append(" failed to write to file '");
    line.append(path);
    line.append("': ");
    line.append(cause);
    proof {
        assert(styled("35"@, "ERROR"@, deco) && line@ == deco + " failed to write to file '"@
            + path@ + "': "@ + cause@);
    }
    line
}

} // verus!
