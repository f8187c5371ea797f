//! Rendering commands into the window manager's textual command form.

use vstd::prelude::*;
use vstd::string::StringExecFns;

use crate::manager::{Command, CommandKind};

verus! {

/// The character for one decimal digit.
pub open spec fn digit_char(d: nat) -> char {
    if d == 0 {
        '0'
    } else if d == 1 {
        '1'
    } else if d == 2 {
        '2'
    } else if d == 3 {
        '3'
    } else if d == 4 {
        '4'
    } else if d == 5 {
        '5'
    } else if d == 6 {
        '6'
    } else if d == 7 {
        '7'
    } else if d == 8 {
        '8'
    } else {
        '9'
    }
}

/// The decimal digits of `n`, most significant first, no leading zeros.
pub open spec fn dec_spec(n: nat) -> Seq<char>
    decreases n,
{
    if n < 10 {
        seq![digit_char(n)]
    } else {
        dec_spec(n / 10).push(digit_char(n % 10))
    }
}

/// The trailing part of a command after the window selector.
pub open spec fn suffix_spec(k: CommandKind) -> Seq<char> {
    match k {
        CommandKind::TitleFormatPlain => "] title_format \"<span> %title </span>\""@,
        CommandKind::TitleFormatEmphasized => "] title_format \"<b> %title </b>\""@,
        CommandKind::Focus => "] focus"@,
    }
}

/// The exact text of a command as the command channel takes it: a selector
/// scoping it to one window, then the action.
pub open spec fn render_spec(c: Command) -> Seq<char> {
    "[con_id="@ + dec_spec(c.con_id as nat) + suffix_spec(c.kind)
}

fn digit_str(d: usize) -> (r: &'static str)
    requires
        d < 10,
    ensures
        r@ == seq![digit_char(d as nat)],
{
    let r: &'static str = match d {
        0 => "0",
        1 => "1",
        2 => "2",
        3 => "3",
        4 => "4",
        5 => "5",
        6 => "6",
        7 => "7",
        8 => "8",
        _ => "9",
    };
    proof {
        reveal_strlit("0");
        reveal_strlit("1");
        reveal_strlit("2");
        reveal_strlit("3");
        reveal_strlit("4");
        reveal_strlit("5");
        reveal_strlit("6");
        reveal_strlit("7");
        reveal_strlit("8");
        reveal_strlit("9");
        assert(r@ =~= seq![digit_char(d as nat)]);
    }
    r
}

/// Write `n` in decimal.
pub fn render_decimal(n: usize) -> (r: String)
    ensures
        r@ == dec_spec(n as nat),
    decreases n,
{
    if n < 10 {
        String::from_str(digit_str(n))
    } else {
        let mut r = render_decimal(n / 10);
        r.append(digit_str(n % 10));
        proof {
            assert(r@ =~= dec_spec(n as nat));
        }
        r
    }
}

/// Render one command into the text sent over the command connection.
pub fn render_command(cmd: &Command) -> (r: String)
    ensures
        r@ == render_spec(*cmd),
{
    let mut r = String::from_str("[con_id=");
    let digits = render_decimal(cmd.con_id);
    r.append(digits.as_str());
    match cmd.kind {
        CommandKind::TitleFormatPlain => r.append("] title_format \"<span> %title </span>\""),
        CommandKind::TitleFormatEmphasized => r.append("] title_format \"<b> %title </b>\""),
        CommandKind::Focus => r.append("] focus"),
    }
    r
}

} // verus!
