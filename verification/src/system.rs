//! Battery-status formatting.
//!
//! Reading the battery is the boundary's work; the measured charge
//! level and charging flag come in as plain values, possibly
//! overridden by the command's own options. This module decides the
//! icon and renders the one output line.

use vstd::prelude::*;

use crate::args::SystemCmd;
use crate::json::{hex_digit, push_char};

verus! {

/// The icon for a battery at `level` percent, or on the charger.
pub open spec fn battery_icon(charging: bool, level: int) -> Seq<char> {
    if charging {
        "\u{f1e6}"@
    } else if level < 20 {
        "\u{f244}"@
    } else if level < 40 {
        "\u{f243}"@
    } else if level < 60 {
        "\u{f242}"@
    } else if level < 80 {
        "\u{f241}"@
    } else {
        "\u{f240}"@
    }
}

/// The decimal digits of a non-negative number.
pub open spec fn dec_digits(n: int) -> Seq<char>
    decreases n,
{
    if n < 10 {
        seq![hex_digit(if n < 0 { 0 } else { n })]
    } else {
        dec_digits(n / 10).push(hex_digit(n % 10))
    }
}

/// The one battery status line: icon, spaces, percentage, newline.
pub open spec fn battery_line(charging: bool, level: int, spaces: int) -> Seq<char> {
    battery_icon(charging, level) + Seq::new(if spaces < 0 { 0 } else { spaces as nat }, |i: int| ' ')
        + dec_digits(level) + seq!['%', '\n']
}

/// The character for the decimal digit `d`.
fn digit_char(d: u32) -> (r: char)
    requires
        d < 10,
    ensures
        r == hex_digit(d as int),
{
    if d == 0 { '0' } else if d == 1 { '1' } else if d == 2 { '2' } else if d == 3 { '3' }
    else if d == 4 { '4' } else if d == 5 { '5' } else if d == 6 { '6' } else if d == 7 { '7' }
    else if d == 8 { '8' } else { '9' }
}

/// Appends the decimal digits of a non-negative number.
fn write_dec(n: i32, out: &mut String)
    ensures
        final(out)@ == old(out)@ + dec_digits(n as int),
    decreases n,
{
    if n < 0 {
        push_char(out, '0');
    } else if n < 10 {
        push_char(out, digit_char(n as u32));
    } else {
        write_dec(n / 10, out);
        push_char(out, digit_char((n % 10) as u32));
    }
}

/// Renders the battery status line for a charge of `level` percent.
/// A discharging battery's level must lie in `0..=100`, as the icon
/// bands demand; on the charger any non-negative level renders.
fn battery(charging: bool, level: i32, num_spaces: u32) -> (r: String)
    requires
        0 <= level,
        charging || level <= 100,
    ensures
        r@ == battery_line(charging, level as int, num_spaces as int),
{
    let icon: &str = if charging {
        "\u{f1e6}"
    } else if level < 20 {
        "\u{f244}"
    } else if level < 40 {
        "\u{f243}"
    } else if level < 60 {
        "\u{f242}"
    } else if level < 80 {
        "\u{f241}"
    } else {
        "\u{f240}"
    };
    let mut out = String::new();
    out.append(icon);
    let mut i: u32 = 0;
    while i < num_spaces
        invariant
            i <= num_spaces,
            out@ == battery_icon(charging, level as int) + Seq::new(i as nat, |k: int| ' '),
        decreases num_spaces - i,
    {
        push_char(&mut out, ' ');
        proof {
            assert(out@ =~= battery_icon(charging, level as int) + Seq::new(
                (i + 1) as nat,
                |k: int| ' ',
            ));
        }
        i += 1;
    }
    write_dec(level, &mut out);
    push_char(&mut out, '%');
    push_char(&mut out, '\n');
    proof {
        assert(out@ =~= battery_line(charging, level as int, num_spaces as int));
    }
    out
}

/// Carries out one system command on the measured battery state,
/// returning the line to emit. An override replaces the measured
/// value it addresses; a discharging level must end up in `0..=100`
/// (the original aborts outside that range), while a charging one
/// only needs to be non-negative.
pub fn handle_cmd(cmd: &SystemCmd, measured_level: i32, measured_charging: bool) -> (r: String)
    requires
        match *cmd {
            SystemCmd::Battery { override_percentage, override_charging, .. } => {
                let level: int = match override_percentage {
                    Some(p) => p as int,
                    None => measured_level as int,
                };
                let charging = match override_charging {
                    Some(c) => c,
                    None => measured_charging,
                };
                0 <= level && (charging || level <= 100)
            },
        },
    ensures
        match *cmd {
            SystemCmd::Battery { num_spaces, override_percentage, override_charging } => {
                let level: int = match override_percentage {
                    Some(p) => p as int,
                    None => measured_level as int,
                };
                let charging = match override_charging {
                    Some(c) => c,
                    None => measured_charging,
                };
                r@ == battery_line(charging, level, num_spaces as int)
            },
        },
{
    match cmd {
        SystemCmd::Battery { num_spaces, override_percentage, override_charging } => {
            let level: i32 = match override_percentage {
                Some(p) => *p as i32,
                None => measured_level,
            };
            let charging: bool = match override_charging {
                Some(c) => *c,
                None => measured_charging,
            };
            battery(charging, level, *num_spaces)
        },
    }
}

} // verus!
