//! The texts that the status bar shows: pending package updates, the weather
//! and the battery charge.

use vstd::prelude::*;
use crate::command::{command, Command};
use crate::text::{
    chars_of, decimal_digits, is_white_space, lemma_trim_digits_line, parse_decimal, parse_unsigned,
    string_of, trim, trim_chars, trimmed,
};

verus! {

/// What a command's output becomes where the command failed: nothing.
pub open spec fn output_or_empty(output: Option<String>) -> Seq<char> {
    match output {
        Some(s) => s@,
        None => Seq::<char>::empty(),
    }
}

/// The characters of the output, or none where there is no output.
pub(crate) fn output_chars(output: Option<String>) -> (v: Vec<char>)
    ensures
        v@ == output_or_empty(output),
{
    match output {
        Some(s) => chars_of(s.as_str()),
        None => Vec::new(),
    }
}

/// The number of pending package updates as the bar shows it: the command's
/// output without surrounding whitespace, or `0` where that leaves nothing.
pub open spec fn updates_shown(output: Seq<char>) -> Seq<char> {
    if trimmed(output).len() > 0 {
        trimmed(output)
    } else {
        "0"@
    }
}

/// The command that counts the pending package updates.
pub fn updates_command() -> (c: Command)
    ensures
        c.runs("sh"@, seq!["-c"@, "checkupdates | wc -l"@]),
{
    let args = vec![String::from_str("-c"), String::from_str("checkupdates | wc -l")];
    let c = command("sh", args);
    assert(c.arg_views() =~= seq!["-c"@, "checkupdates | wc -l"@]);
    c
}

/// The text for the updates segment, from the output of `updates_command`
/// (`None` where the command failed).
pub fn get_updates(output: Option<String>) -> (r: Option<String>)
    ensures
        r is Some,
        r->0@ == updates_shown(output_or_empty(output)),
        r->0@.len() > 0,
{
    proof {
        reveal_strlit("0");
    }
    let v = output_chars(output);
    let t = trim_chars(&v);
    if t.len() > 0 {
        Some(string_of(&t))
    } else {
        Some(String::from_str("0"))
    }
}

/// The command that asks wttr.in for a one-line weather report.
pub fn weather_command() -> (c: Command)
    ensures
        c.runs("curl"@, seq!["-s"@, "http://wttr.in?format=1"@]),
{
    let args = vec![String::from_str("-s"), String::from_str("http://wttr.in?format=1")];
    let c = command("curl", args);
    assert(c.arg_views() =~= seq!["-s"@, "http://wttr.in?format=1"@]);
    c
}

/// The text for the weather segment: the output of `weather_command` without
/// surrounding whitespace (empty where the command failed).
pub fn get_weather(output: Option<String>) -> (r: Option<String>)
    ensures
        r is Some,
        r->0@ == trimmed(output_or_empty(output)),
{
    let v = output_chars(output);
    let t = trim_chars(&v);
    Some(string_of(&t))
}

/// The file under `/sys/class/power_supply` that holds `fname` of battery `bat`.
pub fn battery_file(bat: &str, fname: &str) -> (r: String)
    ensures
        r@ == "/sys/class/power_supply/"@ + bat@ + "/"@ + fname@,
{
    let mut r = String::from_str("/sys/class/power_supply/");
    r.append(bat);
    r.append("/");
    r.append(fname);
    r
}

/// The file of battery `BAT0` that holds `fname`.
pub open spec fn battery_path(fname: Seq<char>) -> Seq<char> {
    "/sys/class/power_supply/"@ + "BAT0"@ + "/"@ + fname
}

/// The files the battery segment reads: the full capacity, the present charge
/// and the charging status.
#[derive(Debug)]
pub struct BatteryFiles {
    pub full: String,
    pub now: String,
    pub status: String,
}

/// The files the battery segment reads, all of battery `BAT0`.
pub fn battery_files() -> (f: BatteryFiles)
    ensures
        f.full@ == battery_path("charge_full"@),
        f.now@ == battery_path("charge_now"@),
        f.status@ == battery_path("status"@),
{
    BatteryFiles {
        full: battery_file("BAT0", "charge_full"),
        now: battery_file("BAT0", "charge_now"),
        status: battery_file("BAT0", "status"),
    }
}

/// The number a battery file holds, as the bar reads it: the content without
/// surrounding whitespace parsed as a `u32`; `None` where the file could not be
/// read or holds no such number.
pub fn get_battery_helper(content: Option<String>) -> (r: Option<u32>)
    ensures
        match content {
            None => r is None,
            Some(s) => match parse_unsigned(trimmed(s@), u32::MAX as nat) {
                Some(n) => r == Some(n as u32),
                None => r is None,
            },
        },
{
    match content {
        None => None,
        Some(s) => {
            let t = trim(s.as_str());
            match parse_decimal(t.as_str(), 0xffff_ffff) {
                Some(n) => Some(n as u32),
                None => None,
            }
        },
    }
}

/// The symbol for the battery's charging status, from the content of its
/// `status` file: up while charging, down while discharging, `-` for any
/// other status and nothing where the file could not be read.
pub open spec fn status_symbol(content: Option<String>) -> Seq<char> {
    match content {
        None => ""@,
        Some(s) => if trimmed(s@) == "Charging"@ {
            "\u{25b2}"@
        } else if trimmed(s@) == "Discharging"@ {
            "\u{25bc}"@
        } else {
            "-"@
        },
    }
}

/// The symbol for the battery's charging status (see `status_symbol`).
pub fn battery_status(content: Option<String>) -> (r: String)
    ensures
        r@ == status_symbol(content),
{
    match content {
        None => String::from_str(""),
        Some(s) => {
            let t = trim(s.as_str());
            if t == String::from_str("Charging") {
                String::from_str("\u{25b2}")
            } else if t == String::from_str("Discharging") {
                String::from_str("\u{25bc}")
            } else {
                String::from_str("-")
            }
        },
    }
}

/// The charge and the full capacity, where both could be read.
pub fn battery_reading(full: Option<u32>, current: Option<u32>) -> (r: Option<(u32, u32)>)
    ensures
        r == (match (full, current) {
            (Some(f), Some(c)) => Some((f, c)),
            _ => None,
        }),
{
    match (full, current) {
        (Some(f), Some(c)) => Some((f, c)),
        _ => None,
    }
}

/// The text for the battery segment: the charge percentage, already written
/// with two decimals, then `% ` and the status symbol; nothing where the
/// charge could not be read.
pub fn battery_line(percent: Option<String>, status: &str) -> (r: String)
    ensures
        r@ == (match percent {
            Some(p) => p@ + "% "@ + status@,
            None => ""@,
        }),
{
    match percent {
        Some(p) => {
            let mut r = p;
            r.append("% ");
            r.append(status);
            r
        },
        None => String::from_str(""),
    }
}


/// The updates segment shows what the command printed, trimmed, whenever
/// that is not empty; it shows `0` only where the output is nothing but
/// whitespace.
pub proof fn lemma_updates_shows_output(output: Seq<char>)
    ensures
        trimmed(output).len() > 0 ==> updates_shown(output) == trimmed(output),
        trimmed(output).len() == 0 ==> updates_shown(output) == seq!['0'],
{
    reveal_strlit("0");
}

/// A count of updates printed on a line of its own is shown as that count,
/// whatever its size.
pub proof fn lemma_updates_shows_count(n: nat, pad: Seq<char>)
    requires
        forall|i: int| 0 <= i < pad.len() ==> is_white_space(#[trigger] pad[i]),
    ensures
        updates_shown(decimal_digits(n) + pad) == decimal_digits(n),
{
    lemma_trim_digits_line(n, pad);
    crate::text::lemma_decimal_digits(n);
}

/// The up arrow is shown exactly while the status file reads `Charging`,
/// the down arrow exactly while it reads `Discharging`, `-` for every other
/// status that could be read, and nothing where it could not be read.
pub proof fn lemma_status_symbols(content: Option<String>)
    ensures
        content is None ==> status_symbol(content).len() == 0,
        content matches Some(s) ==> (status_symbol(content) == seq!['\u{25b2}'] <==> trimmed(s@)
            == "Charging"@),
        content matches Some(s) ==> (status_symbol(content) == seq!['\u{25bc}'] <==> trimmed(s@)
            == "Discharging"@),
        content matches Some(s) ==> (status_symbol(content) == seq!['-'] <==> (trimmed(s@)
            != "Charging"@ && trimmed(s@) != "Discharging"@)),
{
    reveal_strlit("");
    reveal_strlit("\u{25b2}");
    reveal_strlit("\u{25bc}");
    reveal_strlit("-");
    reveal_strlit("Charging");
    reveal_strlit("Discharging");
    assert("Charging"@.len() != "Discharging"@.len());
    assert(seq!['\u{25b2}'] != seq!['\u{25bc}']) by {
        assert(seq!['\u{25b2}'][0] != seq!['\u{25bc}'][0]);
    }
    assert(seq!['\u{25b2}'] != seq!['-']) by {
        assert(seq!['\u{25b2}'][0] != seq!['-'][0]);
    }
    assert(seq!['\u{25bc}'] != seq!['-']) by {
        assert(seq!['\u{25bc}'][0] != seq!['-'][0]);
    }
    assert("\u{25b2}"@ =~= seq!['\u{25b2}']);
    assert("\u{25bc}"@ =~= seq!['\u{25bc}']);
    assert("-"@ =~= seq!['-']);
}

} // verus!
