//! The texts that the launcher writes about itself: numbers in decimal,
//! the summary of the system, and the lines of the activity log.

use crate::text::{debug_form, quoted};
use vstd::prelude::*;

verus! {

/// The character of a decimal digit.
pub open spec fn digit_char(d: nat) -> char {
    if d == 0 {
        '0'
    } else if d == 1 {
        '1'
    } else if d == 2 {
        '2'
    } else if d == 3 {
        '3'
    } else if d == 4 {
        '4'
    } else if d == 5 {
        '5'
    } else if d == 6 {
        '6'
    } else if d == 7 {
        '7'
    } else if d == 8 {
        '8'
    } else {
        '9'
    }
}

/// A number in decimal, without leading zeros; zero is `0`.
pub open spec fn decimal(n: nat) -> Seq<char>
    decreases n,
{
    if n < 10 {
        seq![digit_char(n)]
    } else {
        decimal(n / 10).push(digit_char(n % 10))
    }
}

fn digit(d: u64) -> (r: char)
    requires
        d < 10,
    ensures
        r == digit_char(d as nat),
{
    if d == 0 {
        '0'
    } else if d == 1 {
        '1'
    } else if d == 2 {
        '2'
    } else if d == 3 {
        '3'
    } else if d == 4 {
        '4'
    } else if d == 5 {
        '5'
    } else if d == 6 {
        '6'
    } else if d == 7 {
        '7'
    } else if d == 8 {
        '8'
    } else {
        '9'
    }
}

/// Appends a number in decimal to a text.
pub fn push_decimal(text: &mut String, n: u64)
    ensures
        final(text)@ == old(text)@ + decimal(n as nat),
    decreases n,
{
    if n >= 10 {
        push_decimal(text, n / 10);
    }
    text.push(digit(n % 10));
    proof {
        if n >= 10 {
            assert((old(text)@ + decimal((n / 10) as nat)).push(digit_char((n % 10) as nat))
                =~= old(text)@ + decimal(n as nat));
        } else {
            assert(old(text)@.push(digit_char(n as nat)) =~= old(text)@ + decimal(n as nat));
        }
    }
}

/// One mebibyte in bytes.
pub const MEBIBYTE: u64 = 1024 * 1024;

/// The name of the operating system that the summary shows: the long
/// version where the system gives one, else its name, else a notice.
pub open spec fn os_text(long_version: Option<Seq<char>>, name: Option<Seq<char>>) -> Seq<char> {
    match long_version {
        Some(text) => text,
        None => match name {
            Some(text) => text,
            None => "Unknown OS"@,
        },
    }
}

/// The summary of the system: four lines with the operating system, the
/// processor, the memory used and installed in whole mebibytes, and a
/// notice on the graphics processor.
pub open spec fn system_summary(
    long_version: Option<Seq<char>>,
    name: Option<Seq<char>>,
    cpu: Option<Seq<char>>,
    used_bytes: u64,
    total_bytes: u64,
) -> Seq<char> {
    "OS: "@ + os_text(long_version, name) + "\nCPU: "@ + (match cpu {
        Some(brand) => brand,
        None => "Unknown CPU"@,
    }) + "\nMemory: "@ + decimal((used_bytes / MEBIBYTE) as nat) + " MB / "@ + decimal(
        (total_bytes / MEBIBYTE) as nat,
    ) + " MB\nGPU: GPU info not available"@
}

/// Writes the summary of the system from what the system reported.
pub fn get_system_info(
    long_os_version: Option<String>,
    os_name: Option<String>,
    cpu_brand: Option<String>,
    used_memory: u64,
    total_memory: u64,
) -> (r: String)
    ensures
        r@ == system_summary(
            match long_os_version {
                Some(text) => Some(text@),
                None => None,
            },
            match os_name {
                Some(text) => Some(text@),
                None => None,
            },
            match cpu_brand {
                Some(text) => Some(text@),
                None => None,
            },
            used_memory,
            total_memory,
        ),
{
    let mut r = String::from_str("OS: ");
    match &long_os_version {
        Some(text) => r.append(text.as_str()),
        None => match &os_name {
            Some(text) => r.append(text.as_str()),
            None => r.append("Unknown OS"),
        },
    }
    r.append("\nCPU: ");
    match &cpu_brand {
        Some(brand) => r.append(brand.as_str()),
        None => r.append("Unknown CPU"),
    }
    r.append("\nMemory: ");
    push_decimal(&mut r, used_memory / MEBIBYTE);
    r.append(" MB / ");
    push_decimal(&mut r, total_memory / MEBIBYTE);
    r.append(" MB\nGPU: GPU info not available");
    r
}

/// One line of the activity log: the time in brackets, the action, and the
/// end of the line.
pub open spec fn log_line(timestamp: Seq<char>, action: Seq<char>) -> Seq<char> {
    "["@ + timestamp + "] "@ + action + "\n"@
}

/// Writes one line of the activity log.
pub fn log_entry(timestamp: &str, action: &str) -> (r: String)
    ensures
        r@ == log_line(timestamp@, action@),
{
    let mut r = String::from_str("[");
    r.append(timestamp);
    r.append("] ");
    r.append(action);
    r.append("\n");
    r
}

/// What the log says of a run, given the script's path as it is to be
/// shown: that the script was executed, or the failure with its message.
pub open spec fn run_record(shown_path: Seq<char>, succeeded: bool, message: Seq<char>) -> Seq<
    char,
> {
    if succeeded {
        "Script executed: "@ + shown_path
    } else {
        "Error running script: "@ + shown_path + " - "@ + message
    }
}

/// Writes what the log says of a run, given the script's path as it is to
/// be shown.
pub fn run_record_text(shown_path: &str, succeeded: bool, message: &str) -> (r: String)
    ensures
        r@ == run_record(shown_path@, succeeded, message@),
{
    if succeeded {
        let mut r = String::from_str("Script executed: ");
        r.append(shown_path);
        r
    } else {
        let mut r = String::from_str("Error running script: ");
        r.append(shown_path);
        r.append(" - ");
        r.append(message);
        r
    }
}

/// Writes what the log says of a run of the script at `script`; the path
/// is shown in quotes.
pub fn run_log_action(script: &str, succeeded: bool, message: &str) -> (r: String)
    ensures
        r@ == run_record(debug_form(script@), succeeded, message@),
{
    let path = quoted(script);
    run_record_text(path.as_str(), succeeded, message)
}

} // verus!
