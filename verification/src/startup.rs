//! Start-up decisions: development mode, and the texts shown when the
//! program fails.
use vstd::prelude::*;
use vstd::string::StringExecFns;
use crate::console::Notice;
use crate::number::{decimal, decimal_string};
use crate::text::{concat, same_text};

verus! {

/// The arguments ask for development mode: one of them is `-dev` or `--dev`.
pub open spec fn asks_for_dev_mode(args: Seq<String>) -> bool {
    exists|i: int| 0 <= i < args.len() && (args[i]@ == "-dev"@ || args[i]@ == "--dev"@)
}

/// Whether the command-line arguments ask for development mode.
pub fn is_dev_mode(args: &Vec<String>) -> (b: bool)
    ensures
        b == asks_for_dev_mode(args@),
{
    let mut i: usize = 0;
    while i < args.len()
        invariant
            i <= args@.len(),
            forall|j: int| 0 <= j < i ==> !(args@[j]@ == "-dev"@ || args@[j]@ == "--dev"@),
        decreases args@.len() - i,
    {
        if same_text(&args[i], "-dev") || same_text(&args[i], "--dev") {
            return true;
        }
        i = i + 1;
    }
    false
}

/// Where a panic happened: file, line and column.
#[derive(Debug, Clone)]
pub struct PanicLocation {
    pub file: String,
    pub line: u32,
    pub column: u32,
}

/// The text shown when the program panics: the panic message where it is
/// text, the location where it is known, and a note that the program ends.
pub open spec fn crash_text(payload: Option<String>, location: Option<PanicLocation>) -> Seq<char> {
    let message = match payload {
        Some(s) => "Application crashed: "@ + s@,
        None => "Application crashed with an unknown error"@,
    };
    let place = match location {
        Some(l) => "\n\nLocation: "@ + l.file@ + ":"@ + decimal(l.line as nat) + ":"@ + decimal(
            l.column as nat,
        ),
        None => Seq::empty(),
    };
    message + place + "\n\nThe application will now exit."@
}

/// The text shown when the program panics.
pub fn crash_message(payload: Option<String>, location: Option<PanicLocation>) -> (r: String)
    ensures
        r@ == crash_text(payload, location),
{
    let mut r = match payload {
        Some(s) => concat("Application crashed: ", s.as_str()),
        None => String::from_str("Application crashed with an unknown error"),
    };
    match location {
        Some(l) => {
            r.append("\n\nLocation: ");
            r.append(l.file.as_str());
            r.append(":");
            let line = decimal_string(l.line as u64);
            r.append(line.as_str());
            r.append(":");
            let column = decimal_string(l.column as u64);
            r.append(column.as_str());
        },
        None => {},
    }
    r.append("\n\nThe application will now exit.");
    r
}

/// The text shown when the server cannot start.
pub fn start_failure_message(error: &str) -> (r: String)
    ensures
        r@ == "Failed to start Spotify Server: "@ + error@,
{
    concat("Failed to start Spotify Server: ", error)
}

/// The text shown when the running server fails.
pub fn server_error_message(error: &str) -> (r: String)
    ensures
        r@ == "Server error: "@ + error@,
{
    concat("Server error: ", error)
}

/// How a failure is reported: on the error stream in development mode, in a
/// dialog otherwise.
pub fn report(text: String, dev_mode: bool) -> (n: Notice)
    ensures
        dev_mode ==> (n matches Notice::Console(t) && t@ == text@),
        !dev_mode ==> (n matches Notice::Dialog(t) && t@ == text@),
{
    if dev_mode {
        Notice::Console(text)
    } else {
        Notice::Dialog(text)
    }
}

/// How a failure to start the server is reported.
pub fn start_failure_notice(error: &str, dev_mode: bool) -> (n: Notice)
    ensures
        dev_mode ==> (n matches Notice::Console(t) && t@ == "Failed to start Spotify Server: "@
            + error@),
        !dev_mode ==> (n matches Notice::Dialog(t) && t@ == "Failed to start Spotify Server: "@
            + error@),
{
    report(start_failure_message(error), dev_mode)
}

/// How a failure of the running server is reported.
pub fn server_error_notice(error: &str, dev_mode: bool) -> (n: Notice)
    ensures
        dev_mode ==> (n matches Notice::Console(t) && t@ == "Server error: "@ + error@),
        !dev_mode ==> (n matches Notice::Dialog(t) && t@ == "Server error: "@ + error@),
{
    report(server_error_message(error), dev_mode)
}

/// Development mode is asked for exactly when some argument, at any
/// position, is `-dev` or `--dev`.
pub proof fn dev_flag_anywhere(args: Seq<String>)
    ensures
        forall|i: int|
            0 <= i < args.len() && (args[i]@ == "-dev"@ || args[i]@ == "--dev"@)
                ==> asks_for_dev_mode(args),
        (forall|i: int| 0 <= i < args.len() ==> args[i]@ != "-dev"@ && args[i]@ != "--dev"@)
            ==> !asks_for_dev_mode(args),
{
}

} // verus!
