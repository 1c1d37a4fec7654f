//! Console and error-dialog decisions: when to hide, show or allocate the
//! console window, and the UTF-16 text that the Windows calls take.
use vstd::prelude::*;
use crate::text::{chars_of, concat};

verus! {

/// The UTF-16 code units of `c`.
pub open spec fn utf16_of(c: char) -> Seq<u16> {
    let v = c as u32;
    if v < 0x10000 {
        seq![v as u16]
    } else {
        let u = v - 0x10000;
        seq![(0xd800 + u / 0x400) as u16, (0xdc00 + u % 0x400) as u16]
    }
}

/// The UTF-16 encoding of `s`.
pub open spec fn utf16(s: Seq<char>) -> Seq<u16>
    decreases s.len(),
{
    if s.len() == 0 {
        Seq::empty()
    } else {
        utf16(s.drop_last()) + utf16_of(s.last())
    }
}

/// The UTF-16 encoding of `s` followed by a terminating zero.
pub open spec fn wide_nul(s: Seq<char>) -> Seq<u16> {
    utf16(s).push(0)
}

/// `s` in UTF-16 with a terminating zero, as the wide Windows calls take text.
pub fn to_wide_nul(s: &str) -> (r: Vec<u16>)
    ensures
        r@ == wide_nul(s@),
{
    let cs = chars_of(s);
    let mut r: Vec<u16> = Vec::new();
    let mut i: usize = 0;
    while i < cs.len()
        invariant
            i <= cs@.len(),
            r@ == utf16(cs@.take(i as int)),
        decreases cs@.len() - i,
    {
        let v = cs[i] as u32;
        let ghost before = r@;
        if v < 0x10000 {
            r.push(v as u16);
        } else {
            let u = v - 0x10000;
            r.push((0xd800 + u / 0x400) as u16);
            r.push((0xdc00 + u % 0x400) as u16);
        }
        assert(cs@.take(i as int + 1).drop_last() =~= cs@.take(i as int));
        assert(r@ =~= before + utf16_of(cs@[i as int]));
        i = i + 1;
    }
    assert(cs@.take(cs@.len() as int) =~= cs@);
    r.push(0);
    r
}

/// What to do with the console window.
#[derive(Debug, Clone)]
pub enum ConsoleStep {
    /// Hide the existing window.
    Hide,
    /// Show the existing window.
    Show,
    /// Allocate a console; where that succeeds, give it this title (UTF-16,
    /// zero-terminated) and attach the standard streams to it.
    Allocate { title: Vec<u16> },
    /// Nothing to do.
    Keep,
}

/// The title of the console window that the server opens.
pub open spec fn console_title() -> Seq<char> {
    "Spotify Server - Debug Console"@
}

/// Hiding the console: hide the window where there is one.
pub fn hide_console(window_present: bool) -> (step: ConsoleStep)
    ensures
        window_present ==> step is Hide,
        !window_present ==> step is Keep,
{
    if window_present {
        ConsoleStep::Hide
    } else {
        ConsoleStep::Keep
    }
}

/// Showing the console: show the window where there is one, else allocate a
/// console titled "Spotify Server - Debug Console".
pub fn show_console(window_present: bool) -> (step: ConsoleStep)
    ensures
        window_present ==> step is Show,
        !window_present ==> (step matches ConsoleStep::Allocate { title } && title@ == wide_nul(
            console_title(),
        )),
{
    if window_present {
        ConsoleStep::Show
    } else {
        ConsoleStep::Allocate { title: to_wide_nul("Spotify Server - Debug Console") }
    }
}

/// The title and text of an error dialog, in UTF-16 with terminating zeros.
#[derive(Debug, Clone)]
pub struct ErrorDialog {
    pub title: Vec<u16>,
    pub message: Vec<u16>,
}

/// The error dialog for `message`, titled "Spotify Server Error".
pub fn error_dialog(message: &str) -> (d: ErrorDialog)
    ensures
        d.title@ == wide_nul("Spotify Server Error"@),
        d.message@ == wide_nul(message@),
{
    ErrorDialog { title: to_wide_nul("Spotify Server Error"), message: to_wide_nul(message) }
}

/// The line printed on the error stream where no dialog can be shown.
pub fn error_line(message: &str) -> (r: String)
    ensures
        r@ == "Error: "@ + message@,
{
    concat("Error: ", message)
}

/// How a failure is reported: a line on the error stream while developing,
/// a dialog otherwise.
#[derive(Debug, Clone)]
pub enum Notice {
    Console(String),
    Dialog(String),
}

} // verus!
