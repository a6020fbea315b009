//! Colours for console output, rendered by the `console` crate.

use vstd::prelude::*;
use crate::severity::Tint;

verus! {

/// The escape sequence that opens a tint: ESC, `[`, a number, `m`.
pub open spec fn tint_on(tint: Tint) -> Seq<char> {
    match tint {
        Tint::Red => seq!['\x1b', '[', '3', '1', 'm'],
        Tint::Yellow => seq!['\x1b', '[', '3', '3', 'm'],
        Tint::Dim => seq!['\x1b', '[', '2', 'm'],
        Tint::Plain => Seq::empty(),
    }
}

/// The escape sequence that ends every style.
pub open spec fn tint_off() -> Seq<char> {
    seq!['\x1b', '[', '0', 'm']
}

/// `text` in `tint`: between the tint's escape sequence and the reset, or
/// left as it is where colours are off or the tint is plain.
pub open spec fn painted(text: Seq<char>, tint: Tint, on: bool) -> Seq<char> {
    if on && tint != Tint::Plain {
        tint_on(tint) + text + tint_off()
    } else {
        text
    }
}

/// `console::colors_enabled`: whether standard output takes colours. The
/// answer comes from the terminal and the environment, so nothing is
/// claimed of it.
pub assume_specification[ console::colors_enabled ]() -> (on: bool)
;

/// `console::colors_enabled_stderr`: whether standard error takes colours.
/// The answer comes from the terminal and the environment, so nothing is
/// claimed of it.
pub assume_specification[ console::colors_enabled_stderr ]() -> (on: bool)
;

/// `console::style` with `red` and `force_styling`, displayed. With styling
/// forced on, console writes the foreground colour 31, the text and the
/// reset; with styling forced off, the text alone.
#[verifier::external_body]
fn console_red(text: &str, on: bool) -> (out: String)
    ensures
        out@ == painted(text@, Tint::Red, on),
{
    console::style(text).red().force_styling(on).to_string()
}

/// `console::style` with `yellow` and `force_styling`, displayed. With
/// styling forced on, console writes the foreground colour 33, the text and
/// the reset; with styling forced off, the text alone.
#[verifier::external_body]
fn console_yellow(text: &str, on: bool) -> (out: String)
    ensures
        out@ == painted(text@, Tint::Yellow, on),
{
    console::style(text).yellow().force_styling(on).to_string()
}

/// `console::style` with `dim` and `force_styling`, displayed. With styling
/// forced on, console writes the attribute 2, the text and the reset; with
/// styling forced off, the text alone.
#[verifier::external_body]
fn console_dim(text: &str, on: bool) -> (out: String)
    ensures
        out@ == painted(text@, Tint::Dim, on),
{
    console::style(text).dim().force_styling(on).to_string()
}

/// Whether the stream that a text is meant for takes colours. The answer
/// is console's, for standard error or for standard output, and hangs on
/// the terminal and the environment: nothing is claimed of it here. What
/// is written for either answer is stated by `Styled::paint`.
pub(crate) fn stream_takes_colours(for_stderr: bool) -> (on: bool) {
    if for_stderr {
        console::colors_enabled_stderr()
    } else {
        console::colors_enabled()
    }
}

/// A text with the colour it is to be shown in and the stream it is meant
/// for.
#[derive(Clone, Debug)]
pub struct Styled {
    pub text: String,
    pub tint: Tint,
    pub for_stderr: bool,
}

impl Styled {
    /// The text as it is written where colours are `on` or off.
    pub fn paint(&self, on: bool) -> (out: String)
        ensures
            out@ == painted(self.text@, self.tint, on),
    {
        match self.tint {
            Tint::Red => console_red(self.text.as_str(), on),
            Tint::Yellow => console_yellow(self.text.as_str(), on),
            Tint::Dim => console_dim(self.text.as_str(), on),
            Tint::Plain => self.text.clone(),
        }
    }

    /// The text as it is written to its stream: coloured where the stream
    /// takes colours, plain where it does not.
    pub fn render(&self) -> (out: String)
        ensures
            out@ == painted(self.text@, self.tint, true) || out@ == painted(
                self.text@,
                self.tint,
                false,
            ),
    {
        let on = stream_takes_colours(self.for_stderr);
        self.paint(on)
    }
}

} // verus!
