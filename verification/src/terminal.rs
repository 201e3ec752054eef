//! The reporting channel: lines of text in three severities, told apart by a
//! prefix and, where the terminal takes it, by colour.

use colored::Colorize;
use vstd::prelude::*;
use vstd::string::*;

verus! {

/// The colours that the three severities are shown in.
#[derive(Clone, Copy, Debug, PartialEq, Eq, Structural)]
pub enum Tone {
    /// Fatal errors.
    Red,
    /// Warnings.
    Yellow,
    /// Successes.
    Green,
}

/// The escape sequence that ends every colouring.
pub open spec fn reset_sequence() -> Seq<char> {
    "\x1B[0m"@
}

/// The escape sequence that switches the foreground to `tone`.
pub open spec fn style_sequence(tone: Tone) -> Seq<char> {
    match tone {
        Tone::Red => "\x1B[31m"@,
        Tone::Yellow => "\x1B[33m"@,
        Tone::Green => "\x1B[32m"@,
    }
}

/// `text` with `style` switched on again after each reset sequence that
/// stands in it, so that the colouring holds to the end of the text.
pub open spec fn restyled(text: Seq<char>, style: Seq<char>) -> Seq<char>
    decreases text.len(),
{
    if text.len() == 0 {
        text
    } else if starts_with_reset(text) {
        reset_sequence() + style + restyled(text.skip(4), style)
    } else {
        text.take(1) + restyled(text.skip(1), style)
    }
}

/// The first four characters of `text` are the reset sequence.
pub open spec fn starts_with_reset(text: Seq<char>) -> bool {
    text.len() >= 4 && text.take(4) == reset_sequence()
}

/// `text` in colour: the style sequence, the text, the reset sequence.
pub open spec fn painted(tone: Tone, text: Seq<char>) -> Seq<char> {
    style_sequence(tone) + restyled(text, style_sequence(tone)) + reset_sequence()
}

/// `shown` is `text` as the terminal channel may give it: in colour, or bare
/// where colours are switched off.
pub open spec fn renders(shown: Seq<char>, tone: Tone, text: Seq<char>) -> bool {
    shown == text || shown == painted(tone, text)
}

/// The text of an error line.
pub open spec fn error_text(message: Seq<char>) -> Seq<char> {
    "ERROR: "@ + message
}

/// The text of a warning line.
pub open spec fn warning_text(message: Seq<char>) -> Seq<char> {
    "WARNING: "@ + message
}

/// A text without an escape character is coloured as it stands: the style
/// sequence, the text, the reset sequence.
pub proof fn law_painted_as_it_stands(tone: Tone, text: Seq<char>)
    requires
        forall|i: int| 0 <= i < text.len() ==> text[i] != '\x1B',
    ensures
        restyled(text, style_sequence(tone)) == text,
        painted(tone, text) == style_sequence(tone) + text + reset_sequence(),
    decreases text.len(),
{
    if text.len() > 0 {
        reveal_strlit("\x1B[0m");
        assert(starts_with_reset(text) ==> text.take(4)[0] == text[0]);
        law_painted_as_it_stands(tone, text.skip(1));
        assert(text.take(1) + text.skip(1) =~= text);
    }
}

/// Calls `colored::Colorize::color` on `text` with the colour that `tone`
/// names, and `to_string` on the `ColoredString` that it gives. Whether the
/// crate colours at all it decides from its process-wide setting, which
/// follows the environment and the kind of the output stream unless the
/// program has overridden it; this library never changes it. So the contract
/// allows both the bare text and the coloured one, and says of the coloured
/// one what the crate writes: the foreground sequence of the colour, the text
/// with that sequence repeated after every reset sequence in it, and a closing
/// reset sequence.
#[verifier::external_body]
fn paint(text: &str, tone: Tone) -> (shown: String)
    ensures
        renders(shown@, tone, text@),
{
    let color = match tone {
        Tone::Red => colored::Color::Red,
        Tone::Yellow => colored::Color::Yellow,
        Tone::Green => colored::Color::Green,
    };
    text.color(color).to_string()
}

/// An error line for `message`: the message behind `ERROR: `, in red where
/// colours are on.
pub fn format_error(message: &str) -> (line: String)
    ensures
        renders(line@, Tone::Red, error_text(message@)),
{
    let text = String::from_str("ERROR: ").concat(message);
    paint(text.as_str(), Tone::Red)
}

/// A warning line for `message`: the message behind `WARNING: `, in yellow
/// where colours are on.
pub fn format_warning(message: &str) -> (line: String)
    ensures
        renders(line@, Tone::Yellow, warning_text(message@)),
{
    let text = String::from_str("WARNING: ").concat(message);
    paint(text.as_str(), Tone::Yellow)
}

/// A success line for `message`: the message itself, in green where colours
/// are on.
pub fn format_success(message: &str) -> (line: String)
    ensures
        renders(line@, Tone::Green, message@),
{
    paint(message, Tone::Green)
}

} // verus!
