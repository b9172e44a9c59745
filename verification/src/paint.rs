//! Terminal colours: the escape sequences that surround a coloured text.

use vstd::prelude::*;

verus! {

/// The foreground colours that the logger uses.
#[derive(Clone, Copy, Debug, PartialEq, Eq, Structural)]
pub enum Tone {
    Green,
    BrightBlue,
    BrightYellow,
    BrightRed,
}

/// The escape sequence that switches the terminal to `tone`.
pub open spec fn tone_code(tone: Tone) -> Seq<char> {
    match tone {
        Tone::Green => "\x1b[32m"@,
        Tone::BrightBlue => "\x1b[94m"@,
        Tone::BrightYellow => "\x1b[93m"@,
        Tone::BrightRed => "\x1b[91m"@,
    }
}

/// The escape sequence that ends a coloured stretch.
pub open spec fn reset_code() -> Seq<char> {
    "\x1b[0m"@
}

/// `text` as the terminal shows it in `tone`: the tone's escape sequence,
/// the text itself, then the reset sequence.
pub open spec fn painted(text: Seq<char>, tone: Tone) -> Seq<char> {
    tone_code(tone) + text + reset_code()
}

/// Calls `colorized::Color::color` on `text` with the `colorized::Colors`
/// variant that stands for `tone`. Trusted: the result is the variant's escape
/// sequence (`Colors::value`), then `text`, then `"\x1b[0m"`, as
/// `colorized::colorize_this` builds it.
#[verifier::external_body]
pub(crate) fn colorize(text: &str, tone: Tone) -> (res: String)
    ensures
        res@ == painted(text@, tone),
{
    let shade = match tone {
        Tone::Green => colorized::Colors::GreenFg,
        Tone::BrightBlue => colorized::Colors::BrightBlueFg,
        Tone::BrightYellow => colorized::Colors::BrightYellowFg,
        Tone::BrightRed => colorized::Colors::BrightRedFg,
    };
    colorized::Color::color(&text, shade)
}

} // verus!
