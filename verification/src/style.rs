//! Dim styling of rendered text, delegated to the `colored` crate.

use vstd::prelude::*;

verus! {

/// The escape sequence that turns dim styling on.
pub open spec fn dim_on() -> Seq<char> {
    seq!['\u{1b}', '[', '2', 'm']
}

/// The escape sequence that resets styling.
pub open spec fn dim_off() -> Seq<char> {
    seq!['\u{1b}', '[', '0', 'm']
}

/// The text with the dim style re-armed after every reset sequence it already
/// holds, so that a surrounding dim wrap stays in force across nested styling.
pub open spec fn escape_resets(s: Seq<char>) -> Seq<char>
    decreases s.len(),
{
    if s.len() < 4 {
        s
    } else if s.take(4) == dim_off() {
        dim_off() + dim_on() + escape_resets(s.skip(4))
    } else {
        s.take(1) + escape_resets(s.skip(1))
    }
}

/// The dimmed rendering of a piece of text.
pub open spec fn dim_text(s: Seq<char>) -> Seq<char> {
    dim_on() + escape_resets(s) + dim_off()
}

/// Relies on `colored::Colorize::dimmed` and `colored::control::set_override`:
/// with colorization forced on, formatting a dimmed string wraps it in the dim
/// escape code and the reset, after re-arming the style behind every reset
/// sequence the text already holds.
#[verifier::external_body]
pub(crate) fn dim_string(s: &str) -> (r: String)
    ensures
        r@ == dim_text(s@),
{
    colored::control::set_override(true);
    format!("{}", colored::Colorize::dimmed(s))
}

} // verus!
