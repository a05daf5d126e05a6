//! Mailbox address syntax.

use vstd::prelude::*;

verus! {

/// Whether `lettre` reads `text` as a mailbox: either a bare address
/// (`user@domain`) or a display name followed by an address in angle
/// brackets. The grammar is the one `lettre::message::Mailbox` parses.
pub uninterp spec fn mailbox_syntax(text: Seq<char>) -> bool;

/// Asks `lettre` whether `text` parses as a `Mailbox`, through
/// `<lettre::message::Mailbox as FromStr>::from_str`. The parser reads
/// nothing but its argument, so its verdict is `mailbox_syntax` of the text.
#[verifier::external_body]
fn parses_as_mailbox(text: &str) -> (ok: bool)
    ensures
        ok == mailbox_syntax(text@),
{
    text.parse::<lettre::message::Mailbox>().is_ok()
}

/// The address rule of a request: the text is not empty and is a mailbox.
pub open spec fn valid_address(text: Seq<char>) -> bool {
    text.len() > 0 && mailbox_syntax(text)
}

/// Checks one address against the rule of `valid_address`.
pub fn is_valid_address(text: &str) -> (ok: bool)
    ensures
        ok == valid_address(text@),
{
    !text.is_empty() && parses_as_mailbox(text)
}

} // verus!
