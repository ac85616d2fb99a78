//! The line that confirms a choice before the SSH client takes over.

use vstd::prelude::*;
use vstd::string::StringExecFns;

verus! {

/// The words before the label in a confirmation.
pub open spec fn confirmation_prefix() -> Seq<char> {
    "Connecting to "@
}

/// The escape sequence that switches the terminal to cyan.
pub open spec fn cyan_on() -> Seq<char> {
    "\x1b[36m"@
}

/// The escape sequence that switches all styling off.
pub open spec fn style_off() -> Seq<char> {
    "\x1b[0m"@
}

/// Whether `shown` is `label` with emphasis: the label in cyan, or the bare
/// label where the terminal takes no colours.
pub open spec fn emphasises(shown: Seq<char>, label: Seq<char>) -> bool {
    shown == label || shown == cyan_on() + label + style_off()
}

/// Whether `line` confirms the choice of `label`: the prefix, then the
/// label with emphasis.
pub open spec fn confirms(line: Seq<char>, label: Seq<char>) -> bool {
    exists|shown: Seq<char>| emphasises(shown, label) && line == confirmation_prefix() + shown
}

/// Renders `label` through `console::Style::new().cyan().apply_to`.
///
/// Trusted: `console` writes the label unchanged and, where it finds colours
/// enabled for standard output, puts the cyan escape sequence before it and
/// the reset sequence after it. Which of the two comes out depends on the
/// terminal and the environment.
#[verifier::external_body]
fn emphasise(label: &str) -> (shown: String)
    ensures
        emphasises(shown@, label@),
{
    format!("{}", console::Style::new().cyan().apply_to(label))
}

/// The confirmation for a label that is already rendered for the terminal.
pub fn confirmation_of(shown: &str) -> (line: String)
    ensures
        line@ == confirmation_prefix() + shown@,
{
    let mut line = String::from_str("Connecting to ");
    line.append(shown);
    line
}

/// The line that tells the user which entry was chosen: `Connecting to `
/// and the label, emphasised for the terminal in use.
pub fn confirmation_line(label: &str) -> (line: String)
    ensures
        confirms(line@, label@),
{
    let shown = emphasise(label);
    confirmation_of(shown.as_str())
}

} // verus!
