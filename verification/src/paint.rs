//! Terminal colours for the words that open a message.

use colored::Colorize;
use vstd::prelude::*;
use vstd::string::*;

verus! {

/// The escape sequence that switches the foreground to green.
pub open spec fn green_on() -> Seq<char> {
    "\u{1b}[32m"@
}

/// The escape sequence that switches the foreground to red.
pub open spec fn red_on() -> Seq<char> {
    "\u{1b}[31m"@
}

/// The escape sequence that ends all colouring.
pub open spec fn reset() -> Seq<char> {
    "\u{1b}[0m"@
}

/// `shown` is `word` as a terminal may be handed it: bare, or between the
/// sequence `on` and the reset sequence.
pub open spec fn shows(shown: Seq<char>, word: Seq<char>, on: Seq<char>) -> bool {
    shown == word || shown == on + word + reset()
}

/// Calls `colored::Colorize::green` on `word` and formats the result.
///
/// `colored` decides from the environment and the terminal whether colours
/// are written at all, so the contract allows both outcomes: the word as it
/// is, or the word between the green sequence and the reset sequence. A word
/// that holds an escape character is left out, since `colored` rewrites reset
/// sequences that it finds inside its input.
#[verifier::external_body]
fn green(word: &str) -> (shown: String)
    requires
        !word@.contains('\u{1b}'),
    ensures
        shows(shown@, word@, green_on()),
{
    word.green().to_string()
}

/// Calls `colored::Colorize::red` on `word` and formats the result.
///
/// As for `green`: the word as it is, or the word between the red sequence
/// and the reset sequence, for a word without an escape character.
#[verifier::external_body]
fn red(word: &str) -> (shown: String)
    requires
        !word@.contains('\u{1b}'),
    ensures
        shows(shown@, word@, red_on()),
{
    word.red().to_string()
}

/// The words that open the library's messages, as they are to be written.
#[derive(Clone, Debug, PartialEq, Eq)]
pub struct Labels {
    /// Opens the line that reports a new package.
    pub created: String,
    /// Opens the line that reports a refusal.
    pub error: String,
    /// Stands for the severity marker of an informational line.
    pub info: String,
}

/// The mathematical value of a set of labels.
pub struct LabelsView {
    pub created: Seq<char>,
    pub error: Seq<char>,
    pub info: Seq<char>,
}

impl View for Labels {
    type V = LabelsView;

    open spec fn view(&self) -> LabelsView {
        LabelsView { created: self.created@, error: self.error@, info: self.info@ }
    }
}

impl LabelsView {
    /// The labels without any colouring.
    pub open spec fn plain() -> LabelsView {
        LabelsView { created: "Created"@, error: "error"@, info: "INFO:"@ }
    }

    /// Each label is its word, bare or in its colour: green for `Created` and
    /// `INFO:`, red for `error`.
    pub open spec fn well_formed(self) -> bool {
        &&& shows(self.created, "Created"@, green_on())
        &&& shows(self.error, "error"@, red_on())
        &&& shows(self.info, "INFO:"@, green_on())
    }
}

impl Labels {
    /// The labels without any colouring.
    pub fn plain() -> (labels: Labels)
        ensures
            labels@ == LabelsView::plain(),
    {
        Labels {
            created: String::from_str("Created"),
            error: String::from_str("error"),
            info: String::from_str("INFO:"),
        }
    }

    /// The labels in their colours, where the terminal takes colours.
    ///
    /// Whether it does is not known here, so the result is only promised to
    /// be well formed.
    pub fn painted() -> (labels: Labels)
        ensures
            labels@.well_formed(),
    {
        proof {
            reveal_strlit("Created");
            reveal_strlit("error");
            reveal_strlit("INFO:");
        }
        Labels { created: green("Created"), error: red("error"), info: green("INFO:") }
    }
}

} // verus!
