//! Asks the user to type a first-person line back every `rate` milliseconds.
use vstd::prelude::*;
use vstd::string::*;
use super::Schedule;
use crate::text::{trim, trimmed};

verus! {

/// The answer to a correctly typed line.
pub open spec fn praise() -> Seq<char> {
    "Good gooner, keep sinking deeper."@
}

/// The answer to a wrongly typed line when punishing.
pub open spec fn punishment() -> Seq<char> {
    "Bad gooner, you're gonna have to make up for it twice."@
}

/// The answer to a wrongly typed line when not punishing.
pub open spec fn reproach() -> Seq<char> {
    "That's not what I asked, try harder next time."@
}

/// The repeat-after-me effect.
#[derive(Debug)]
pub struct RepeatDialog {
    pub enabled: bool,
    /// Milliseconds between two prompts.
    pub rate: u128,
    /// Whether a wrong answer is answered harshly.
    pub punish: bool,
}

impl Default for RepeatDialog {
    fn default() -> (r: Self)
        ensures
            !r.enabled,
            r.rate == 15_000,
            r.punish,
    {
        RepeatDialog { enabled: false, rate: 15_000, punish: true }
    }
}

impl RepeatDialog {
    /// The timer the effect arms; each firing asks for a
    /// `Source::first_person` line (see `question` and `answer`).
    pub fn run(&self) -> (s: Schedule)
        ensures
            s == (Schedule { every_ms: self.rate, repeats: true }),
    {
        Schedule { every_ms: self.rate, repeats: true }
    }

    /// The text of the input box: the line on a line of its own.
    pub fn question(prompt: &str) -> (r: String)
        ensures
            r@ == "\n"@ + prompt@ + "\n"@,
    {
        let mut r = String::from_str("\n");
        r.append(prompt);
        r.append("\n");
        r
    }

    /// The answer shown for what the user typed (`None` when the box was
    /// dismissed): praise when it equals the line up to surrounding white
    /// space, punishment or reproach (by `punish`) when it differs, nothing
    /// when dismissed.
    pub fn answer(&self, prompt: &str, typed: Option<String>) -> (r: Option<String>)
        ensures
            typed is None ==> r is None,
            typed matches Some(t) ==> (r matches Some(m) && m@ == (if trimmed(t@) == trimmed(
                prompt@,
            ) {
                praise()
            } else if self.punish {
                punishment()
            } else {
                reproach()
            })),
    {
        match typed {
            None => None,
            Some(t) => {
                let a = trim(t.as_str());
                let b = trim(prompt);
                if a == b {
                    Some(String::from_str("Good gooner, keep sinking deeper."))
                } else if self.punish {
                    Some(String::from_str("Bad gooner, you're gonna have to make up for it twice."))
                } else {
                    Some(String::from_str("That's not what I asked, try harder next time."))
                }
            },
        }
    }
}

} // verus!
