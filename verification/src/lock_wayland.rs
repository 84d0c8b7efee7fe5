//! The Wayland lock helper's choice rules: one choice per shown prompt, the right answer shown
//! after a wrong one, and when the session lock lets go after the daemon took the choice.
use vstd::prelude::*;

use crate::ipc::ShowPrompt;
use crate::json::{json_member_text, spec_json_member_text};
use crate::text::str_eq;

verus! {

/// What a choice on the lock surface does.
#[derive(Debug, Clone, PartialEq, Eq)]
pub enum ChoiceStep {
    /// A choice was already taken for this prompt.
    Ignored,
    /// The prompt names no right choice to show; the surface takes a choice again.
    Refused,
    /// Send the choice to the daemon; `flash` is the text that shows the right answer after a
    /// wrong choice.
    Submit { chosen: u8, flash: Option<String> },
}

/// What the session lock does once the daemon has replied to a sent choice.
#[derive(Debug, Clone, Copy, PartialEq, Eq, Structural)]
pub enum UnlockStep {
    /// A right choice was taken: unlock now.
    UnlockNow,
    /// A wrong choice was taken: unlock after the right answer has been shown for
    /// `WRONG_ANSWER_FLASH_MS`.
    UnlockAfterFlash,
    /// The choice was not taken: stay locked and take a choice again.
    StayLocked,
}

/// Whether the prompt on the surfaces has taken a choice (shared by all monitors).
pub struct ChoiceState {
    answered: bool,
}

/// The text that shows the right answer.
pub open spec fn flash_spec(correct: Seq<char>) -> Seq<char> {
    "Correct: "@ + correct
}

impl ChoiceState {
    pub closed spec fn is_answered(&self) -> bool {
        self.answered
    }

    /// No choice taken yet.
    pub fn new() -> (r: ChoiceState)
        ensures
            !r.is_answered(),
    {
        ChoiceState { answered: false }
    }

    /// A new prompt arrived: it takes a choice again.
    pub fn on_new_prompt(&mut self)
        ensures
            !final(self).is_answered(),
    {
        self.answered = false;
    }

    /// A choice by key or button. The first choice of a prompt is sent; a wrong one also shows
    /// `Correct: ` and the right choice.
    pub fn handle_choice(&mut self, chosen: u8, prompt: &ShowPrompt) -> (r: ChoiceStep)
        ensures
            old(self).is_answered() ==> r == ChoiceStep::Ignored && final(self).is_answered(),
            !old(self).is_answered() && chosen == prompt.correct_index ==> r == (ChoiceStep::Submit {
                chosen,
                flash: None,
            }) && final(self).is_answered(),
            !old(self).is_answered() && chosen != prompt.correct_index && prompt.correct_index < 4
                ==> (r matches ChoiceStep::Submit { chosen: c, flash: Some(t) } && c == chosen && t@
                == flash_spec(prompt.choices@[prompt.correct_index as int]@))
                && final(self).is_answered(),
            !old(self).is_answered() && chosen != prompt.correct_index && prompt.correct_index >= 4
                ==> r == ChoiceStep::Refused && !final(self).is_answered(),
    {
        if self.answered {
            return ChoiceStep::Ignored;
        }
        self.answered = true;
        if chosen == prompt.correct_index {
            return ChoiceStep::Submit { chosen, flash: None };
        }
        if prompt.correct_index >= 4 {
            self.answered = false;
            return ChoiceStep::Refused;
        }
        proof {
            reveal_strlit("Correct: ");
        }
        let mut text = String::from_str("Correct: ");
        text.append(prompt.choices[prompt.correct_index as usize].as_str());
        ChoiceStep::Submit { chosen, flash: Some(text) }
    }

    /// The daemon's reply to the sent choice: taken (`submitted`) unlocks, at once for a right
    /// choice and after the flash for a wrong one; not taken keeps the lock and reopens the
    /// prompt.
    pub fn on_submit_result(&mut self, submitted: bool, wrong: bool) -> (r: UnlockStep)
        ensures
            submitted && !wrong ==> r == UnlockStep::UnlockNow,
            submitted && wrong ==> r == UnlockStep::UnlockAfterFlash,
            submitted ==> final(self).is_answered() == old(self).is_answered(),
            !submitted ==> r == UnlockStep::StayLocked && !final(self).is_answered(),
    {
        if !submitted {
            self.answered = false;
            return UnlockStep::StayLocked;
        }
        if wrong {
            UnlockStep::UnlockAfterFlash
        } else {
            UnlockStep::UnlockNow
        }
    }
}

/// The lock helper's reading of the daemon's reply to `gate_submit_choice`: an `error` object
/// fails with its message (`rpc error` when it has none); a reply without `result` fails with
/// `missing result`; else the result's `correct` flag, false when absent.
pub fn submit_choice_reply(error: Option<Option<String>>, result: Option<Option<bool>>) -> (r: Result<
    bool,
    String,
>)
    ensures
        (match error {
            Some(m) => r matches Err(e) && e@ == (match m {
                Some(t) => t@,
                None => "rpc error"@,
            }),
            None => match result {
                None => r matches Err(e) && e@ == "missing result"@,
                Some(c) => r == Ok::<bool, String>(
                    match c {
                        Some(b) => b,
                        None => false,
                    },
                ),
            },
        }),
{
    proof {
        reveal_strlit("rpc error");
        reveal_strlit("missing result");
    }
    match error {
        Some(m) => match m {
            Some(t) => Err(t),
            None => Err(String::from_str("rpc error")),
        },
        None => match result {
            None => Err(String::from_str("missing result")),
            Some(c) => match c {
                Some(b) => Ok(b),
                None => Ok(false),
            },
        },
    }
}

/// Whether the daemon's `gate_submit_choice` result says the choice was right: its `correct`
/// member is `true`.
pub fn choice_was_correct(result_json: &str) -> (r: bool)
    ensures
        r == (spec_json_member_text(result_json@, "correct"@) == Some("true"@)),
{
    proof {
        reveal_strlit("correct");
    }
    match json_member_text(result_json, "correct") {
        Some(t) => str_eq(t.as_str(), "true"),
        None => false,
    }
}
} // verus!
