//! One prompt on the lock surface: what each key press, key release and click does, which
//! request goes to the daemon, and when the surface may let go. A freeze ends only after the
//! daemon took an answer or an abort; Escape and other keys never end it.
use vstd::prelude::*;

use crate::hatch::{
    HatchOutcome, HatchTracker, HatchView, ascii_upper, chord_step, confirm_word, is_ascii_letter, text_step,
};
use crate::lock_x11::layout::char_from_keysym;

verus! {

/// How long the right answer stays on screen after a wrong choice.
pub const WRONG_ANSWER_FLASH_MS: u64 = 1500;

/// Keysyms of Escape, Return and keypad Enter.
pub const XK_ESCAPE: u32 = 0xff1b;
pub const XK_RETURN: u32 = 0xff0d;
pub const XK_KP_ENTER: u32 = 0xff8d;

/// An input event on the lock surface. `choice` is the choice that the key or the pointer
/// position selects, if any.
#[derive(Debug, Clone, Copy, PartialEq, Eq, Structural)]
pub enum SessionEvent {
    KeyPress { ctrl: bool, shift: bool, keysym: Option<u32>, choice: Option<u8> },
    KeyRelease { ctrl: bool, shift: bool, keysym: Option<u32> },
    Click { primary: bool, choice: Option<u8> },
    Expose,
}

/// What the surface asks the daemon for after an event.
#[derive(Debug, Clone, Copy, PartialEq, Eq, Structural)]
pub enum SessionRequest {
    Nothing,
    SubmitChoice(u8),
    AbortHatch,
}

/// What to do after an event: redraw the surface, and send a request.
#[derive(Debug, Clone, Copy, PartialEq, Eq, Structural)]
pub struct Reaction {
    pub redraw: bool,
    pub request: SessionRequest,
}

/// The input state of one prompt.
pub struct LockSession {
    correct_index: u8,
    answered: bool,
    pending_wrong: Option<bool>,
    unlock_at: Option<u64>,
    hatch: HatchTracker,
    escape_held: bool,
    last_ctrl: bool,
    last_shift: bool,
    flash: bool,
    abort_prompt: bool,
    finished: bool,
}

/// The state as plain values.
pub struct SessionView {
    pub correct_index: u8,
    /// A choice was sent (and not refused).
    pub answered: bool,
    /// A choice waits for the daemon's reply: whether it was wrong.
    pub pending_wrong: Option<bool>,
    /// When the surface lets go after a wrong answer.
    pub unlock_at: Option<u64>,
    pub hatch: HatchView,
    pub escape_held: bool,
    pub last_ctrl: bool,
    pub last_shift: bool,
    /// The right answer is shown.
    pub flash: bool,
    /// The abort confirmation is shown.
    pub abort_prompt: bool,
    /// The surface lets go.
    pub finished: bool,
}

impl View for LockSession {
    type V = SessionView;

    closed spec fn view(&self) -> SessionView {
        SessionView {
            correct_index: self.correct_index,
            answered: self.answered,
            pending_wrong: self.pending_wrong,
            unlock_at: self.unlock_at,
            hatch: self.hatch@,
            escape_held: self.escape_held,
            last_ctrl: self.last_ctrl,
            last_shift: self.last_shift,
            flash: self.flash,
            abort_prompt: self.abort_prompt,
            finished: self.finished,
        }
    }
}

/// Sending a choice: it is now answered; a wrong choice shows the right answer.
pub open spec fn choose_step(s: SessionView, choice: u8) -> (SessionView, Reaction) {
    let wrong = choice != s.correct_index;
    (
        SessionView { answered: true, pending_wrong: Some(wrong), flash: s.flash || wrong, ..s },
        Reaction { redraw: wrong, request: SessionRequest::SubmitChoice(choice) },
    )
}

/// The character a key types into the abort confirmation.
pub open spec fn typed_char(keysym: Option<u32>) -> Option<char> {
    match keysym {
        Some(sym) => if sym == XK_RETURN || sym == XK_KP_ENTER {
            Some('\n')
        } else if (0x41 <= sym <= 0x5a || 0x61 <= sym <= 0x7a) {
            Some(sym as char)
        } else {
            None
        },
        None => None,
    }
}

/// The effect of an event.
pub open spec fn event_step(s: SessionView, ev: SessionEvent, now: u64) -> (SessionView, Reaction) {
    let none = Reaction { redraw: false, request: SessionRequest::Nothing };
    if s.finished {
        (s, none)
    } else {
        match ev {
            SessionEvent::KeyPress { ctrl, shift, keysym, choice } => {
                let escape_held = s.escape_held || keysym == Some(XK_ESCAPE);
                let (h1, out) = chord_step(s.hatch, ctrl, shift, escape_held, now);
                let s1 = SessionView { last_ctrl: ctrl, last_shift: shift, escape_held, hatch: h1, ..s };
                if out == HatchOutcome::Confirming || h1.confirming {
                    let redraw = !s1.abort_prompt;
                    let s2 = SessionView { abort_prompt: true, ..s1 };
                    match typed_char(keysym) {
                        Some(ch) => {
                            let (h2, t) = text_step(s2.hatch, ch);
                            let s3 = SessionView { hatch: h2, ..s2 };
                            if t == HatchOutcome::Completed {
                                (s3, Reaction { redraw, request: SessionRequest::AbortHatch })
                            } else {
                                (s3, Reaction { redraw, request: SessionRequest::Nothing })
                            }
                        },
                        None => (s2, Reaction { redraw, request: SessionRequest::Nothing }),
                    }
                } else if s1.answered {
                    (s1, none)
                } else {
                    match choice {
                        Some(c) => choose_step(s1, c),
                        None => (s1, none),
                    }
                }
            },
            SessionEvent::KeyRelease { ctrl, shift, keysym } => {
                let escape_held = if keysym == Some(XK_ESCAPE) {
                    false
                } else {
                    s.escape_held
                };
                let (h1, _) = chord_step(s.hatch, ctrl, shift, escape_held, now);
                (SessionView { last_ctrl: ctrl, last_shift: shift, escape_held, hatch: h1, ..s }, none)
            },
            SessionEvent::Click { primary, choice } => {
                if primary && !s.answered && !s.abort_prompt {
                    match choice {
                        Some(c) => choose_step(s, c),
                        None => (s, none),
                    }
                } else {
                    (s, none)
                }
            },
            SessionEvent::Expose => (s, Reaction { redraw: true, request: SessionRequest::Nothing }),
        }
    }
}

/// The state after the pending events: while Escape is held, the hold keeps counting.
pub open spec fn after_step(s: SessionView, now: u64) -> SessionView {
    if s.escape_held {
        SessionView { hatch: chord_step(s.hatch, s.last_ctrl, s.last_shift, true, now).0, ..s }
    } else {
        s
    }
}

/// The state after the daemon's reply to a sent choice. Accepted: a right choice lets go at
/// once, a wrong one after `WRONG_ANSWER_FLASH_MS`. Refused: the prompt takes a choice again.
pub open spec fn submit_reply_step(s: SessionView, accepted: bool, now: u64) -> SessionView {
    if accepted {
        if s.pending_wrong->0 {
            SessionView { pending_wrong: None, unlock_at: Some((now + WRONG_ANSWER_FLASH_MS) as u64), ..s }
        } else {
            SessionView { pending_wrong: None, finished: true, ..s }
        }
    } else {
        SessionView { pending_wrong: None, answered: false, ..s }
    }
}

/// The state after the daemon's reply to a confirmed abort. Accepted: the prompt counts as
/// answered and the surface lets go, at once unless a wrong answer's correction is still on
/// screen, which then runs to its deadline. Refused: nothing changes.
pub open spec fn abort_reply_step(s: SessionView, accepted: bool) -> SessionView {
    if accepted {
        if s.unlock_at is Some {
            SessionView { answered: true, ..s }
        } else {
            SessionView { answered: true, finished: true, ..s }
        }
    } else {
        s
    }
}

/// The state once the clock reads `now`: the surface lets go when the right answer has been
/// shown long enough.
pub open spec fn deadline_step(s: SessionView, now: u64) -> SessionView {
    if s.unlock_at matches Some(d) && now >= d {
        SessionView { finished: true, ..s }
    } else {
        s
    }
}

impl LockSession {
    /// The state when a prompt with this right answer is shown.
    pub fn new(correct_index: u8) -> (r: LockSession)
        ensures
            r@.correct_index == correct_index,
            !r@.answered && r@.pending_wrong is None && r@.unlock_at is None && !r@.escape_held
                && !r@.last_ctrl && !r@.last_shift && !r@.flash && !r@.abort_prompt && !r@.finished,
            r@.hatch.hold_from is None && !r@.hatch.confirming && r@.hatch.buffer == Seq::<char>::empty(),
    {
        LockSession {
            correct_index,
            answered: false,
            pending_wrong: None,
            unlock_at: None,
            hatch: HatchTracker::new(),
            escape_held: false,
            last_ctrl: false,
            last_shift: false,
            flash: false,
            abort_prompt: false,
            finished: false,
        }
    }

    /// Whether the right answer is shown.
    pub fn showing_answer(&self) -> (r: bool)
        ensures
            r == self@.flash,
    {
        self.flash
    }

    /// Whether the abort confirmation is shown.
    pub fn showing_abort_prompt(&self) -> (r: bool)
        ensures
            r == self@.abort_prompt,
    {
        self.abort_prompt
    }

    /// Whether the surface lets go.
    pub fn is_finished(&self) -> (r: bool)
        ensures
            r == self@.finished,
    {
        self.finished
    }

    /// Whether the surface is waiting for input (no choice sent yet).
    pub fn is_answered(&self) -> (r: bool)
        ensures
            r == self@.answered,
    {
        self.answered
    }

    fn pick_choice(&mut self, choice: u8) -> (r: Reaction)
        ensures
            (final(self)@, r) == choose_step(old(self)@, choice),
    {
        self.answered = true;
        let wrong = choice != self.correct_index;
        self.pending_wrong = Some(wrong);
        if wrong {
            self.flash = true;
        }
        Reaction { redraw: wrong, request: SessionRequest::SubmitChoice(choice) }
    }

    /// Handles one input event at `now` (monotonic milliseconds).
    pub fn on_event(&mut self, ev: SessionEvent, now: u64) -> (r: Reaction)
        ensures
            (final(self)@, r) == event_step(old(self)@, ev, now),
    {
        let none = Reaction { redraw: false, request: SessionRequest::Nothing };
        if self.finished {
            return none;
        }
        match ev {
            SessionEvent::KeyPress { ctrl, shift, keysym, choice } => {
                self.last_ctrl = ctrl;
                self.last_shift = shift;
                if keysym == Some(XK_ESCAPE) {
                    self.escape_held = true;
                }
                let out = self.hatch.on_chord(ctrl, shift, self.escape_held, now);
                if out == HatchOutcome::Confirming || self.hatch.is_confirming() {
                    let redraw = !self.abort_prompt;
                    self.abort_prompt = true;
                    let typed = match keysym {
                        Some(sym) => if sym == XK_RETURN || sym == XK_KP_ENTER {
                            Some('\n')
                        } else {
                            char_from_keysym(sym)
                        },
                        None => None,
                    };
                    match typed {
                        Some(ch) => {
                            let t = self.hatch.on_text(ch);
                            if t == HatchOutcome::Completed {
                                return Reaction { redraw, request: SessionRequest::AbortHatch };
                            }
                            return Reaction { redraw, request: SessionRequest::Nothing };
                        },
                        None => {
                            return Reaction { redraw, request: SessionRequest::Nothing };
                        },
                    }
                }
                if self.answered {
                    return none;
                }
                match choice {
                    Some(c) => self.pick_choice(c),
                    None => none,
                }
            },
            SessionEvent::KeyRelease { ctrl, shift, keysym } => {
                self.last_ctrl = ctrl;
                self.last_shift = shift;
                if keysym == Some(XK_ESCAPE) {
                    self.escape_held = false;
                }
                let _ = self.hatch.on_chord(ctrl, shift, self.escape_held, now);
                none
            },
            SessionEvent::Click { primary, choice } => {
                if primary && !self.answered && !self.abort_prompt {
                    match choice {
                        Some(c) => self.pick_choice(c),
                        None => none,
                    }
                } else {
                    none
                }
            },
            SessionEvent::Expose => Reaction { redraw: true, request: SessionRequest::Nothing },
        }
    }

    /// After the pending events: while Escape is held, the hold keeps counting.
    pub fn after_events(&mut self, now: u64)
        ensures
            final(self)@ == after_step(old(self)@, now),
    {
        if self.escape_held {
            let _ = self.hatch.on_chord(self.last_ctrl, self.last_shift, true, now);
        }
    }

    /// The daemon's reply to a sent choice. Accepted: a right choice lets go at once, a wrong one
    /// after `WRONG_ANSWER_FLASH_MS`. Refused: the prompt takes a choice again.
    pub fn on_submit_result(&mut self, accepted: bool, now: u64)
        requires
            old(self)@.pending_wrong is Some,
            now <= u64::MAX - WRONG_ANSWER_FLASH_MS,
        ensures
            final(self)@ == submit_reply_step(old(self)@, accepted, now),
    {
        let wrong = match self.pending_wrong {
            Some(w) => w,
            None => false,
        };
        self.pending_wrong = None;
        if accepted {
            if wrong {
                self.unlock_at = Some(now + WRONG_ANSWER_FLASH_MS);
            } else {
                self.finished = true;
            }
        } else {
            self.answered = false;
        }
    }

    /// The daemon's reply to a confirmed abort: accepted lets go (after a pending correction's
    /// deadline, if one runs); refused keeps the prompt.
    pub fn on_abort_result(&mut self, accepted: bool)
        ensures
            final(self)@ == abort_reply_step(old(self)@, accepted),
    {
        if accepted {
            self.answered = true;
            if self.unlock_at.is_none() {
                self.finished = true;
            }
        }
    }

    /// Lets go once the right answer has been shown long enough.
    pub fn check_deadline(&mut self, now: u64)
        ensures
            final(self)@ == deadline_step(old(self)@, now),
    {
        if let Some(deadline) = self.unlock_at {
            if now >= deadline {
                self.finished = true;
            }
        }
    }
}

/// No input event lets the surface go: only the daemon's acceptance of an answer or an abort
/// does (Escape, Alt+F4 or any other key included).
pub proof fn law_events_never_release(s: SessionView, ev: SessionEvent, now: u64)
    ensures
        event_step(s, ev, now).0.finished == s.finished,
{
}

/// A choice is sent at most once per prompt: while one is answered, events send no choice.
pub proof fn law_one_choice_at_a_time(s: SessionView, ev: SessionEvent, now: u64)
    requires
        s.answered,
    ensures
        !(event_step(s, ev, now).1.request is SubmitChoice),
{
}

/// A sent choice is marked answered, and it is wrong exactly when it differs from the right
/// index; a wrong choice shows the right answer.
pub proof fn law_sent_choice_is_graded(s: SessionView, ev: SessionEvent, now: u64)
    ensures
        event_step(s, ev, now).1.request matches SessionRequest::SubmitChoice(c) ==> event_step(s, ev, now).0.answered
            && event_step(s, ev, now).0.pending_wrong == Some(c != s.correct_index)
            && (c != s.correct_index ==> event_step(s, ev, now).0.flash),
{
}

/// While the abort confirmation is open, clicks choose nothing.
pub proof fn law_clicks_ignored_during_abort(s: SessionView, primary: bool, choice: Option<u8>, now: u64)
    requires
        s.abort_prompt,
    ensures
        event_step(s, SessionEvent::Click { primary, choice }, now).1.request == SessionRequest::Nothing,
{
}

/// A key press carrying `keysym` (with any modifiers and any choice under it).
pub open spec fn key_press(keysym: u32) -> SessionEvent {
    SessionEvent::KeyPress { ctrl: true, shift: true, keysym: Some(keysym), choice: None }
}

/// While the abort confirmation is open, a key whose keysym is an ASCII letter, upper or lower
/// case (the lock passes the first keysym column, lower case for letter keys), types that
/// letter, upper-cased, into the confirmation; it sends nothing by itself.
pub proof fn law_letters_type_into_the_confirmation(
    s: SessionView,
    ctrl: bool,
    shift: bool,
    k: u32,
    choice: Option<u8>,
    now: u64,
)
    requires
        !s.finished,
        s.hatch.confirming,
        s.hatch.buffer.len() < 5,
        0x41 <= k <= 0x5a || 0x61 <= k <= 0x7a,
    ensures
        typed_char(Some(k)) == Some(k as char),
        event_step(s, (SessionEvent::KeyPress { ctrl, shift, keysym: Some(k), choice }), now).0.hatch.buffer
            == s.hatch.buffer.push((if k >= 0x61 { k - 32 } else { k as int }) as char),
        event_step(s, (SessionEvent::KeyPress { ctrl, shift, keysym: Some(k), choice }), now).1.request
            == SessionRequest::Nothing,
        event_step(s, (SessionEvent::KeyPress { ctrl, shift, keysym: Some(k), choice }), now).0.abort_prompt,
{
    let ch = k as char;
    assert(ch as int == k);
    assert(is_ascii_letter(ch));
    if k >= 0x61 {
        assert(ascii_upper(ch) == (k - 32) as char);
    } else {
        assert(ascii_upper(ch) == ch);
    }
}

/// Typing `abort` in lower case and pressing Return, with the confirmation open and empty,
/// sends the abort; so does the same word in capitals.
pub proof fn law_abort_word_in_either_case_completes(s: SessionView, now: u64)
    requires
        !s.finished,
        s.hatch.confirming,
        s.hatch.buffer.len() == 0,
    ensures
        ({
            let s1 = event_step(s, key_press(0x61), now).0;
            let s2 = event_step(s1, key_press(0x62), now).0;
            let s3 = event_step(s2, key_press(0x6f), now).0;
            let s4 = event_step(s3, key_press(0x72), now).0;
            let s5 = event_step(s4, key_press(0x74), now).0;
            event_step(s5, key_press(XK_RETURN), now).1.request == SessionRequest::AbortHatch
        }),
        ({
            let s1 = event_step(s, key_press(0x41), now).0;
            let s2 = event_step(s1, key_press(0x42), now).0;
            let s3 = event_step(s2, key_press(0x4f), now).0;
            let s4 = event_step(s3, key_press(0x52), now).0;
            let s5 = event_step(s4, key_press(0x54), now).0;
            event_step(s5, key_press(XK_RETURN), now).1.request == SessionRequest::AbortHatch
        }),
{
    let t1 = lemma_types_next_letter(s, 0x61, now, 0);
    let t2 = lemma_types_next_letter(t1, 0x62, now, 1);
    let t3 = lemma_types_next_letter(t2, 0x6f, now, 2);
    let t4 = lemma_types_next_letter(t3, 0x72, now, 3);
    let t5 = lemma_types_next_letter(t4, 0x74, now, 4);
    let u1 = lemma_types_next_letter(s, 0x41, now, 0);
    let u2 = lemma_types_next_letter(u1, 0x42, now, 1);
    let u3 = lemma_types_next_letter(u2, 0x4f, now, 2);
    let u4 = lemma_types_next_letter(u3, 0x52, now, 3);
    let u5 = lemma_types_next_letter(u4, 0x54, now, 4);
    assert(confirm_word().take(5) =~= confirm_word());
    assert(s.hatch.buffer =~= confirm_word().take(0));
}

/// Typing the next letter of the confirmation word, in either case, extends what was typed.
proof fn lemma_types_next_letter(s: SessionView, k: u32, now: u64, i: int) -> (t: SessionView)
    requires
        0 <= i < 5,
        !s.finished,
        s.hatch.confirming,
        s.hatch.buffer =~= confirm_word().take(i),
        k == confirm_word()[i] as u32 || k == confirm_word()[i] as u32 + 32,
    ensures
        t == event_step(s, key_press(k), now).0,
        !t.finished && t.hatch.confirming && t.hatch.buffer =~= confirm_word().take(i + 1),
{
    law_letters_type_into_the_confirmation(s, true, true, k, None, now);
    let t = event_step(s, key_press(k), now).0;
    assert(confirm_word().take(i + 1) =~= confirm_word().take(i).push(confirm_word()[i]));
    t
}

/// A click by any button but the primary one sends no choice and changes nothing.
pub proof fn law_other_buttons_change_nothing(s: SessionView, choice: Option<u8>, now: u64)
    ensures
        event_step(s, (SessionEvent::Click { primary: false, choice }), now) == (
            s,
            (Reaction { redraw: false, request: SessionRequest::Nothing }),
        ),
{
}

/// A primary click on a choice row, with no choice sent yet and the abort confirmation closed,
/// sends that choice.
pub proof fn law_primary_click_sends_its_row(s: SessionView, c: u8, now: u64)
    requires
        !s.finished,
        !s.answered,
        !s.abort_prompt,
    ensures
        event_step(s, (SessionEvent::Click { primary: true, choice: Some(c) }), now).1.request
            == SessionRequest::SubmitChoice(c),
{
}

/// What happens to a shown prompt: an input event, the daemon's reply to a sent choice or to
/// an abort, the clock, or the end of a batch of events.
pub enum SessionInput {
    Event(SessionEvent, u64),
    SubmitReply(bool, u64),
    AbortReply(bool),
    Clock(u64),
    AfterEvents(u64),
}

/// The state after one input.
pub open spec fn input_step(s: SessionView, input: SessionInput) -> SessionView {
    match input {
        SessionInput::Event(ev, now) => event_step(s, ev, now).0,
        SessionInput::SubmitReply(accepted, now) => submit_reply_step(s, accepted, now),
        SessionInput::AbortReply(accepted) => abort_reply_step(s, accepted),
        SessionInput::Clock(now) => deadline_step(s, now),
        SessionInput::AfterEvents(now) => after_step(s, now),
    }
}

/// The state after a sequence of inputs.
pub open spec fn session_run(s: SessionView, inputs: Seq<SessionInput>) -> SessionView
    decreases inputs.len(),
{
    if inputs.len() == 0 {
        s
    } else {
        input_step(session_run(s, inputs.drop_last()), inputs.last())
    }
}

/// Whether an input is the daemon's acceptance of an answer or of an abort.
pub open spec fn is_accepted_reply(input: SessionInput) -> bool {
    match input {
        SessionInput::SubmitReply(accepted, _) => accepted,
        SessionInput::AbortReply(accepted) => accepted,
        _ => false,
    }
}

/// The surface lets go only after the daemon accepted an answer or an abort: no sequence of
/// keys, clicks or clock ticks alone ends a freeze.
pub proof fn law_release_needs_accepted_reply(s: SessionView, inputs: Seq<SessionInput>)
    requires
        !s.finished,
        s.unlock_at is None,
    ensures
        (session_run(s, inputs).finished || session_run(s, inputs).unlock_at is Some) ==> exists|i: int|
            0 <= i < inputs.len() && is_accepted_reply(#[trigger] inputs[i]),
    decreases inputs.len(),
{
    if inputs.len() > 0 {
        let init = inputs.drop_last();
        law_release_needs_accepted_reply(s, init);
        let prev = session_run(s, init);
        let last = inputs.last();
        if let SessionInput::Event(ev, now) = last {
            law_events_never_release(prev, ev, now);
            lemma_events_keep_deadline(prev, ev, now);
        }
        if session_run(s, inputs).finished || session_run(s, inputs).unlock_at is Some {
            if is_accepted_reply(last) {
                assert(is_accepted_reply(inputs[inputs.len() - 1]));
            } else {
                assert(prev.finished || prev.unlock_at is Some);
                let i = choose|i: int| 0 <= i < init.len() && is_accepted_reply(#[trigger] init[i]);
                assert(init[i] == inputs[i]);
            }
        }
    }
}

/// Input events leave the deadline as it was.
proof fn lemma_events_keep_deadline(s: SessionView, ev: SessionEvent, now: u64)
    ensures
        event_step(s, ev, now).0.unlock_at == s.unlock_at,
{
}

} // verus!
