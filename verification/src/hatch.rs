//! The paid abort ("hatch"): hold Ctrl+Shift+Escape for two seconds, type `ABORT`, press Enter.
//! Times are milliseconds on a monotonic clock.
use vstd::prelude::*;

verus! {

/// How long the chord must be held before the confirmation prompt opens.
pub const HOLD_MS: u64 = 2000;

/// The word that confirms an abort.
pub open spec fn confirm_word() -> Seq<char> {
    seq!['A', 'B', 'O', 'R', 'T']
}

/// What a key event did to the hatch.
#[derive(Debug, Clone, Copy, PartialEq, Eq, Structural)]
pub enum HatchOutcome {
    /// Not part of the hatch.
    Ignored,
    /// The chord is held but not yet long enough.
    Armed,
    /// The confirmation word is being typed.
    Confirming,
    /// The abort is confirmed.
    Completed,
}

/// Tracks the hatch across key events.
#[derive(Debug)]
pub struct HatchTracker {
    hold_from: Option<u64>,
    confirming: bool,
    buffer: Vec<char>,
}

/// The hatch state as plain values: when the current hold began, whether the confirmation
/// prompt is open, and what has been typed into it.
pub struct HatchView {
    pub hold_from: Option<u64>,
    pub confirming: bool,
    pub buffer: Seq<char>,
}

/// Time since `start`, or zero when `now` is earlier.
pub open spec fn held_ms(start: u64, now: u64) -> int {
    if now >= start {
        now - start
    } else {
        0
    }
}

/// The effect of a chord event (the state of Ctrl, Shift and Escape at `now`).
pub open spec fn chord_step(s: HatchView, ctrl: bool, shift: bool, escape: bool, now: u64) -> (
    HatchView,
    HatchOutcome,
) {
    if s.confirming {
        (s, HatchOutcome::Confirming)
    } else if ctrl && shift && escape {
        let start = match s.hold_from {
            Some(t) => t,
            None => now,
        };
        if held_ms(start, now) >= HOLD_MS {
            (
                HatchView { hold_from: Some(start), confirming: true, buffer: Seq::empty() },
                HatchOutcome::Confirming,
            )
        } else {
            (HatchView { hold_from: Some(start), ..s }, HatchOutcome::Armed)
        }
    } else {
        (HatchView { hold_from: None, ..s }, HatchOutcome::Ignored)
    }
}

/// Letters that the confirmation prompt keeps.
pub open spec fn is_ascii_letter(ch: char) -> bool {
    ('a' <= ch && ch <= 'z') || ('A' <= ch && ch <= 'Z')
}

/// The upper-case form of an ASCII letter.
pub open spec fn ascii_upper(ch: char) -> char {
    if 'a' <= ch && ch <= 'z' {
        ((ch as int) - 32) as char
    } else {
        ch
    }
}

/// The effect of a typed character.
pub open spec fn text_step(s: HatchView, ch: char) -> (HatchView, HatchOutcome) {
    if !s.confirming {
        (s, HatchOutcome::Ignored)
    } else if ch == '\n' {
        if s.buffer == confirm_word() {
            (
                HatchView { hold_from: None, confirming: false, buffer: Seq::empty() },
                HatchOutcome::Completed,
            )
        } else {
            (HatchView { buffer: Seq::empty(), ..s }, HatchOutcome::Confirming)
        }
    } else if is_ascii_letter(ch) {
        let typed = s.buffer.push(ascii_upper(ch));
        if typed.len() > confirm_word().len() {
            (HatchView { buffer: Seq::empty(), ..s }, HatchOutcome::Confirming)
        } else {
            (HatchView { buffer: typed, ..s }, HatchOutcome::Confirming)
        }
    } else {
        (s, HatchOutcome::Confirming)
    }
}

impl View for HatchTracker {
    type V = HatchView;

    closed spec fn view(&self) -> HatchView {
        HatchView { hold_from: self.hold_from, confirming: self.confirming, buffer: self.buffer@ }
    }
}

fn is_confirm_word(buffer: &Vec<char>) -> (r: bool)
    ensures
        r == (buffer@ == confirm_word()),
{
    let ok = buffer.len() == 5 && buffer[0] == 'A' && buffer[1] == 'B' && buffer[2] == 'O'
        && buffer[3] == 'R' && buffer[4] == 'T';
    if ok {
        assert(buffer@ =~= confirm_word());
    }
    ok
}

impl HatchTracker {
    /// A tracker with no chord held and no prompt open.
    pub fn new() -> (r: HatchTracker)
        ensures
            r@.hold_from is None,
            !r@.confirming,
            r@.buffer == Seq::<char>::empty(),
    {
        HatchTracker { hold_from: None, confirming: false, buffer: Vec::new() }
    }

    /// Whether the confirmation prompt is open.
    pub fn is_confirming(&self) -> (r: bool)
        ensures
            r == self@.confirming,
    {
        self.confirming
    }

    /// Records the state of the chord keys at `now`. Holding Ctrl+Shift+Escape for
    /// `HOLD_MS` opens the confirmation prompt; letting go of any of them restarts the hold.
    pub fn on_chord(&mut self, ctrl: bool, shift: bool, escape: bool, now: u64) -> (r: HatchOutcome)
        ensures
            (final(self)@, r) == chord_step(old(self)@, ctrl, shift, escape, now),
    {
        if self.confirming {
            return HatchOutcome::Confirming;
        }
        if ctrl && shift && escape {
            let start = match self.hold_from {
                Some(t) => t,
                None => now,
            };
            self.hold_from = Some(start);
            let held = if now >= start {
                now - start
            } else {
                0
            };
            if held >= HOLD_MS {
                self.confirming = true;
                self.buffer.clear();
                assert(self.buffer@ =~= Seq::<char>::empty());
                return HatchOutcome::Confirming;
            }
            return HatchOutcome::Armed;
        }
        self.hold_from = None;
        HatchOutcome::Ignored
    }

    /// Records a typed character while the prompt is open: letters (upper-cased) build the
    /// word, more than five clears it, Enter confirms when the word is `ABORT`.
    pub fn on_text(&mut self, ch: char) -> (r: HatchOutcome)
        ensures
            (final(self)@, r) == text_step(old(self)@, ch),
    {
        if !self.confirming {
            return HatchOutcome::Ignored;
        }
        if ch == '\n' {
            let done = is_confirm_word(&self.buffer);
            self.buffer.clear();
            assert(self.buffer@ =~= Seq::<char>::empty());
            if done {
                self.confirming = false;
                self.hold_from = None;
                return HatchOutcome::Completed;
            }
            return HatchOutcome::Confirming;
        }
        if ('a' <= ch && ch <= 'z') || ('A' <= ch && ch <= 'Z') {
            let upper = ascii_upper_char(ch);
            self.buffer.push(upper);
            if self.buffer.len() > 5 {
                self.buffer.clear();
                assert(self.buffer@ =~= Seq::<char>::empty());
            }
        }
        HatchOutcome::Confirming
    }
}

fn ascii_upper_char(ch: char) -> (r: char)
    ensures
        r == ascii_upper(ch),
{
    if 'a' <= ch && ch <= 'z' {
        let code = (ch as u32) - 32;
        char_from_ascii_code(code)
    } else {
        ch
    }
}

fn char_from_ascii_code(code: u32) -> (r: char)
    requires
        65 <= code <= 90,
    ensures
        r == code as char,
{
    let b = code as u8;
    b as char
}

impl Default for HatchTracker {
    fn default() -> (r: HatchTracker)
        ensures
            r@.hold_from is None,
            !r@.confirming,
            r@.buffer == Seq::<char>::empty(),
    {
        HatchTracker::new()
    }
}

/// An abort completes only on Enter, with the prompt open and `ABORT` typed; completing closes
/// the prompt and restarts the hold.
pub proof fn law_completion_needs_confirmed_word(s: HatchView, ch: char)
    ensures
        text_step(s, ch).1 == HatchOutcome::Completed <==> (s.confirming && ch == '\n' && s.buffer
            == confirm_word()),
        text_step(s, ch).1 == HatchOutcome::Completed ==> !text_step(s, ch).0.confirming
            && text_step(s, ch).0.hold_from is None,
{
}

/// Chord events never complete an abort, and the prompt opens only after the chord has been held
/// for `HOLD_MS` since its hold began.
pub proof fn law_prompt_opens_only_after_full_hold(
    s: HatchView,
    ctrl: bool,
    shift: bool,
    escape: bool,
    now: u64,
)
    requires
        !s.confirming,
    ensures
        chord_step(s, ctrl, shift, escape, now).1 != HatchOutcome::Completed,
        chord_step(s, ctrl, shift, escape, now).0.confirming ==> ctrl && shift && escape && held_ms(
            chord_step(s, ctrl, shift, escape, now).0.hold_from->0,
            now,
        ) >= HOLD_MS,
{
}

/// Letting go of the chord before the prompt opens restarts the hold.
pub proof fn law_release_restarts_hold(s: HatchView, ctrl: bool, shift: bool, escape: bool, now: u64)
    requires
        !s.confirming,
        !(ctrl && shift && escape),
    ensures
        chord_step(s, ctrl, shift, escape, now).0.hold_from is None,
        chord_step(s, ctrl, shift, escape, now).1 == HatchOutcome::Ignored,
{
}

/// Typing does nothing until the prompt is open, and typing never opens it.
pub proof fn law_text_needs_open_prompt(s: HatchView, ch: char)
    ensures
        !s.confirming ==> text_step(s, ch) == (s, HatchOutcome::Ignored),
        !text_step(s, ch).0.confirming ==> !s.confirming || text_step(s, ch).1
            == HatchOutcome::Completed,
{
}

/// A key event as the hatch sees it: the chord keys' state at an instant, or a typed character.
pub enum HatchEvent {
    Chord { ctrl: bool, shift: bool, escape: bool, now: u64 },
    Text(char),
}

/// The effect of one event.
pub open spec fn hatch_event_step(s: HatchView, e: HatchEvent) -> (HatchView, HatchOutcome) {
    match e {
        HatchEvent::Chord { ctrl, shift, escape, now } => chord_step(s, ctrl, shift, escape, now),
        HatchEvent::Text(ch) => text_step(s, ch),
    }
}

/// The state after a sequence of events.
pub open spec fn hatch_run(s: HatchView, evs: Seq<HatchEvent>) -> HatchView
    decreases evs.len(),
{
    if evs.len() == 0 {
        s
    } else {
        hatch_event_step(hatch_run(s, evs.drop_last()), evs.last()).0
    }
}

/// Whether an event reports Ctrl, Shift and Escape all held.
pub open spec fn is_full_chord(e: HatchEvent) -> bool {
    e matches HatchEvent::Chord { ctrl, shift, escape, .. } && ctrl && shift && escape
}

/// Without the full chord, no sequence of key events opens the confirmation prompt or aborts:
/// typing `ABORT` and Enter alone does nothing.
pub proof fn law_no_abort_without_chord(s: HatchView, evs: Seq<HatchEvent>)
    requires
        !s.confirming,
        forall|i: int| 0 <= i < evs.len() ==> !is_full_chord(#[trigger] evs[i]),
    ensures
        !hatch_run(s, evs).confirming,
        forall|i: int| 0 <= i < evs.len() ==> (#[trigger] hatch_event_step(hatch_run(s, evs.take(i)), evs[i])).1
            != HatchOutcome::Completed,
    decreases evs.len(),
{
    if evs.len() > 0 {
        let init = evs.drop_last();
        assert forall|i: int| 0 <= i < init.len() implies !is_full_chord(#[trigger] init[i]) by {
            assert(init[i] == evs[i]);
        }
        law_no_abort_without_chord(s, init);
        assert(!is_full_chord(evs[evs.len() - 1]));
        assert forall|i: int| 0 <= i < evs.len() implies (#[trigger] hatch_event_step(
            hatch_run(s, evs.take(i)),
            evs[i],
        )).1 != HatchOutcome::Completed by {
            if i < init.len() {
                assert(evs.take(i) =~= init.take(i));
                assert(init[i] == evs[i]);
            } else {
                assert(evs.take(i) =~= init);
                assert(!is_full_chord(evs[i]));
            }
        }
    }
}

/// When the unbroken run of full chords that the events end with began: the instant of its
/// first event, or `None` when the last chord event did not hold all three keys (typed
/// characters do not break a run).
pub open spec fn hold_start(evs: Seq<HatchEvent>) -> Option<u64>
    decreases evs.len(),
{
    if evs.len() == 0 {
        None
    } else {
        match evs.last() {
            HatchEvent::Text(_) => hold_start(evs.drop_last()),
            HatchEvent::Chord { ctrl, shift, escape, now } => if ctrl && shift && escape {
                match hold_start(evs.drop_last()) {
                    Some(t) => Some(t),
                    None => Some(now),
                }
            } else {
                None
            },
        }
    }
}

/// While the prompt stays closed, the tracker's hold began where the trailing run of full
/// chords began.
proof fn lemma_hold_tracks_run(s: HatchView, evs: Seq<HatchEvent>)
    requires
        !s.confirming,
        s.hold_from is None,
        forall|i: int| 0 <= i <= evs.len() ==> !(#[trigger] hatch_run(s, evs.take(i))).confirming,
    ensures
        hatch_run(s, evs).hold_from == hold_start(evs),
    decreases evs.len(),
{
    if evs.len() > 0 {
        let init = evs.drop_last();
        assert forall|i: int| 0 <= i <= init.len() implies !(#[trigger] hatch_run(s, init.take(i))).confirming by {
            assert(init.take(i) =~= evs.take(i));
        }
        lemma_hold_tracks_run(s, init);
        assert(evs.take(evs.len() as int) =~= evs);
        assert(!hatch_run(s, evs).confirming);
    } else {
        assert(evs.take(0) =~= evs);
    }
}

/// The prompt opens only on a full chord held for `HOLD_MS` without a break: the first time it
/// opens after a fresh start, the last event holds all three keys, and the unbroken run of
/// full chords it ends began at least `HOLD_MS` earlier.
pub proof fn law_prompt_opens_after_unbroken_hold(s: HatchView, evs: Seq<HatchEvent>)
    requires
        !s.confirming,
        s.hold_from is None,
        forall|i: int| 0 <= i < evs.len() ==> !(#[trigger] hatch_run(s, evs.take(i))).confirming,
        hatch_run(s, evs).confirming,
    ensures
        evs.len() > 0,
        evs.last() matches HatchEvent::Chord { ctrl, shift, escape, now } && ctrl && shift && escape
            && (hold_start(evs) matches Some(t) && held_ms(t, now) >= HOLD_MS),
{
    if evs.len() == 0 {
        assert(hatch_run(s, evs) == s);
        assert(false);
    }
    let init = evs.drop_last();
    assert forall|i: int| 0 <= i <= init.len() implies !(#[trigger] hatch_run(s, init.take(i))).confirming by {
        assert(init.take(i) =~= evs.take(i));
    }
    lemma_hold_tracks_run(s, init);
    assert(init.take(init.len() as int) =~= init);
}

} // verus!
