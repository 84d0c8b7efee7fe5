use recallgate::hatch::{HatchOutcome, HatchTracker, HOLD_MS};

const CONFIRM: &str = "ABORT";

#[test]
fn hatch_completes_after_hold_and_abort() {
    let mut hatch = HatchTracker::new();
    let t0: u64 = 1_000;
    assert_eq!(hatch.on_chord(true, true, true, t0), HatchOutcome::Armed);
    assert_eq!(hatch.on_chord(true, true, true, t0 + 2_000), HatchOutcome::Confirming);
    for ch in CONFIRM.chars() {
        assert_eq!(hatch.on_text(ch), HatchOutcome::Confirming);
    }
    assert_eq!(hatch.on_text('\n'), HatchOutcome::Completed);
}

#[test]
fn hatch_ignores_short_hold() {
    let mut hatch = HatchTracker::new();
    let t0: u64 = 1_000;
    hatch.on_chord(true, true, true, t0);
    assert_eq!(hatch.on_chord(true, true, true, t0 + 500), HatchOutcome::Armed);
    hatch.on_chord(false, false, false, t0 + 501);
    assert_eq!(hatch.on_text('A'), HatchOutcome::Ignored);
}

#[test]
fn hold_opens_at_exactly_two_seconds() {
    let mut hatch = HatchTracker::default();
    assert_eq!(hatch.on_chord(true, true, true, 0), HatchOutcome::Armed);
    assert_eq!(hatch.on_chord(true, true, true, HOLD_MS - 1), HatchOutcome::Armed);
    assert!(!hatch.is_confirming());
    assert_eq!(hatch.on_chord(true, true, true, HOLD_MS), HatchOutcome::Confirming);
    assert!(hatch.is_confirming());
}

#[test]
fn release_restarts_the_hold() {
    let mut hatch = HatchTracker::new();
    hatch.on_chord(true, true, true, 0);
    assert_eq!(hatch.on_chord(true, false, true, 1_500), HatchOutcome::Ignored);
    assert_eq!(hatch.on_chord(true, true, true, 1_600), HatchOutcome::Armed);
    assert_eq!(hatch.on_chord(true, true, true, 3_000), HatchOutcome::Armed);
    assert_eq!(hatch.on_chord(true, true, true, 3_600), HatchOutcome::Confirming);
}

#[test]
fn confirmation_is_case_blind_and_needs_the_exact_word() {
    let mut hatch = HatchTracker::new();
    hatch.on_chord(true, true, true, 0);
    hatch.on_chord(true, true, true, 2_000);
    for ch in "abor".chars() {
        assert_eq!(hatch.on_text(ch), HatchOutcome::Confirming);
    }
    assert_eq!(hatch.on_text('\n'), HatchOutcome::Confirming);
    for ch in "aBoRt".chars() {
        assert_eq!(hatch.on_text(ch), HatchOutcome::Confirming);
    }
    assert_eq!(hatch.on_text('7'), HatchOutcome::Confirming);
    assert_eq!(hatch.on_text('\n'), HatchOutcome::Completed);
    assert!(!hatch.is_confirming());
}

#[test]
fn too_many_letters_clear_the_word() {
    let mut hatch = HatchTracker::new();
    hatch.on_chord(true, true, true, 0);
    hatch.on_chord(true, true, true, 2_000);
    for ch in "ABORTX".chars() {
        hatch.on_text(ch);
    }
    assert_eq!(hatch.on_text('\n'), HatchOutcome::Confirming);
    for ch in "ABORT".chars() {
        hatch.on_text(ch);
    }
    assert_eq!(hatch.on_text('\n'), HatchOutcome::Completed);
}

#[test]
fn chord_events_while_confirming_keep_the_prompt() {
    let mut hatch = HatchTracker::new();
    hatch.on_chord(true, true, true, 0);
    hatch.on_chord(true, true, true, 2_000);
    assert_eq!(hatch.on_chord(false, false, false, 2_100), HatchOutcome::Confirming);
    assert!(hatch.is_confirming());
}

#[test]
fn typing_the_word_without_the_chord_does_nothing() {
    let mut hatch = HatchTracker::new();
    assert_eq!(hatch.on_chord(true, true, false, 0), HatchOutcome::Ignored);
    for ch in "ABORT\n".chars() {
        assert_eq!(hatch.on_text(ch), HatchOutcome::Ignored);
    }
    assert_eq!(hatch.on_chord(true, false, true, 5_000), HatchOutcome::Ignored);
    assert!(!hatch.is_confirming());
}
