//! Tests of the latest-value slot and the staleness-gated stage decisions.

use pikchr_pl::pipeline::{gate, observe, stage_step, superseded, StageControl, StageEvent, StagePhase};
use pikchr_pl::slot::Slot;

#[test]
fn a_reader_observes_the_most_recent_value() {
    let mut slot = Slot::new(String::from("first"));
    slot.publish(String::from("second"));
    slot.publish(String::from("third"));
    let value = slot.read_and_mark();
    assert_eq!(value, "third");
}

#[test]
fn publishing_a_new_value_reports_changed() {
    let mut slot = Slot::new(String::from("a"));
    let _ = slot.read_and_mark();
    assert!(!slot.has_changed());
    slot.publish(String::from("b"));
    assert!(slot.has_changed());
}

#[test]
fn publishing_the_same_value_twice_reports_unchanged() {
    let mut slot = Slot::new(String::from("diagram --> circle."));
    slot.publish(String::from("diagram --> circle."));
    let _ = slot.read_and_mark();
    slot.publish(String::from("diagram --> circle."));
    assert!(!slot.has_changed());
}

#[test]
fn a_result_for_a_superseded_input_is_never_delivered() {
    let mut slot = Slot::new(String::from("I1"));
    let (input, token) = observe(&mut slot);
    assert_eq!(input, "I1");
    slot.publish(String::from("I2"));
    assert!(superseded(&slot, token));
    let delivered = gate(&slot, token, "result computed from I1");
    assert_eq!(delivered, None);
}

#[test]
fn a_result_for_the_current_input_is_delivered() {
    let mut slot = Slot::new(String::from("I1"));
    let (_, token) = observe(&mut slot);
    assert!(!superseded(&slot, token));
    let delivered = gate(&slot, token, "result computed from I1");
    assert_eq!(delivered, Some("result computed from I1"));
}

#[test]
fn republishing_the_same_input_does_not_invalidate_a_run() {
    let mut slot = Slot::new(String::from("I1"));
    let (_, token) = observe(&mut slot);
    slot.publish(String::from("I1"));
    assert!(!superseded(&slot, token));
    assert_eq!(gate(&slot, token, 42), Some(42));
}

#[test]
fn a_stage_run_walks_the_phase_machine() {
    let p = stage_step(StagePhase::Idle, StageEvent::InputArrived);
    assert_eq!(p, StagePhase::Debouncing);
    let p = stage_step(p, StageEvent::WaitElapsedCurrent);
    assert_eq!(p, StagePhase::Running);
    let p = stage_step(p, StageEvent::RunFinishedCurrent);
    assert_eq!(p, StagePhase::Delivered);
    let p = stage_step(p, StageEvent::InputArrived);
    assert_eq!(p, StagePhase::Debouncing);
    let p = stage_step(p, StageEvent::WaitElapsedSuperseded);
    assert_eq!(p, StagePhase::Superseded);
}

#[test]
fn a_stale_run_ends_superseded_not_delivered() {
    let p = stage_step(StagePhase::Running, StageEvent::RunFinishedStale);
    assert_eq!(p, StagePhase::Superseded);
}

#[test]
fn debounce_applies_only_after_a_success() {
    let mut control = StageControl::new(100);
    assert_eq!(control.debounce_delay(), 0);
    control.record_outcome(true);
    assert_eq!(control.debounce_delay(), 100);
    control.record_outcome(false);
    assert_eq!(control.debounce_delay(), 0);
}
