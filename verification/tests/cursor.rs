use scrap_input::cursor::{Action, Cursor};
use scrap_input::event::{batch_of_one, batch_of_two, InputEvent, OnFailure, Plan, Step};

fn event(code: u16) -> InputEvent {
    InputEvent::key(code, true)
}

#[test]
fn events_are_built_from_type_code_and_value() {
    assert_eq!(InputEvent::sync(), InputEvent { kind: 0, code: 0, value: 0 });
    assert_eq!(InputEvent::key(30, true), InputEvent { kind: 1, code: 30, value: 1 });
    assert_eq!(InputEvent::key(30, false), InputEvent { kind: 1, code: 30, value: 0 });
    assert_eq!(InputEvent::relative(8, -3), InputEvent { kind: 2, code: 8, value: -3 });
    assert_eq!(batch_of_one(event(1)), vec![event(1)]);
    assert_eq!(batch_of_two(event(1), event(2)), vec![event(1), event(2)]);
}

#[test]
fn event_types_are_the_kernels() {
    assert_eq!(InputEvent::sync().kind, evdev::EventType::SYNCHRONIZATION.0);
    assert_eq!(InputEvent::key(1, true).kind, evdev::EventType::KEY.0);
    assert_eq!(InputEvent::relative(0, 1).kind, evdev::EventType::RELATIVE.0);
}

#[test]
fn an_empty_plan_is_finished_at_once() {
    let mut cursor = Cursor::new(Plan::new());
    assert!(cursor.is_finished());
    assert_eq!(cursor.current(), Action::Finished { delivered: true });
    cursor.report(false);
    assert_eq!(cursor.current(), Action::Finished { delivered: true });
}

#[test]
fn a_plan_is_built_step_by_step() {
    let mut plan = Plan::new();
    assert!(plan.is_empty());
    plan.push_emit(vec![event(1)], OnFailure::Ignore);
    plan.push_settle(7);
    plan.push_report(vec![event(2)], OnFailure::SkipNext, OnFailure::Abort);
    let mut tail = Plan::new();
    tail.push_settle(9);
    plan.append(tail);
    assert_eq!(plan.len(), 5);
    assert_eq!(
        plan.steps,
        vec![
            Step::Emit { events: vec![event(1)], on_failure: OnFailure::Ignore },
            Step::Settle { millis: 7 },
            Step::Emit { events: vec![event(2)], on_failure: OnFailure::SkipNext },
            Step::Emit { events: vec![InputEvent::sync()], on_failure: OnFailure::Abort },
            Step::Settle { millis: 9 },
        ]
    );
}

#[test]
fn a_cursor_shows_each_step_in_order() {
    let mut plan = Plan::new();
    plan.push_emit(vec![event(1)], OnFailure::Ignore);
    plan.push_settle(7);
    plan.push_emit(vec![event(2)], OnFailure::Ignore);
    let mut cursor = Cursor::new(plan);
    assert_eq!(cursor.current(), Action::Emit(&vec![event(1)]));
    assert_eq!(cursor.current(), Action::Emit(&vec![event(1)]));
    cursor.report(true);
    assert_eq!(cursor.current(), Action::Settle(7));
    cursor.report(true);
    assert!(!cursor.is_finished());
    assert_eq!(cursor.current(), Action::Emit(&vec![event(2)]));
    cursor.report(true);
    assert!(cursor.is_finished());
    assert_eq!(cursor.current(), Action::Finished { delivered: true });
}

#[test]
fn an_ignored_failure_changes_nothing() {
    let mut plan = Plan::new();
    plan.push_emit(vec![event(1)], OnFailure::Ignore);
    plan.push_emit(vec![event(2)], OnFailure::Ignore);
    let mut cursor = Cursor::new(plan);
    cursor.report(false);
    assert_eq!(cursor.current(), Action::Emit(&vec![event(2)]));
    cursor.report(false);
    assert_eq!(cursor.current(), Action::Finished { delivered: true });
}

#[test]
fn a_skipping_failure_leaves_out_one_step() {
    let mut plan = Plan::new();
    plan.push_emit(vec![event(1)], OnFailure::SkipNext);
    plan.push_emit(vec![event(2)], OnFailure::Ignore);
    plan.push_emit(vec![event(3)], OnFailure::Ignore);
    let mut cursor = Cursor::new(plan);
    cursor.report(false);
    assert_eq!(cursor.current(), Action::Emit(&vec![event(3)]));
    cursor.report(true);
    assert_eq!(cursor.current(), Action::Finished { delivered: true });
}

#[test]
fn a_skipping_failure_on_the_last_step_ends_the_plan() {
    let mut plan = Plan::new();
    plan.push_emit(vec![event(1)], OnFailure::SkipNext);
    let mut cursor = Cursor::new(plan);
    cursor.report(false);
    assert_eq!(cursor.current(), Action::Finished { delivered: true });
}

#[test]
fn an_aborting_failure_ends_the_plan_as_failed() {
    let mut plan = Plan::new();
    plan.push_emit(vec![event(1)], OnFailure::Abort);
    plan.push_settle(5);
    plan.push_emit(vec![event(2)], OnFailure::Ignore);
    let mut cursor = Cursor::new(plan);
    cursor.report(false);
    assert!(cursor.is_finished());
    assert_eq!(cursor.current(), Action::Finished { delivered: false });
    cursor.report(true);
    assert_eq!(cursor.current(), Action::Finished { delivered: false });
}

#[test]
fn a_policy_matters_only_on_failure() {
    for policy in [OnFailure::Ignore, OnFailure::SkipNext, OnFailure::Abort] {
        let mut plan = Plan::new();
        plan.push_emit(vec![event(1)], policy);
        plan.push_emit(vec![event(2)], policy);
        let mut cursor = Cursor::new(plan);
        cursor.report(true);
        assert_eq!(cursor.current(), Action::Emit(&vec![event(2)]));
        cursor.report(true);
        assert_eq!(cursor.current(), Action::Finished { delivered: true });
    }
}
