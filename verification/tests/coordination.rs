use undo_coord::{Coordinator, UndoCounter, UndoEvent, UndoStack, UndoState};

fn counter_at(n: u64) -> UndoCounter {
    let mut c = UndoCounter::new();
    let mut i: u64 = 0;
    while i < n {
        c.increment();
        i += 1;
    }
    c
}

#[test]
fn counter_ops() {
    let mut c = UndoCounter::new();
    assert_eq!(c.value(), 0);
    c.increment();
    c.increment();
    assert_eq!(c.value(), 2);
    c.decrement();
    assert_eq!(c.value(), 1);
}

#[test]
fn counter_add_folds_reserve() {
    let mut c = counter_at(2);
    let mut r = undo_coord::ReserveCounter::new();
    r.increment();
    r.increment();
    r.increment();
    c.add(&r);
    assert_eq!(c.value(), 5);
    r.reset();
    assert_eq!(r.value(), 0);
}

#[test]
fn pop_empty_returns_nothing() {
    let mut st: UndoStack<u8> = UndoStack::new();
    let c = counter_at(1);
    assert!(st.pop_if_has_latest(&c).is_none());
    assert_eq!(st.len(), 0);
}

#[test]
fn pop_matches_by_version_not_position() {
    let mut st: UndoStack<&str> = UndoStack::new();
    st.push(UndoEvent::new("first", 1));
    st.push(UndoEvent::new("second", 2));
    st.push(UndoEvent::new("third", 3));
    let c = counter_at(2);
    assert_eq!(st.pop_if_has_latest(&c), Some("second"));
    assert_eq!(st.len(), 2);
    // relative order of the rest is preserved
    let c1 = counter_at(1);
    assert_eq!(st.pop_if_has_latest(&c1), Some("first"));
    let c3 = counter_at(3);
    assert_eq!(st.pop_if_has_latest(&c3), Some("third"));
    assert_eq!(st.len(), 0);
}

#[test]
fn pop_with_colliding_versions_takes_first() {
    // two entries with one stamp is an upstream contract violation; the stack
    // still deterministically hands out the first encountered
    let mut st: UndoStack<u8> = UndoStack::new();
    st.push(UndoEvent::new(1, 5));
    st.push(UndoEvent::new(2, 5));
    let c = counter_at(5);
    assert_eq!(st.pop_if_has_latest(&c), Some(1));
    assert_eq!(st.pop_if_has_latest(&c), Some(2));
}

#[test]
fn pop_at_most_once_for_unchanged_cursor() {
    let mut st: UndoStack<u8> = UndoStack::new();
    st.push(UndoEvent::new(10, 1));
    st.push(UndoEvent::new(20, 2));
    let c = counter_at(2);
    assert_eq!(st.pop_if_has_latest(&c), Some(20));
    // a second pop attempt for the same unchanged cursor value returns nothing
    assert_eq!(st.pop_if_has_latest(&c), None);
    assert_eq!(st.len(), 1);
}

#[test]
fn undo_tick_decrements_cursor_when_posted() {
    let mut co = Coordinator::new();
    co.increment_cursor();
    co.increment_cursor();
    let mut st: UndoStack<&str> = UndoStack::new();
    st.push(UndoEvent::new("a", 1));
    st.push(UndoEvent::new("b", 2));
    co.tick_start(true, false, false);
    assert_eq!(co.state(), UndoState::RequestingUndo);
    assert_eq!(co.dispatch_undo(&mut st), Some("b"));
    assert!(co.posted());
    co.tick_end();
    assert_eq!(co.state(), UndoState::Idle);
    assert_eq!(co.cursor(), 1);
}

#[test]
fn undo_tick_keeps_cursor_when_nothing_posted() {
    let mut co = Coordinator::new();
    co.increment_cursor();
    let mut st: UndoStack<u8> = UndoStack::new();
    st.push(UndoEvent::new(1, 7)); // stamped 7, cursor is 1: no match
    co.tick_start(true, false, false);
    assert_eq!(co.state(), UndoState::RequestingUndo);
    assert_eq!(co.dispatch_undo(&mut st), None);
    assert!(!co.posted());
    co.tick_end();
    assert_eq!(co.state(), UndoState::Idle);
    assert_eq!(co.cursor(), 1);
}

#[test]
fn fold_accumulates_and_resets() {
    let mut co = Coordinator::new();
    co.increment_cursor();
    // several contributors across the same cycle
    co.add_reservation();
    co.add_reservation();
    co.add_reservation();
    co.tick_start(false, false, true);
    assert_eq!(co.state(), UndoState::CommittingReservations);
    co.tick_end();
    assert_eq!(co.cursor(), 4);
    assert_eq!(co.reserve(), 0);
    assert_eq!(co.state(), UndoState::Idle);
}

#[test]
fn reservation_priority_defers_undo() {
    let mut co = Coordinator::new();
    co.add_reservation();
    // undo request and reservation commit pending in the same tick
    co.tick_start(true, true, false);
    assert_eq!(co.state(), UndoState::CommittingReservations);
    assert!(co.pending_undo());
    co.tick_end();
    assert_eq!(co.cursor(), 1);
    // the deferred request is serviced on the very next tick
    co.tick_start(false, false, false);
    assert_eq!(co.state(), UndoState::RequestingUndo);
    assert!(!co.pending_undo());
    co.tick_end();
    assert_eq!(co.state(), UndoState::Idle);
}

#[test]
fn deferred_undo_survives_second_commit() {
    let mut co = Coordinator::new();
    co.add_reservation();
    co.tick_start(true, false, true);
    assert!(co.pending_undo());
    co.tick_end();
    // another commit wins again: still exactly one deferred request
    co.add_reservation();
    co.tick_start(false, true, false);
    assert_eq!(co.state(), UndoState::CommittingReservations);
    assert!(co.pending_undo());
    co.tick_end();
    // finally delivered, and consumed
    co.tick_start(false, false, false);
    assert_eq!(co.state(), UndoState::RequestingUndo);
    assert!(!co.pending_undo());
    co.tick_end();
    co.tick_start(false, false, false);
    assert_eq!(co.state(), UndoState::Idle);
}

#[test]
fn every_tick_returns_to_idle() {
    let mut co = Coordinator::new();
    let inputs = [
        (true, false, false),
        (false, true, false),
        (false, false, true),
        (true, true, true),
        (false, false, false),
    ];
    for (u, a, b) in inputs {
        co.tick_start(u, a, b);
        co.tick_end();
        assert_eq!(co.state(), UndoState::Idle);
    }
}

#[test]
fn scenario_three_ticks() {
    // cursor starts at 2 with two stack entries stamped 1 and 2
    let mut co = Coordinator::new();
    co.increment_cursor();
    co.increment_cursor();
    let mut st: UndoStack<&str> = UndoStack::new();
    st.push(UndoEvent::new("one", 1));
    st.push(UndoEvent::new("two", 2));

    // tick A: undo request fires; entry stamped 2 is popped and replayed
    co.tick_start(true, false, false);
    assert_eq!(co.state(), UndoState::RequestingUndo);
    assert_eq!(co.dispatch_undo(&mut st), Some("two"));
    co.tick_end();
    assert_eq!(co.cursor(), 1);

    // tick B: reservation commit (magnitude 3) and undo request fire together
    co.add_reservation();
    co.add_reservation();
    co.add_reservation();
    co.tick_start(true, true, false);
    assert_eq!(co.state(), UndoState::CommittingReservations);
    assert!(co.pending_undo());
    co.tick_end();
    assert_eq!(co.cursor(), 4);
    assert_eq!(co.reserve(), 0);

    // tick C: the deferred request converts back; no entry stamped 4 exists
    co.tick_start(false, false, false);
    assert_eq!(co.state(), UndoState::RequestingUndo);
    assert_eq!(co.dispatch_undo(&mut st), None);
    assert!(!co.posted());
    co.tick_end();
    assert_eq!(co.cursor(), 4);
    assert_eq!(co.state(), UndoState::Idle);
}

#[test]
fn external_collaborator_reports_posted() {
    // the dispatch collaborator pops the stack itself and reports the dispatch
    let mut co = Coordinator::new();
    co.increment_cursor();
    let mut st: UndoStack<u8> = UndoStack::new();
    st.push(UndoEvent::new(42, 1));
    co.tick_start(true, false, false);
    let c = counter_at(co.cursor());
    assert_eq!(st.pop_if_has_latest(&c), Some(42));
    co.mark_posted();
    assert!(co.posted());
    co.tick_end();
    assert_eq!(co.cursor(), 0);
}

#[test]
fn fresh_values_are_idle_and_zero() {
    let co = Coordinator::new();
    assert_eq!(co.state(), UndoState::Idle);
    assert_eq!(co.cursor(), 0);
    assert_eq!(co.reserve(), 0);
    assert!(!co.posted());
    assert!(!co.pending_undo());
    assert_eq!(UndoState::default(), UndoState::Idle);
    let st: UndoStack<u8> = UndoStack::default();
    assert_eq!(st.len(), 0);
    let e = UndoEvent::new('x', 9);
    assert_eq!(e.inner, 'x');
    assert_eq!(e.no, 9);
}

#[test]
fn plugin_marker_is_trivial() {
    let p = undo_coord::UndoPlugin;
    assert_eq!(p, undo_coord::UndoPlugin::default());
}
