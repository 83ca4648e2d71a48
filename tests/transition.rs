use yew_transition_group::{
    Effects, Tick, Timeout, Timer, Transition, TransitionState, TransitionStateComplete,
};

fn none() -> Effects {
    Effects { notification: None, timer: None }
}

fn entered(t: &Timeout) -> Transition {
    let mut c = Transition::create();
    let mut pending = c.changed(true, t).timer;
    while let Some(timer) = pending {
        pending = c.update(Tick { timer: timer.id }, t).timer;
    }
    assert_eq!(c.phase(), TransitionStateComplete::TransitionState(TransitionState::Entered));
    c
}

#[test]
fn starts_unmounted() {
    let c = Transition::create();
    assert_eq!(c.phase(), TransitionStateComplete::BeforeEnter);
    assert!(!c.is_rendered());
}

#[test]
fn hidden_before_mount_is_quiet() {
    let t = Timeout::new(300);
    let mut c = Transition::create();
    assert_eq!(c.changed(false, &t), none());
    assert_eq!(c.phase(), TransitionStateComplete::BeforeEnter);
    assert!(!c.is_rendered());
}

#[test]
fn show_with_appear_delay_mounts_first() {
    let t = Timeout::default().with_appear(50).with_enter(100);
    let mut c = Transition::create();
    let e = c.changed(true, &t);
    assert_eq!(e, Effects { notification: None, timer: Some(Timer { id: 1, duration: 50 }) });
    assert_eq!(c.phase(), TransitionStateComplete::Mounted);
    assert!(c.is_rendered());
    let e = c.update(Tick { timer: 1 }, &t);
    assert_eq!(
        e,
        Effects {
            notification: Some(TransitionState::Entering),
            timer: Some(Timer { id: 2, duration: 100 })
        }
    );
    let e = c.update(Tick { timer: 2 }, &t);
    assert_eq!(e, Effects { notification: Some(TransitionState::Entered), timer: None });
}

#[test]
fn show_without_appear_delay_enters_at_once() {
    let t = Timeout::default().with_exit(80);
    let mut c = Transition::create();
    let e = c.changed(true, &t);
    assert_eq!(
        e,
        Effects {
            notification: Some(TransitionState::Entering),
            timer: Some(Timer { id: 1, duration: 0 })
        }
    );
    assert_eq!(c.phase(), TransitionStateComplete::TransitionState(TransitionState::Entering));
}

#[test]
fn exit_sequence_after_entered() {
    let t = Timeout::default().with_enter(100).with_exit(250);
    let mut c = entered(&t);
    let e = c.changed(false, &t);
    assert_eq!(e.notification, Some(TransitionState::Exiting));
    let timer = e.timer.unwrap();
    assert_eq!(timer.duration, 250);
    assert_eq!(c.phase(), TransitionStateComplete::TransitionState(TransitionState::Exiting));
    let e = c.update(Tick { timer: timer.id }, &t);
    assert_eq!(e, Effects { notification: Some(TransitionState::Exited), timer: None });
    assert_eq!(c.phase(), TransitionStateComplete::TransitionState(TransitionState::Exited));
    assert_eq!(c.update(Tick { timer: timer.id }, &t), none());
    assert_eq!(c.changed(false, &t), none());
    assert_eq!(c.phase(), TransitionStateComplete::TransitionState(TransitionState::Exited));
    assert!(c.is_rendered());
}

#[test]
fn repeated_show_is_idempotent() {
    let t = Timeout::default().with_appear(0).with_enter(300);
    let mut c = Transition::create();
    c.changed(true, &t);
    assert_eq!(c.changed(true, &t), none());
    assert_eq!(c.phase(), TransitionStateComplete::TransitionState(TransitionState::Entering));
    let mut c = entered(&t);
    assert_eq!(c.changed(true, &t), none());
    assert_eq!(c.phase(), TransitionStateComplete::TransitionState(TransitionState::Entered));
}

#[test]
fn zero_exit_is_immediate() {
    let t = Timeout::default().with_enter(100);
    let mut c = entered(&t);
    let e = c.changed(false, &t);
    assert_eq!(e, Effects { notification: Some(TransitionState::Exited), timer: None });
    assert_eq!(c.phase(), TransitionStateComplete::TransitionState(TransitionState::Exited));
}

#[test]
fn entered_ignores_ticks() {
    let t = Timeout::new(10);
    let mut c = entered(&t);
    for id in 0..4u64 {
        assert_eq!(c.update(Tick { timer: id }, &t), none());
    }
    assert_eq!(c.phase(), TransitionStateComplete::TransitionState(TransitionState::Entered));
}

#[test]
fn new_edge_preempts_running_timer() {
    let t = Timeout::new(300);
    let mut c = Transition::create();
    let enter_timer = c.changed(true, &t).timer.unwrap();
    let exit_timer = c.changed(false, &t).timer.unwrap();
    assert_ne!(enter_timer.id, exit_timer.id);
    assert_eq!(c.update(Tick { timer: enter_timer.id }, &t), none());
    assert_eq!(c.phase(), TransitionStateComplete::TransitionState(TransitionState::Exiting));
    let e = c.update(Tick { timer: exit_timer.id }, &t);
    assert_eq!(e.notification, Some(TransitionState::Exited));
}

#[test]
fn show_again_while_exiting_restarts_enter() {
    let t = Timeout::default().with_appear(20).with_enter(40).with_exit(60);
    let mut c = entered(&t);
    let exit_timer = c.changed(false, &t).timer.unwrap();
    let e = c.changed(true, &t);
    assert_eq!(e.notification, None);
    assert_eq!(e.timer.unwrap().duration, 20);
    assert_eq!(c.phase(), TransitionStateComplete::Mounted);
    assert_eq!(c.update(Tick { timer: exit_timer.id }, &t), none());
    assert_eq!(c.phase(), TransitionStateComplete::Mounted);
}

#[test]
fn end_to_end_uniform_timeout() {
    let t = Timeout::new(300);
    let mut c = Transition::create();
    assert_eq!(c.changed(false, &t), none());
    let mut notes = Vec::new();
    let mut pending = Vec::new();

    let e = c.changed(true, &t);
    notes.extend(e.notification);
    pending.extend(e.timer);
    while let Some(timer) = pending.pop() {
        assert_eq!(timer.duration, 300);
        let e = c.update(Tick { timer: timer.id }, &t);
        notes.extend(e.notification);
        pending.extend(e.timer);
    }
    assert_eq!(notes, vec![TransitionState::Entering, TransitionState::Entered]);

    notes.clear();
    let e = c.changed(false, &t);
    notes.extend(e.notification);
    pending.extend(e.timer);
    while let Some(timer) = pending.pop() {
        assert_eq!(timer.duration, 300);
        let e = c.update(Tick { timer: timer.id }, &t);
        notes.extend(e.notification);
        pending.extend(e.timer);
    }
    assert_eq!(notes, vec![TransitionState::Exiting, TransitionState::Exited]);
}
