//! The transition state machine.
//!
//! The controller reacts to two events: a new value of the visibility signal
//! ([`Transition::changed`]) and the completion of a timer that it asked for
//! ([`Transition::update`]). Each reaction returns the [`Effects`] that the host
//! performs: a notification to emit and a timer to start. Every timer carries an
//! identifier; a completion whose identifier is not the most recent one is stale
//! and changes nothing, so a new edge of the signal pre-empts a timer that is
//! still running.

use crate::timeout::{Timeout, TimeoutModel};
use vstd::prelude::*;

verus! {

/// The four phases that the wrapped content is told about.
#[derive(Debug, Clone, Copy, PartialEq, Eq, Structural, PartialOrd, Ord, Hash)]
pub enum TransitionState {
    /// The enter animation is running.
    Entering,
    /// The enter animation is done.
    Entered,
    /// The exit animation is running.
    Exiting,
    /// The exit animation is done.
    Exited,
}

/// Every phase of the controller, the two internal ones included.
#[derive(Debug, Clone, Copy, PartialEq, Eq, Structural)]
pub enum TransitionStateComplete {
    /// The content is not in the render tree yet.
    BeforeEnter,
    /// The content is in the render tree; the appear delay is running.
    Mounted,
    /// One of the four phases that the content is told about.
    TransitionState(TransitionState),
}

/// The completion of the timer with identifier `timer`.
#[derive(Debug, Clone, Copy, PartialEq, Eq, Structural)]
pub struct Tick {
    pub timer: u64,
}

/// A one-shot timer for the host to start: after `duration` milliseconds it
/// hands back `Tick { timer: id }`.
#[derive(Debug, Clone, Copy, PartialEq, Eq, Structural)]
pub struct Timer {
    pub id: u64,
    pub duration: u32,
}

/// What the host does after one step of the controller.
#[derive(Debug, Clone, Copy, PartialEq, Eq, Structural)]
pub struct Effects {
    /// The phase to notify, if the step entered a notified phase.
    pub notification: Option<TransitionState>,
    /// The timer to start, if the step asked for one.
    pub timer: Option<Timer>,
}

/// The abstract state of a [`Transition`].
pub struct TransitionModel {
    pub phase: TransitionStateComplete,
    /// The last visibility signal seen, if any.
    pub saved_enter: Option<bool>,
    /// The identifier of the most recently requested timer.
    pub timer: u64,
}

/// The identifier that follows `id`; it wraps around after `u64::MAX`.
pub open spec fn next_timer_id(id: u64) -> u64 {
    if id == u64::MAX {
        0
    } else {
        (id + 1) as u64
    }
}

/// A step with nothing to do.
pub open spec fn no_effects() -> Effects {
    Effects { notification: None, timer: None }
}

/// Whether the content is told that it is visible or becoming visible.
pub open spec fn is_entering_side(phase: TransitionStateComplete) -> bool {
    ||| phase == TransitionStateComplete::Mounted
    ||| phase == TransitionStateComplete::TransitionState(TransitionState::Entering)
    ||| phase == TransitionStateComplete::TransitionState(TransitionState::Entered)
}

impl TransitionModel {
    /// The state before any signal has been seen.
    pub open spec fn initial() -> TransitionModel {
        TransitionModel { phase: TransitionStateComplete::BeforeEnter, saved_enter: None, timer: 0 }
    }

    /// The phase agrees with the last signal seen: it is on the entering side
    /// exactly when that signal was `true`, and nothing has been mounted before
    /// the first signal.
    pub open spec fn wf(self) -> bool {
        &&& (self.saved_enter == Some(true)) == is_entering_side(self.phase)
        &&& self.saved_enter is None ==> self.phase == TransitionStateComplete::BeforeEnter
    }

    /// The step taken on the visibility signal `visible`.
    pub open spec fn on_changed(self, visible: bool, timeout: TimeoutModel) -> (TransitionModel, Effects) {
        let id = next_timer_id(self.timer);
        if visible {
            if self.saved_enter == Some(true) {
                (self, no_effects())
            } else if timeout.appear() == 0 {
                (
                    TransitionModel {
                        phase: TransitionStateComplete::TransitionState(TransitionState::Entering),
                        saved_enter: Some(true),
                        timer: id,
                    },
                    Effects {
                        notification: Some(TransitionState::Entering),
                        timer: Some(Timer { id, duration: timeout.enter() }),
                    },
                )
            } else {
                (
                    TransitionModel { phase: TransitionStateComplete::Mounted, saved_enter: Some(true), timer: id },
                    Effects { notification: None, timer: Some(Timer { id, duration: timeout.appear() }) },
                )
            }
        } else {
            if self.saved_enter != Some(true) {
                (self, no_effects())
            } else if timeout.exit() != 0 {
                (
                    TransitionModel {
                        phase: TransitionStateComplete::TransitionState(TransitionState::Exiting),
                        saved_enter: Some(false),
                        timer: id,
                    },
                    Effects {
                        notification: Some(TransitionState::Exiting),
                        timer: Some(Timer { id, duration: timeout.exit() }),
                    },
                )
            } else {
                (
                    TransitionModel {
                        phase: TransitionStateComplete::TransitionState(TransitionState::Exited),
                        saved_enter: Some(false),
                        timer: id,
                    },
                    Effects { notification: Some(TransitionState::Exited), timer: None },
                )
            }
        }
    }

    /// The step taken on the completion `tick`.
    pub open spec fn on_tick(self, tick: Tick, timeout: TimeoutModel) -> (TransitionModel, Effects) {
        if tick.timer != self.timer {
            (self, no_effects())
        } else {
            match self.phase {
                TransitionStateComplete::Mounted => {
                    let id = next_timer_id(self.timer);
                    (
                        TransitionModel {
                            phase: TransitionStateComplete::TransitionState(TransitionState::Entering),
                            timer: id,
                            ..self
                        },
                        Effects {
                            notification: Some(TransitionState::Entering),
                            timer: Some(Timer { id, duration: timeout.enter() }),
                        },
                    )
                },
                TransitionStateComplete::TransitionState(TransitionState::Entering) => (
                    TransitionModel {
                        phase: TransitionStateComplete::TransitionState(TransitionState::Entered),
                        ..self
                    },
                    Effects { notification: Some(TransitionState::Entered), timer: None },
                ),
                TransitionStateComplete::TransitionState(TransitionState::Exiting) => (
                    TransitionModel {
                        phase: TransitionStateComplete::TransitionState(TransitionState::Exited),
                        ..self
                    },
                    Effects { notification: Some(TransitionState::Exited), timer: None },
                ),
                _ => (self, no_effects()),
            }
        }
    }
}

fn next_id(id: u64) -> (r: u64)
    ensures
        r == next_timer_id(id),
{
    if id == u64::MAX {
        0
    } else {
        id + 1
    }
}

/// Drives one piece of content through its transition phases.
#[derive(Debug)]
pub struct Transition {
    state: TransitionStateComplete,
    saved_enter: Option<bool>,
    timer: u64,
}

impl View for Transition {
    type V = TransitionModel;

    closed spec fn view(&self) -> TransitionModel {
        TransitionModel { phase: self.state, saved_enter: self.saved_enter, timer: self.timer }
    }
}

impl Transition {
    /// Whether the controller's phase agrees with the last signal it saw.
    pub open spec fn wf(&self) -> bool {
        self@.wf()
    }

    /// A controller that has seen no signal: its content is not mounted.
    pub fn create() -> (r: Transition)
        ensures
            r@ == TransitionModel::initial(),
            r.wf(),
    {
        Transition { state: TransitionStateComplete::BeforeEnter, saved_enter: None, timer: 0 }
    }

    /// Reacts to the visibility signal `visible`: a `false` to `true` edge
    /// starts the appear or enter sequence, a `true` to `false` edge starts the
    /// exit sequence, and anything else changes nothing.
    pub fn changed(&mut self, visible: bool, timeout: &Timeout) -> (effects: Effects)
        requires
            old(self).wf(),
        ensures
            (final(self)@, effects) == old(self)@.on_changed(visible, timeout@),
            final(self).wf(),
    {
        let saw_enter = match self.saved_enter {
            Some(e) => e,
            None => false,
        };
        if visible {
            if saw_enter {
                return Effects { notification: None, timer: None };
            }
            let id = next_id(self.timer);
            self.saved_enter = Some(true);
            self.timer = id;
            let appear = timeout.appear();
            if appear == 0 {
                self.state = TransitionStateComplete::TransitionState(TransitionState::Entering);
                Effects {
                    notification: Some(TransitionState::Entering),
                    timer: Some(Timer { id, duration: timeout.enter() }),
                }
            } else {
                self.state = TransitionStateComplete::Mounted;
                Effects { notification: None, timer: Some(Timer { id, duration: appear }) }
            }
        } else {
            if !saw_enter {
                return Effects { notification: None, timer: None };
            }
            let id = next_id(self.timer);
            self.saved_enter = Some(false);
            self.timer = id;
            let exit = timeout.exit();
            if exit != 0 {
                self.state = TransitionStateComplete::TransitionState(TransitionState::Exiting);
                Effects {
                    notification: Some(TransitionState::Exiting),
                    timer: Some(Timer { id, duration: exit }),
                }
            } else {
                self.state = TransitionStateComplete::TransitionState(TransitionState::Exited);
                Effects { notification: Some(TransitionState::Exited), timer: None }
            }
        }
    }

    /// Reacts to the completion of a timer: the most recent timer advances the
    /// phase by one step along `Mounted`, `Entering`, `Entered` and along
    /// `Exiting`, `Exited`. A stale timer, or one that completes in any other
    /// phase, changes nothing.
    pub fn update(&mut self, tick: Tick, timeout: &Timeout) -> (effects: Effects)
        requires
            old(self).wf(),
        ensures
            (final(self)@, effects) == old(self)@.on_tick(tick, timeout@),
            final(self).wf(),
    {
        if tick.timer != self.timer {
            return Effects { notification: None, timer: None };
        }
        match self.state {
            TransitionStateComplete::Mounted => {
                let id = next_id(self.timer);
                self.timer = id;
                self.state = TransitionStateComplete::TransitionState(TransitionState::Entering);
                Effects {
                    notification: Some(TransitionState::Entering),
                    timer: Some(Timer { id, duration: timeout.enter() }),
                }
            },
            TransitionStateComplete::TransitionState(TransitionState::Entering) => {
                self.state = TransitionStateComplete::TransitionState(TransitionState::Entered);
                Effects { notification: Some(TransitionState::Entered), timer: None }
            },
            TransitionStateComplete::TransitionState(TransitionState::Exiting) => {
                self.state = TransitionStateComplete::TransitionState(TransitionState::Exited);
                Effects { notification: Some(TransitionState::Exited), timer: None }
            },
            _ => Effects { notification: None, timer: None },
        }
    }

    /// The current phase.
    pub fn phase(&self) -> (r: TransitionStateComplete)
        ensures
            r == self@.phase,
    {
        self.state
    }

    /// Whether the wrapped content is rendered: in every phase but `BeforeEnter`.
    pub fn is_rendered(&self) -> (r: bool)
        ensures
            r == (self@.phase != TransitionStateComplete::BeforeEnter),
    {
        match self.state {
            TransitionStateComplete::BeforeEnter => false,
            _ => true,
        }
    }
}

/// From a hidden state, a `false` to `true` edge with a nonzero appear
/// duration mounts the content and starts one timer for that duration; its
/// completion notifies `Entering` and starts one timer for the enter duration;
/// that timer's completion notifies `Entered` and starts nothing.
pub proof fn lemma_enter_sequence(m: TransitionModel, timeout: TimeoutModel)
    requires
        m.wf(),
        m.saved_enter != Some(true),
        timeout.appear() != 0,
    ensures
        ({
            let (m1, e1) = m.on_changed(true, timeout);
            let (m2, e2) = m1.on_tick(Tick { timer: m1.timer }, timeout);
            let (m3, e3) = m2.on_tick(Tick { timer: m2.timer }, timeout);
            &&& e1 == (Effects { notification: None, timer: Some(Timer { id: m1.timer, duration: timeout.appear() }) })
            &&& m1.phase == TransitionStateComplete::Mounted
            &&& e2 == (Effects {
                notification: Some(TransitionState::Entering),
                timer: Some(Timer { id: m2.timer, duration: timeout.enter() }),
            })
            &&& e3 == (Effects { notification: Some(TransitionState::Entered), timer: None })
            &&& m3.phase == TransitionStateComplete::TransitionState(TransitionState::Entered)
            &&& m3.wf()
        }),
{
}

/// Before anything is mounted, a `false` signal changes nothing: no phase
/// change, no notification, no timer.
pub proof fn lemma_hidden_before_mount_is_quiet(m: TransitionModel, timeout: TimeoutModel)
    requires
        m.wf(),
        m.phase == TransitionStateComplete::BeforeEnter,
    ensures
        m.on_changed(false, timeout) == (m, no_effects()),
{
}

/// Once entered, a `true` to `false` edge with a nonzero exit duration
/// notifies `Exiting` and starts one timer for the exit duration; that timer's
/// completion notifies `Exited` and starts nothing; after that, no timer
/// completion and no further `false` signal changes anything.
pub proof fn lemma_exit_sequence(m: TransitionModel, timeout: TimeoutModel)
    requires
        m.wf(),
        m.phase == TransitionStateComplete::TransitionState(TransitionState::Entered),
        timeout.exit() != 0,
    ensures
        ({
            let (m1, e1) = m.on_changed(false, timeout);
            &&& e1.notification == Some(TransitionState::Exiting)
            &&& e1.timer == Some(Timer { id: m1.timer, duration: timeout.exit() })
            &&& m1.phase == TransitionStateComplete::TransitionState(TransitionState::Exiting)
            &&& ({
                let (m2, e2) = m1.on_tick(Tick { timer: m1.timer }, timeout);
                &&& e2 == (Effects { notification: Some(TransitionState::Exited), timer: None })
                &&& m2.phase == TransitionStateComplete::TransitionState(TransitionState::Exited)
                &&& m2.wf()
                &&& forall|k: Tick, u: TimeoutModel| #[trigger] m2.on_tick(k, u) == (m2, no_effects())
                &&& forall|u: TimeoutModel| #[trigger] m2.on_changed(false, u) == (m2, no_effects())
            })
        }),
{
}

/// A `true` signal while entering or entered changes nothing: no notification
/// and no timer.
pub proof fn lemma_repeated_show_is_idempotent(m: TransitionModel, timeout: TimeoutModel)
    requires
        m.wf(),
        m.phase == TransitionStateComplete::TransitionState(TransitionState::Entering)
            || m.phase == TransitionStateComplete::TransitionState(TransitionState::Entered),
    ensures
        m.on_changed(true, timeout) == (m, no_effects()),
{
}

/// With a zero exit duration, a `true` to `false` edge reaches `Exited` at
/// once, notifies it, and starts no timer.
pub proof fn lemma_zero_exit_is_immediate(m: TransitionModel, timeout: TimeoutModel)
    requires
        m.wf(),
        m.saved_enter == Some(true),
        timeout.exit() == 0,
    ensures
        ({
            let (m1, e1) = m.on_changed(false, timeout);
            &&& e1 == (Effects { notification: Some(TransitionState::Exited), timer: None })
            &&& m1.phase == TransitionStateComplete::TransitionState(TransitionState::Exited)
        }),
{
}

/// The completion of any timer but the most recent one changes nothing.
pub proof fn lemma_stale_tick_is_ignored(m: TransitionModel, tick: Tick, timeout: TimeoutModel)
    requires
        tick.timer != m.timer,
    ensures
        m.on_tick(tick, timeout) == (m, no_effects()),
{
}

} // verus!
