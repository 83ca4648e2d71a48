//! Durations of the appear, enter and exit edges of a transition.

use vstd::prelude::*;

verus! {

/// The abstract content of a [`Timeout`]: the durations that were given, in
/// milliseconds, before any fallback is applied.
pub struct TimeoutModel {
    pub uniform: Option<u32>,
    pub appear: Option<u32>,
    pub enter: Option<u32>,
    pub exit: Option<u32>,
}

impl TimeoutModel {
    /// The duration of the exit edge: the uniform value, else the exit value, else zero.
    pub open spec fn exit(self) -> u32 {
        match self.uniform {
            Some(t) => t,
            None => match self.exit {
                Some(t) => t,
                None => 0,
            },
        }
    }

    /// The duration of the enter edge: the uniform value, else the enter value, else zero.
    pub open spec fn enter(self) -> u32 {
        match self.uniform {
            Some(t) => t,
            None => match self.enter {
                Some(t) => t,
                None => 0,
            },
        }
    }

    /// The duration of the appear edge: the uniform value, else the appear
    /// value, else the enter value, else zero.
    pub open spec fn appear(self) -> u32 {
        match self.uniform {
            Some(t) => t,
            None => match self.appear {
                Some(t) => t,
                None => match self.enter {
                    Some(t) => t,
                    None => 0,
                },
            },
        }
    }
}

/// One duration for all three edges of a transition, or a duration for each.
///
/// A uniform duration, when present, takes precedence over the others.
#[derive(Debug, PartialEq, Eq, Structural)]
pub struct Timeout {
    timeout: Option<u32>,
    appear: Option<u32>,
    enter: Option<u32>,
    exit: Option<u32>,
}

impl View for Timeout {
    type V = TimeoutModel;

    closed spec fn view(&self) -> TimeoutModel {
        TimeoutModel {
            uniform: self.timeout,
            appear: self.appear,
            enter: self.enter,
            exit: self.exit,
        }
    }
}

impl Default for Timeout {
    /// No duration given: every edge resolves to zero.
    fn default() -> (r: Timeout)
        ensures
            r@ == (TimeoutModel { uniform: None, appear: None, enter: None, exit: None }),
    {
        Timeout { timeout: None, appear: None, enter: None, exit: None }
    }
}

impl Timeout {
    /// One duration, `t`, for all three edges.
    pub fn new(t: u32) -> (r: Timeout)
        ensures
            r@ == (TimeoutModel { uniform: Some(t), appear: None, enter: None, exit: None }),
    {
        Timeout { timeout: Some(t), ..Default::default() }
    }

    /// Sets the duration of the appear edge.
    pub fn with_appear(self, t: u32) -> (r: Timeout)
        ensures
            r@ == (TimeoutModel { appear: Some(t), ..self@ }),
    {
        Timeout { appear: Some(t), ..self }
    }

    /// Sets the duration of the enter edge.
    pub fn with_enter(self, t: u32) -> (r: Timeout)
        ensures
            r@ == (TimeoutModel { enter: Some(t), ..self@ }),
    {
        Timeout { enter: Some(t), ..self }
    }

    /// Sets the duration of the exit edge.
    pub fn with_exit(self, t: u32) -> (r: Timeout)
        ensures
            r@ == (TimeoutModel { exit: Some(t), ..self@ }),
    {
        Timeout { exit: Some(t), ..self }
    }

    /// The resolved duration of the exit edge.
    pub fn exit(&self) -> (r: u32)
        ensures
            r == self@.exit(),
    {
        match self.timeout {
            Some(t) => t,
            None => match self.exit {
                Some(t) => t,
                None => 0,
            },
        }
    }

    /// The resolved duration of the enter edge.
    pub fn enter(&self) -> (r: u32)
        ensures
            r == self@.enter(),
    {
        match self.timeout {
            Some(t) => t,
            None => match self.enter {
                Some(t) => t,
                None => 0,
            },
        }
    }

    /// The resolved duration of the appear edge.
    pub fn appear(&self) -> (r: u32)
        ensures
            r == self@.appear(),
    {
        match self.timeout {
            Some(t) => t,
            None => match self.appear {
                Some(t) => t,
                None => match self.enter {
                    Some(t) => t,
                    None => 0,
                },
            },
        }
    }
}

/// A uniform duration, when given, is the duration of every edge, whatever
/// else was given.
pub proof fn lemma_uniform_takes_precedence(t: TimeoutModel, u: u32)
    requires
        t.uniform == Some(u),
    ensures
        t.exit() == u,
        t.enter() == u,
        t.appear() == u,
{
}

/// Without a uniform or an appear duration, the appear edge lasts as long as
/// the enter edge.
pub proof fn lemma_appear_falls_back_to_enter(t: TimeoutModel)
    requires
        t.uniform is None,
        t.appear is None,
    ensures
        t.appear() == t.enter(),
{
}

} // verus!
