//! The global loading indicator's state machine.
//!
//! Two cosmetic timing rules keep the spinner from flickering: when a loader
//! starts with the delay flag, the full spinner waits before appearing, so
//! short tasks never show it; and once fully visible it stays up a minimum
//! time before it may disappear. The timers themselves run in the browser;
//! this module decides when one is scheduled, with which delay, and what its
//! firing changes.

use vstd::prelude::*;

verus! {

/// With `delay_full_appearance`, the full spinner appears only after this
/// many milliseconds; until then only a transparent overlay locks the screen.
pub const ONLY_SHOW_AFTER_MILLIS: u64 = 400;

/// Once fully visible, the spinner stays at least this many milliseconds.
pub const SHOW_FOR_AT_LEAST_MILLIS: u64 = 500;

/// What the pages tell the indicator: whether it is on, whether its full
/// appearance may be delayed, and the line shown under the spinner.
#[derive(Debug, PartialEq)]
pub struct LoadingProps {
    pub active: bool,
    pub delay_full_appearance: bool,
    pub text: Option<String>,
}

impl Clone for LoadingProps {
    fn clone(&self) -> (r: Self)
        ensures
            r == *self,
    {
        LoadingProps {
            active: self.active,
            delay_full_appearance: self.delay_full_appearance,
            text: match &self.text {
                Some(t) => Some(t.clone()),
                None => None,
            },
        }
    }
}

impl Default for LoadingProps {
    /// Off, undelayed, no text.
    fn default() -> (r: LoadingProps)
        ensures
            !r.active,
            !r.delay_full_appearance,
            r.text is None,
    {
        LoadingProps { active: false, delay_full_appearance: false, text: None }
    }
}

/// What a scheduled timer will do when it fires.
#[derive(Debug, Clone, Copy, PartialEq, Eq, Structural)]
pub enum SpinnerMsg {
    EnableFullyVisible,
    DisableFullyVisible,
}

/// A timer the browser must run: the delay and the message it delivers.
/// Scheduling a new one replaces (cancels) the previous one.
#[derive(Debug, Clone, Copy, PartialEq, Eq, Structural)]
pub struct SpinnerTimer {
    pub delay_ms: u64,
    pub msg: SpinnerMsg,
}

/// The indicator's own state: whether the full spinner shows, since when (on
/// the browser's millisecond clock), and the timer currently scheduled.
#[derive(Debug, Clone, Copy, PartialEq, Eq, Structural)]
pub struct SpinnerState {
    pub fully_visible: bool,
    pub became_fully_visible: Option<u64>,
    pub pending: Option<SpinnerTimer>,
}

/// What the indicator renders.
#[derive(Debug, Clone, Copy, PartialEq, Eq, Structural)]
pub enum SpinnerView {
    /// Nothing: the screen is free.
    Hidden,
    /// A transparent overlay: the screen is locked but no spinner shows yet.
    Overlay,
    /// The full spinner, with the configured text under it.
    Spinner,
}

impl SpinnerState {
    /// The state when the component appears with the given props.
    pub fn init(props_active: bool) -> (r: SpinnerState)
        ensures
            r.fully_visible == props_active,
            r.became_fully_visible is None,
            r.pending is None,
    {
        SpinnerState { fully_visible: props_active, became_fully_visible: None, pending: None }
    }

    /// A scheduled timer fired: it is no longer pending, and the spinner
    /// appears or disappears as the timer said.
    pub fn on_timer(&mut self, msg: SpinnerMsg, now: u64)
        ensures
            final(self).fully_visible == (msg == SpinnerMsg::EnableFullyVisible),
            final(self).became_fully_visible == (if msg == SpinnerMsg::EnableFullyVisible {
                Some(now)
            } else {
                Option::<u64>::None
            }),
            final(self).pending is None,
    {
        self.pending = None;
        match msg {
            SpinnerMsg::EnableFullyVisible => {
                self.fully_visible = true;
                self.became_fully_visible = Some(now);
            },
            SpinnerMsg::DisableFullyVisible => {
                self.fully_visible = false;
                self.became_fully_visible = None;
            },
        }
    }

    /// The props changed. On activation, either the full spinner appears at
    /// once or its appearance is scheduled; on deactivation it disappears at
    /// once only if it has been up long enough, else its disappearance is
    /// scheduled for the remainder of the minimum display time.
    pub fn on_props_change(
        &mut self,
        old_active: bool,
        new_active: bool,
        delay_full_appearance: bool,
        now: u64,
    )
        ensures
            (!old_active && new_active) ==> {
                if delay_full_appearance {
                    &&& final(self).pending == (Some(
                        SpinnerTimer {
                            delay_ms: ONLY_SHOW_AFTER_MILLIS,
                            msg: SpinnerMsg::EnableFullyVisible,
                        },
                    ))
                    &&& final(self).fully_visible == old(self).fully_visible
                    &&& final(self).became_fully_visible == old(self).became_fully_visible
                } else {
                    &&& final(self).pending is None
                    &&& final(self).fully_visible
                    &&& final(self).became_fully_visible == Some(now)
                }
            },
            (old_active && !new_active) ==> match old(self).became_fully_visible {
                None => {
                    &&& final(self).pending is None
                    &&& final(self).fully_visible == old(self).fully_visible
                    &&& final(self).became_fully_visible is None
                },
                Some(since) => {
                    let elapsed: u64 = if now >= since {
                        (now - since) as u64
                    } else {
                        0
                    };
                    if elapsed < SHOW_FOR_AT_LEAST_MILLIS {
                        &&& final(self).pending == (Some(
                            SpinnerTimer {
                                delay_ms: (SHOW_FOR_AT_LEAST_MILLIS - elapsed) as u64,
                                msg: SpinnerMsg::DisableFullyVisible,
                            },
                        ))
                        &&& final(self).fully_visible == old(self).fully_visible
                        &&& final(self).became_fully_visible == old(self).became_fully_visible
                    } else {
                        &&& final(self).pending is None
                        &&& !final(self).fully_visible
                        &&& final(self).became_fully_visible is None
                    }
                },
            },
            (old_active == new_active) ==> *final(self) == *old(self),
    {
        if !old_active && new_active {
            self.pending = None;
            if delay_full_appearance {
                self.pending = Some(
                    SpinnerTimer {
                        delay_ms: ONLY_SHOW_AFTER_MILLIS,
                        msg: SpinnerMsg::EnableFullyVisible,
                    },
                );
            } else {
                self.fully_visible = true;
                self.became_fully_visible = Some(now);
            }
        }
        if old_active && !new_active {
            self.pending = None;
            match self.became_fully_visible {
                None => {},
                Some(since) => {
                    let elapsed: u64 = if now >= since {
                        now - since
                    } else {
                        0
                    };
                    if elapsed < SHOW_FOR_AT_LEAST_MILLIS {
                        self.pending = Some(
                            SpinnerTimer {
                                delay_ms: SHOW_FOR_AT_LEAST_MILLIS - elapsed,
                                msg: SpinnerMsg::DisableFullyVisible,
                            },
                        );
                    } else {
                        self.fully_visible = false;
                        self.became_fully_visible = None;
                    }
                },
            }
        }
    }

    /// What the indicator shows right now.
    pub fn view(&self, props_active: bool) -> (r: SpinnerView)
        ensures
            r == (if self.fully_visible {
                SpinnerView::Spinner
            } else if props_active {
                SpinnerView::Overlay
            } else {
                SpinnerView::Hidden
            }),
    {
        if self.fully_visible {
            SpinnerView::Spinner
        } else if props_active {
            SpinnerView::Overlay
        } else {
            SpinnerView::Hidden
        }
    }
}

/// The minimum display time holds on the deactivation path: when the spinner
/// became fully visible at `since` and is deactivated at `now` before the
/// minimum has passed, the scheduled disable timer (delay
/// `SHOW_FOR_AT_LEAST_MILLIS - (now - since)`, per `on_props_change`) fires
/// exactly when the minimum display time is reached.
pub proof fn lemma_minimum_display_time(since: u64, now: u64)
    requires
        since <= now,
        now - since < SHOW_FOR_AT_LEAST_MILLIS,
    ensures
        now + (SHOW_FOR_AT_LEAST_MILLIS - (now - since)) == since + SHOW_FOR_AT_LEAST_MILLIS,
{
}

} // verus!
