//! Reconnection after a lost connection: when to start, the attempts, the
//! waits between them, success, giving up and cancelling. The owner keeps
//! the exponential backoff (how long to wait, how many attempts remain)
//! and hands its answers in.

use vstd::prelude::*;

use crate::entities::{ConnectionState, DisconnectReason};
use crate::text::owned;

verus! {

/// Whether and how to reconnect.
#[derive(Debug, Clone, Copy, PartialEq, Eq, Structural)]
pub struct ReconnectPolicy {
    pub enabled: bool,
    /// The wait before the first attempt, in milliseconds.
    pub initial_delay_ms: u64,
    /// Whether the backoff starts over after a success.
    pub reset_on_success: bool,
}

impl ReconnectPolicy {
    /// A policy that never reconnects.
    pub fn disabled() -> (r: ReconnectPolicy)
        ensures
            !r.enabled,
    {
        ReconnectPolicy { enabled: false, initial_delay_ms: 0, reset_on_success: false }
    }
}

/// The controller's settings.
#[derive(Debug, Clone, Copy, PartialEq, Eq, Structural)]
pub struct ReconnectControllerConfig {
    pub policy: ReconnectPolicy,
    /// Whether a failed first connection is retried too.
    pub reconnect_on_initial_failure: bool,
}

/// Where reconnection stands.
#[derive(Debug, Clone, Copy, PartialEq, Eq, Structural)]
pub enum ReconnectState {
    Idle,
    /// Waiting before the given attempt, this long in milliseconds.
    Waiting { attempt: u32, remaining_ms: u64 },
    /// Trying the given attempt.
    Connecting { attempt: u32 },
    Connected,
    /// Given up after this many attempts.
    Failed { total_attempts: u32 },
}

/// What the controller reports.
#[derive(Debug)]
pub enum ReconnectControllerEvent {
    Started,
    Waiting { delay_ms: u64, attempt: u32 },
    Attempting { attempt: u32 },
    AttemptFailed { attempt: u32, error: String },
    Succeeded { total_attempts: u32 },
    GaveUp { total_attempts: u32 },
    Cancelled,
    StateChanged(ReconnectState),
}

/// The reconnection controller.
pub struct ReconnectController {
    config: ReconnectControllerConfig,
    state: ReconnectState,
    reconnecting: bool,
    cancelled: bool,
    events: Vec<ReconnectControllerEvent>,
}

impl ReconnectController {
    /// The settings.
    pub closed spec fn config_spec(&self) -> ReconnectControllerConfig {
        self.config
    }

    /// Where reconnection stands.
    pub closed spec fn state_spec(&self) -> ReconnectState {
        self.state
    }

    /// Whether a reconnection is under way.
    pub closed spec fn reconnecting_spec(&self) -> bool {
        self.reconnecting
    }

    /// Whether the reconnection was cancelled.
    pub closed spec fn cancelled_spec(&self) -> bool {
        self.cancelled
    }

    /// The events not yet handed out, oldest first.
    pub closed spec fn events_spec(&self) -> Seq<ReconnectControllerEvent> {
        self.events@
    }

    /// An idle controller.
    pub fn new(config: ReconnectControllerConfig) -> (r: ReconnectController)
        ensures
            r.config_spec() == config,
            r.state_spec() == ReconnectState::Idle,
            !r.reconnecting_spec(),
            !r.cancelled_spec(),
            r.events_spec().len() == 0,
    {
        ReconnectController {
            config,
            state: ReconnectState::Idle,
            reconnecting: false,
            cancelled: false,
            events: Vec::new(),
        }
    }

    /// Where reconnection stands.
    pub fn state(&self) -> (r: ReconnectState)
        ensures
            r == self.state_spec(),
    {
        self.state
    }

    /// Whether a reconnection is under way.
    pub fn is_reconnecting(&self) -> (r: bool)
        ensures
            r == self.reconnecting_spec(),
    {
        self.reconnecting
    }

    /// Whether the policy allows reconnecting.
    pub fn is_enabled(&self) -> (r: bool)
        ensures
            r == self.config_spec().policy.enabled,
    {
        self.config.policy.enabled
    }

    /// The policy.
    pub fn policy(&self) -> (r: ReconnectPolicy)
        ensures
            r == self.config_spec().policy,
    {
        self.config.policy
    }

    fn set_state(&mut self, state: ReconnectState)
        ensures
            final(self).state == state,
            final(self).events@ == old(self).events@.push(ReconnectControllerEvent::StateChanged(state)),
            final(self).config == old(self).config,
            final(self).reconnecting == old(self).reconnecting,
            final(self).cancelled == old(self).cancelled,
    {
        self.state = state;
        self.events.push(ReconnectControllerEvent::StateChanged(state));
    }

    /// Cancels a reconnection under way: it stops, the state goes back to
    /// idle, and the cancel is reported. Without one nothing happens.
    pub fn cancel(&mut self)
        ensures
            final(self).config_spec() == old(self).config_spec(),
            !final(self).reconnecting_spec(),
            old(self).reconnecting_spec() ==> final(self).cancelled_spec() && final(self).state_spec()
                == ReconnectState::Idle && final(self).events_spec() == old(self).events_spec().push(
                ReconnectControllerEvent::StateChanged(ReconnectState::Idle),
            ).push(ReconnectControllerEvent::Cancelled),
            !old(self).reconnecting_spec() ==> final(self).cancelled_spec() == old(self).cancelled_spec()
                && final(self).state_spec() == old(self).state_spec() && final(self).events_spec() == old(self).events_spec(),
    {
        if self.reconnecting {
            self.cancelled = true;
            self.reconnecting = false;
            self.set_state(ReconnectState::Idle);
            self.events.push(ReconnectControllerEvent::Cancelled);
        }
    }

    /// Starts over: not reconnecting, not cancelled, idle (the owner resets
    /// its backoff).
    pub fn reset(&mut self)
        ensures
            final(self).config_spec() == old(self).config_spec(),
            !final(self).reconnecting_spec(),
            !final(self).cancelled_spec(),
            final(self).state_spec() == ReconnectState::Idle,
            final(self).events_spec() == old(self).events_spec().push(
                ReconnectControllerEvent::StateChanged(ReconnectState::Idle),
            ),
    {
        self.cancelled = false;
        self.reconnecting = false;
        self.set_state(ReconnectState::Idle);
    }

    fn trigger_reconnect(&mut self)
        ensures
            final(self).config == old(self).config,
            (!old(self).config.policy.enabled || old(self).reconnecting) ==> *final(self) == *old(self),
            (old(self).config.policy.enabled && !old(self).reconnecting) ==> {
                let w = ReconnectState::Waiting { attempt: 1, remaining_ms: old(self).config.policy.initial_delay_ms };
                &&& final(self).reconnecting
                &&& !final(self).cancelled
                &&& final(self).state == w
                &&& final(self).events@ == old(self).events@.push(ReconnectControllerEvent::StateChanged(w)).push(
                    ReconnectControllerEvent::Started,
                )
            },
    {
        if !self.config.policy.enabled {
            return;
        }
        if self.reconnecting {
            return;
        }
        self.reconnecting = true;
        self.cancelled = false;
        self.set_state(ReconnectState::Waiting { attempt: 1, remaining_ms: self.config.policy.initial_delay_ms });
        self.events.push(ReconnectControllerEvent::Started);
    }

    /// Reacts to a change of the connection's state from `old_state` to
    /// `new_state`; `backoff_attempt` is the backoff's attempt count. A
    /// connection lost for any reason but the user's starts a reconnection
    /// when the policy allows and none is under way; a reconnecting
    /// connection makes the state `Connecting`; a reconnection that came
    /// back up succeeds. The answer says whether the owner resets its
    /// backoff (on a success, as the policy says).
    pub fn on_connection_state_changed(&mut self, old_state: ConnectionState, new_state: ConnectionState, backoff_attempt: u32) -> (r: bool)
        ensures
            final(self).config_spec() == old(self).config_spec(),
            match (old_state, new_state) {
                (ConnectionState::Connected { .. }, ConnectionState::Disconnected { reason }) => !r && if reason
                    == DisconnectReason::UserInitiated || !old(self).config_spec().policy.enabled
                    || old(self).reconnecting_spec() {
                    final(self).state_spec() == old(self).state_spec() && final(self).events_spec() == old(self).events_spec() && final(self).reconnecting_spec() == old(self).reconnecting_spec()
                } else {
                    let w = ReconnectState::Waiting {
                        attempt: 1,
                        remaining_ms: old(self).config_spec().policy.initial_delay_ms,
                    };
                    &&& final(self).reconnecting_spec()
                    &&& !final(self).cancelled_spec()
                    &&& final(self).state_spec() == w
                    &&& final(self).events_spec() == old(self).events_spec().push(
                        ReconnectControllerEvent::StateChanged(w),
                    ).push(ReconnectControllerEvent::Started)
                },
                (_, ConnectionState::Reconnecting { attempt }) => !r && final(self).state_spec()
                    == (ReconnectState::Connecting { attempt }) && final(self).reconnecting_spec() == old(self).reconnecting_spec()
                    && final(self).events_spec() == old(self).events_spec().push(
                    ReconnectControllerEvent::StateChanged(ReconnectState::Connecting { attempt }),
                ),
                (ConnectionState::Reconnecting { .. }, ConnectionState::Connected { .. }) => r == old(self).config_spec().policy.reset_on_success && !final(self).reconnecting_spec() && final(self).state_spec()
                    == ReconnectState::Connected && final(self).events_spec() == old(self).events_spec().push(
                    ReconnectControllerEvent::StateChanged(ReconnectState::Connected),
                ).push(ReconnectControllerEvent::Succeeded { total_attempts: backoff_attempt }),
                _ => !r && final(self).state_spec() == old(self).state_spec() && final(self).events_spec() == old(self).events_spec() && final(self).reconnecting_spec() == old(self).reconnecting_spec(),
            },
    {
        match (old_state, new_state) {
            (ConnectionState::Connected { .. }, ConnectionState::Disconnected { reason }) => {
                if reason == DisconnectReason::UserInitiated {
                    return false;
                }
                if self.config.policy.enabled {
                    self.trigger_reconnect();
                }
                false
            },
            (_, ConnectionState::Reconnecting { attempt }) => {
                self.set_state(ReconnectState::Connecting { attempt });
                false
            },
            (ConnectionState::Reconnecting { .. }, ConnectionState::Connected { .. }) => {
                self.on_reconnect_success(backoff_attempt)
            },
            _ => false,
        }
    }

    fn on_reconnect_success(&mut self, total_attempts: u32) -> (r: bool)
        ensures
            r == old(self).config.policy.reset_on_success,
            !final(self).reconnecting,
            final(self).state == ReconnectState::Connected,
            final(self).config == old(self).config,
            final(self).cancelled == old(self).cancelled,
            final(self).events@ == old(self).events@.push(
                ReconnectControllerEvent::StateChanged(ReconnectState::Connected),
            ).push(ReconnectControllerEvent::Succeeded { total_attempts }),
    {
        self.reconnecting = false;
        self.set_state(ReconnectState::Connected);
        self.events.push(ReconnectControllerEvent::Succeeded { total_attempts });
        self.config.policy.reset_on_success
    }

    /// Whether the owner may ask its backoff for the next delay: not after
    /// a cancel (a cancelled reconnection has no next delay).
    pub fn next_delay_allowed(&self) -> (r: bool)
        ensures
            r == !self.cancelled_spec(),
    {
        !self.cancelled
    }

    /// Starts attempt number `attempt`, unless cancelled (`false`).
    pub fn begin_attempt(&mut self, attempt: u32) -> (r: bool)
        ensures
            r == !old(self).cancelled_spec(),
            final(self).config_spec() == old(self).config_spec(),
            final(self).reconnecting_spec() == old(self).reconnecting_spec(),
            final(self).cancelled_spec() == old(self).cancelled_spec(),
            r ==> final(self).state_spec() == (ReconnectState::Connecting { attempt }) && final(self).events_spec()
                == old(self).events_spec().push(
                ReconnectControllerEvent::StateChanged(ReconnectState::Connecting { attempt }),
            ).push(ReconnectControllerEvent::Attempting { attempt }),
            !r ==> final(self).state_spec() == old(self).state_spec() && final(self).events_spec() == old(self).events_spec(),
    {
        if self.cancelled {
            return false;
        }
        self.set_state(ReconnectState::Connecting { attempt });
        self.events.push(ReconnectControllerEvent::Attempting { attempt });
        true
    }

    /// Attempt `attempt` failed with `error`; `can_retry` is the backoff's
    /// say. The failure is reported; with no retry left the controller
    /// gives up after `attempt` attempts. The answer says whether the owner
    /// is to ask the backoff for the next delay and hand it to
    /// `on_retry_delay`: when a retry is left and nothing was cancelled.
    pub fn on_attempt_failed(&mut self, error: &str, attempt: u32, can_retry: bool) -> (r: bool)
        ensures
            final(self).config_spec() == old(self).config_spec(),
            final(self).cancelled_spec() == old(self).cancelled_spec(),
            r == (can_retry && !old(self).cancelled_spec()),
            !can_retry ==> !final(self).reconnecting_spec() && final(self).state_spec() == (ReconnectState::Failed {
                total_attempts: attempt,
            }) && (final(self).events_spec().last() matches ReconnectControllerEvent::GaveUp { total_attempts }
                && total_attempts == attempt),
            can_retry ==> final(self).state_spec() == old(self).state_spec() && final(self).reconnecting_spec()
                == old(self).reconnecting_spec() && final(self).events_spec().len() == old(self).events_spec().len()
                + 1 && (final(self).events_spec().last() matches ReconnectControllerEvent::AttemptFailed {
                attempt: a,
                error: e,
            } && a == attempt && e@ == error@),
    {
        self.events.push(ReconnectControllerEvent::AttemptFailed { attempt, error: owned(error) });
        if !can_retry {
            self.reconnecting = false;
            self.set_state(ReconnectState::Failed { total_attempts: attempt });
            self.events.push(ReconnectControllerEvent::GaveUp { total_attempts: attempt });
            return false;
        }
        !self.cancelled
    }

    /// The backoff's next delay after failed attempt `attempt` (`None`
    /// when it has none): the controller waits that long before the next
    /// attempt, and reports it.
    pub fn on_retry_delay(&mut self, attempt: u32, delay_ms: Option<u64>)
        requires
            attempt < u32::MAX,
        ensures
            final(self).config_spec() == old(self).config_spec(),
            final(self).reconnecting_spec() == old(self).reconnecting_spec(),
            final(self).cancelled_spec() == old(self).cancelled_spec(),
            match delay_ms {
                Some(d) => {
                    let w = ReconnectState::Waiting { attempt: (attempt + 1) as u32, remaining_ms: d };
                    &&& final(self).state_spec() == w
                    &&& final(self).events_spec() == old(self).events_spec().push(
                        ReconnectControllerEvent::StateChanged(w),
                    ).push(ReconnectControllerEvent::Waiting { delay_ms: d, attempt: (attempt + 1) as u32 })
                },
                None => final(self).state_spec() == old(self).state_spec() && final(self).events_spec() == old(self).events_spec(),
            },
    {
        match delay_ms {
            Some(d) => {
                self.set_state(ReconnectState::Waiting { attempt: attempt + 1, remaining_ms: d });
                self.events.push(ReconnectControllerEvent::Waiting { delay_ms: d, attempt: attempt + 1 });
            },
            None => {},
        }
    }

    /// Hands out the events, oldest first, and forgets them.
    pub fn take_events(&mut self) -> (r: Vec<ReconnectControllerEvent>)
        ensures
            r@ == old(self).events_spec(),
            final(self).events_spec().len() == 0,
            final(self).state_spec() == old(self).state_spec(),
            final(self).reconnecting_spec() == old(self).reconnecting_spec(),
            final(self).cancelled_spec() == old(self).cancelled_spec(),
            final(self).config_spec() == old(self).config_spec(),
    {
        let mut r: Vec<ReconnectControllerEvent> = Vec::new();
        std::mem::swap(&mut r, &mut self.events);
        r
    }
}

} // verus!
