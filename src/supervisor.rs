use vstd::prelude::*;

verus! {

/// What happened since the supervisor last decided.
#[derive(Clone, Copy, Debug, PartialEq, Eq, Structural)]
pub enum SupervisorEvent {
    /// The supervisor task has just started.
    Started,
    /// The transport connected, or the wait for it ended.
    ConnectWaitEnded,
    /// The subscriber loop returned; `failed` when it returned an error.
    SubscriberEnded { failed: bool },
    /// A backoff delay has passed.
    BackoffEnded,
}

/// What the supervisor is to do next.
#[derive(Clone, Copy, Debug, PartialEq, Eq, Structural)]
pub enum SupervisorAction {
    /// Connect the transport and wait for the connection.
    Connect,
    /// Run the subscriber loop to completion.
    RunSubscriber,
    /// Sleep the backoff delay for this many failures in a row.
    Backoff { failures: u32 },
    /// Leave the loop.
    Exit,
}

/// The restart policy around the subscriber loop: reconnect after a clean
/// return, back off after a failure, and leave as soon as a stop is asked.
#[derive(Clone, Copy, Debug, PartialEq, Eq, Structural)]
pub struct Supervisor {
    pub failures: u32,
    pub stopped: bool,
}

impl Supervisor {
    pub fn new() -> (r: Self)
        ensures
            r.failures == 0,
            !r.stopped,
    {
        Supervisor { failures: 0, stopped: false }
    }

    /// The next action, given what happened and whether a stop was asked.
    pub fn step(&mut self, event: SupervisorEvent, stop_requested: bool) -> (r: SupervisorAction)
        ensures
            final(self).failures == match event {
                SupervisorEvent::SubscriberEnded { failed: false } => 0,
                SupervisorEvent::SubscriberEnded { failed: true } if !old(self).stopped && !stop_requested =>
                    if old(self).failures == u32::MAX { u32::MAX } else { (old(self).failures + 1) as u32 },
                _ => old(self).failures,
            },
            final(self).stopped == (old(self).stopped || stop_requested),
            (old(self).stopped || stop_requested) ==> r == SupervisorAction::Exit,
            !(old(self).stopped || stop_requested) ==> r == match event {
                SupervisorEvent::Started => SupervisorAction::Connect,
                SupervisorEvent::ConnectWaitEnded => SupervisorAction::RunSubscriber,
                SupervisorEvent::SubscriberEnded { failed: false } => SupervisorAction::Connect,
                SupervisorEvent::SubscriberEnded { failed: true } => SupervisorAction::Backoff {
                    failures: final(self).failures,
                },
                SupervisorEvent::BackoffEnded => SupervisorAction::Connect,
            },
    {
        if matches!(event, SupervisorEvent::SubscriberEnded { failed: false }) {
            self.failures = 0;
        }
        if self.stopped || stop_requested {
            self.stopped = true;
            return SupervisorAction::Exit;
        }
        match event {
            SupervisorEvent::Started => SupervisorAction::Connect,
            SupervisorEvent::ConnectWaitEnded => SupervisorAction::RunSubscriber,
            SupervisorEvent::SubscriberEnded { failed } => {
                if failed {
                    if self.failures < u32::MAX {
                        self.failures = self.failures + 1;
                    }
                    SupervisorAction::Backoff { failures: self.failures }
                } else {
                    SupervisorAction::Connect
                }
            },
            SupervisorEvent::BackoffEnded => SupervisorAction::Connect,
        }
    }
}

/// How a subscriber loop ended.
#[derive(Clone, Copy, Debug, PartialEq, Eq, Structural)]
pub enum SubscriberError {
    /// The relay notification channel closed under the loop.
    NotificationsClosed,
}

/// The subscriber's result: a stop is a clean end, a closed notification
/// channel is a failure the supervisor restarts from.
pub fn subscriber_outcome(stop_requested: bool, notifications_closed: bool) -> (r: Result<(), SubscriberError>)
    ensures
        r is Err <==> (!stop_requested && notifications_closed),
{
    if stop_requested {
        return Ok(());
    }
    if notifications_closed {
        return Err(SubscriberError::NotificationsClosed);
    }
    Ok(())
}

} // verus!
