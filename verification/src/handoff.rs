//! Handing the transport over, once the server has switched protocols or has
//! given up.

use crate::failure::OnFailedUpgrade;
use axum::Error;
use vstd::prelude::*;

verus! {

/// What the task that waits for the transport holds while it waits: the
/// caller's continuation and the failure policy. Neither can be copied, and
/// settling uses both up.
pub struct Handoff<C, F> {
    /// The continuation that will own the transport.
    pub callback: C,
    /// The policy for an upgrade that fails.
    pub on_failed_upgrade: F,
}

/// The one thing left to do once the pending transport has resolved.
pub enum HandoffAction<T, C, F> {
    /// Run the continuation on the transport. The failure policy is gone
    /// and is not called.
    Deliver {
        /// The continuation.
        callback: C,
        /// The raw transport.
        transport: T,
    },
    /// Call the failure policy with the error. The continuation is gone and
    /// is not run.
    Fail {
        /// The failure policy.
        on_failed_upgrade: F,
        /// The error that the pending transport resolved to.
        error: Error,
    },
}

impl<C, F: OnFailedUpgrade> Handoff<C, F> {
    /// Decides what follows from the outcome of the pending transport: on
    /// success the continuation gets the transport, on failure the policy
    /// gets the error.
    pub fn settle<T>(self, outcome: Result<T, Error>) -> (action: HandoffAction<T, C, F>)
        ensures
            action == match outcome {
                Ok(transport) => HandoffAction::Deliver { callback: self.callback, transport },
                Err(error) => HandoffAction::Fail {
                    on_failed_upgrade: self.on_failed_upgrade,
                    error,
                },
            },
    {
        match outcome {
            Ok(transport) => HandoffAction::Deliver { callback: self.callback, transport },
            Err(error) => HandoffAction::Fail { on_failed_upgrade: self.on_failed_upgrade, error },
        }
    }
}

impl<T, C, F> HandoffAction<T, C, F> {
    /// Carries the action out. To deliver, the continuation is called on the
    /// transport, once, and what it returns is handed back for the task to
    /// drive to its end. To fail, the policy is called with the error, once,
    /// and nothing is handed back: what the policy promises of its call
    /// holds afterwards.
    pub fn perform<R>(self) -> (started: Option<R>) where C: FnOnce(T) -> R, F: OnFailedUpgrade
        requires
            match self {
                HandoffAction::Deliver { callback, transport } => callback.requires((transport,)),
                HandoffAction::Fail { on_failed_upgrade, error } => on_failed_upgrade.accepts(
                    error,
                ),
            },
        ensures
            match self {
                HandoffAction::Deliver { callback, transport } => started matches Some(running)
                    && callback.ensures((transport,), running),
                HandoffAction::Fail { on_failed_upgrade, error } => started is None
                    && on_failed_upgrade.handled(error),
            },
    {
        match self {
            HandoffAction::Deliver { callback, transport } => Some(callback(transport)),
            HandoffAction::Fail { on_failed_upgrade, error } => {
                on_failed_upgrade.call(error);
                None
            },
        }
    }
}

} // verus!
