//! The failure policy: what runs when the transport is never handed over.

use axum::Error;
use vstd::prelude::*;

verus! {

/// `axum::Error`, the boxed error that a failure policy receives. Its content
/// is opaque here: the library only carries it to the policy.
#[verifier::external_type_specification]
#[verifier::external_body]
pub struct ExError(axum::Error);

/// What to do when a connection upgrade fails.
///
/// A policy is used up by its single call. `accepts` is the condition under
/// which the policy may be called with a given error, `handled` what holds
/// once it has been.
pub trait OnFailedUpgrade: Send + 'static {
    /// Whether the policy may be called with `error`. A policy accepts
    /// every error unless it says otherwise.
    open spec fn accepts(&self, error: Error) -> bool {
        true
    }

    /// What holds once the policy has been called with `error`. A policy
    /// promises nothing unless it says otherwise.
    open spec fn handled(&self, error: Error) -> bool {
        true
    }

    /// Call the policy with the error that ended the upgrade.
    fn call(self, error: Error)
        requires
            self.accepts(error),
        ensures
            self.handled(error),
    ;
}

/// A function of the error is a policy: to call the policy is to call the
/// function, with the error as it is.
impl<F> OnFailedUpgrade for F where F: FnOnce(Error) + Send + 'static {
    open spec fn accepts(&self, error: Error) -> bool {
        (*self).requires((error,))
    }

    open spec fn handled(&self, error: Error) -> bool {
        (*self).ensures((error,), ())
    }

    fn call(self, error: Error) {
        self(error)
    }
}

/// The default failure policy: the error is discarded.
#[non_exhaustive]
#[derive(Debug)]
pub struct DefaultOnFailedUpgrade;

impl OnFailedUpgrade for DefaultOnFailedUpgrade {
    #[inline]
    fn call(self, _error: Error) {
    }
}

} // verus!
