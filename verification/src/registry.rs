//! One-shot registration of the assembled logger.
//!
//! The process's single logging sink is modelled as an explicit
//! process-scoped handle: a `Registry` starts empty, accepts exactly one
//! logger, and rejects every later attempt while keeping the first
//! registration active. The shell that owns the process's registry also
//! hands the registered logger to the logging facade and sets the
//! facade's global threshold to the registry's.

use vstd::prelude::*;

use crate::level::Level;
use crate::loggify::Loggify;

verus! {

/// The registry already held an active logger when a second
/// registration was attempted.
#[derive(Clone, Copy, Debug, PartialEq, Eq, Structural)]
pub struct RegistrationError;

/// The process-scoped registration state: the active logger, if one was
/// registered, and the global severity threshold that came with it.
pub struct Registry {
    pub active: Option<Loggify>,
    pub threshold: Option<Level>,
}

/// How one registration attempt turns `pre` into `post` with result
/// `r`: the first attempt installs the logger and its threshold, every
/// later attempt fails and changes nothing.
pub open spec fn register_outcome(
    pre: Registry,
    post: Registry,
    logger: Loggify,
    r: Result<(), RegistrationError>,
) -> bool {
    if pre.active is None {
        &&& r == Result::<(), RegistrationError>::Ok(())
        &&& post.active == Some(logger)
        &&& post.threshold == Some(logger.level)
    } else {
        &&& r == Result::<(), RegistrationError>::Err(RegistrationError)
        &&& post == pre
    }
}

impl Registry {
    /// A registry with no active logger.
    pub fn new() -> (r: Self)
        ensures
            r.active is None,
            r.threshold is None,
    {
        Registry { active: None, threshold: None }
    }

    /// Installs `logger` as the process's single active sink, or fails
    /// if one is already installed.
    pub fn register(&mut self, logger: Loggify) -> (r: Result<(), RegistrationError>)
        ensures
            register_outcome(*old(self), *final(self), logger, r),
    {
        match &self.active {
            Some(_) => Err(RegistrationError),
            None => {
                self.threshold = Some(logger.level);
                self.active = Some(logger);
                Ok(())
            },
        }
    }
}

/// Law: a second registration in the same process fails, and the first
/// registration remains the active one.
pub proof fn lemma_second_registration_rejected(
    r0: Registry,
    r1: Registry,
    r2: Registry,
    first: Loggify,
    second: Loggify,
    out1: Result<(), RegistrationError>,
    out2: Result<(), RegistrationError>,
)
    requires
        r0.active is None,
        register_outcome(r0, r1, first, out1),
        register_outcome(r1, r2, second, out2),
    ensures
        out1 == Result::<(), RegistrationError>::Ok(()),
        out2 == Result::<(), RegistrationError>::Err(RegistrationError),
        r2.active == Some(first),
        r2.threshold == Some(first.level),
{
}

} // verus!
