//! Logging initialization state: the once-only decision of whether the host
//! logger still has to be installed. The installation itself — wiring the
//! process's logging backend and reading the configured level — happens
//! outside the library.

use vstd::prelude::*;

verus! {

/// Tracks whether logging has been set up for this component instance.
#[derive(Debug, Clone, Copy, PartialEq, Eq, Structural)]
pub struct BaseLoggingState {
    pub logging_initialized: bool,
}

impl BaseLoggingState {
    /// A fresh state: nothing installed yet.
    pub fn new() -> (r: Self)
        ensures
            !r.logging_initialized,
    {
        BaseLoggingState { logging_initialized: false }
    }

    /// Decide whether the logger must be installed now, and mark it done
    /// either way: the first call answers yes, every later call no.
    pub fn init(&mut self) -> (install: bool)
        ensures
            final(self).logging_initialized,
            install == !old(self).logging_initialized,
    {
        let install = !self.logging_initialized;
        self.logging_initialized = true;
        install
    }
}

/// The chat capability's logging state, carried over the shared base.
#[derive(Debug, Clone, Copy, PartialEq, Eq, Structural)]
pub struct LoggingState {
    pub base_logger: BaseLoggingState,
}

impl LoggingState {
    /// A fresh state: nothing installed yet.
    pub fn new() -> (r: Self)
        ensures
            !r.base_logger.logging_initialized,
    {
        LoggingState { base_logger: BaseLoggingState::new() }
    }

    /// Decide whether the logger must be installed now, once per instance.
    pub fn init(&mut self) -> (install: bool)
        ensures
            final(self).base_logger.logging_initialized,
            install == !old(self).base_logger.logging_initialized,
    {
        self.base_logger.init()
    }
}

} // verus!
