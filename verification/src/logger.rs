//! Loggers, and a filter that keeps the chatty messages from one.
//!
//! What a logger does with a message is its own affair, so `log` promises
//! nothing. What the filter decides is stated by `passes`.

use vstd::prelude::*;

verus! {

/// A sink for messages, each of which comes with a verbosity level.
pub trait Logger {
    /// Log a message at the given verbosity level.
    fn log(&self, verbosity: u8, message: &str);
}

/// A logger that hands on to another logger the messages whose verbosity is
/// at most a maximum, and drops the others.
pub struct VerbosityFilter<L: Logger> {
    pub max_verbosity: u8,
    pub inner: L,
}

impl<L: Logger> VerbosityFilter<L> {
    /// Whether a message of the given verbosity is handed on.
    pub fn passes(&self, verbosity: u8) -> (handed_on: bool)
        ensures
            handed_on == (verbosity <= self.max_verbosity),
    {
        verbosity <= self.max_verbosity
    }
}

impl<L: Logger> Logger for VerbosityFilter<L> {
    fn log(&self, verbosity: u8, message: &str) {
        if self.passes(verbosity) {
            self.inner.log(verbosity, message);
        }
    }
}

/// Logs a remark at verbosity 5 and then a warning at verbosity 2.
pub fn do_things(logger: &impl Logger) {
    logger.log(5, "FYI");
    logger.log(2, "uhoh");
}

} // verus!
