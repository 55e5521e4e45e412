//! Log records and the capability the wrapped downstream stage satisfies.

use vstd::prelude::*;
use crate::level::Level;

verus! {

/// A structured log record: a severity level and a message. The structured
/// key/value pairs accompanying a record travel beside it, untouched.
pub struct Record {
    /// The record's severity level.
    pub level: Level,
    /// The record's message.
    pub msg: String,
}

impl Record {
    /// A record at `level` carrying `msg`.
    pub fn new(level: Level, msg: String) -> (r: Record)
        ensures
            r.level == level,
            r.msg == msg,
    {
        Record { level, msg }
    }

    /// The record's severity level.
    pub fn level(&self) -> (l: Level)
        ensures
            l == self.level,
    {
        self.level
    }
}

/// The downstream stage of the logging pipeline. An implementor accepts a
/// record with its structured key/value pairs and answers with its own
/// success or failure value; the adapter promises nothing about that
/// outcome, only that it is observed and forwarded unchanged.
pub trait Sink {
    /// What a successful delivery yields.
    type Ok;

    /// How a failed delivery is reported.
    type Err;

    /// Deliver one record together with its structured key/value pairs.
    fn log(&mut self, record: &Record, values: &Vec<(String, String)>) -> Result<
        Self::Ok,
        Self::Err,
    >;
}

} // verus!
