//! Verbosity levels and what a logger decides before anything is printed.

use vstd::prelude::*;
use vstd::string::StringExecFns;
use crate::text::{hex_dump, hex_text};

verus! {

/// How much the server reports. A message is printed when its level is not
/// above the level in force. The levels are ordered as they are listed.
#[derive(Debug, Clone, Copy, PartialEq, Eq, PartialOrd, Structural)]
pub enum Verbosity {
    Low,
    Medium,
    High,
}

impl Verbosity {
    /// The number of a level: 0, 1 or 2.
    pub open spec fn rank(self) -> int {
        match self {
            Verbosity::Low => 0,
            Verbosity::Medium => 1,
            Verbosity::High => 2,
        }
    }

    /// The level that a number names. A number that names none stands for
    /// the lowest level.
    pub open spec fn of_number(level: u8) -> Verbosity {
        if level == 1 {
            Verbosity::Medium
        } else if level == 2 {
            Verbosity::High
        } else {
            Verbosity::Low
        }
    }

    /// Reads a level off a number.
    pub fn from_u8(level: u8) -> (verbosity: Verbosity)
        ensures
            verbosity == Verbosity::of_number(level),
    {
        if level == 1 {
            Verbosity::Medium
        } else if level == 2 {
            Verbosity::High
        } else {
            Verbosity::Low
        }
    }

    /// The number of a level.
    pub fn to_u8(self) -> (level: u8)
        ensures
            level == self.rank(),
            Verbosity::of_number(level) == self,
    {
        match self {
            Verbosity::Low => 0,
            Verbosity::Medium => 1,
            Verbosity::High => 2,
        }
    }
}

/// The state of the log: the level in force and the number that the next
/// block of lines gets.
pub struct Logger {
    pub verbosity: Verbosity,
    pub next_event: u64,
}

/// Puts a level in force.
pub fn set_verbosity(logger: &mut Logger, level: Verbosity)
    ensures
        final(logger).verbosity == level,
        final(logger).next_event == old(logger).next_event,
{
    logger.verbosity = level;
}

impl Logger {
    /// A log at the lowest level that has numbered no block.
    pub fn new() -> (logger: Logger)
        ensures
            logger.verbosity == Verbosity::Low,
            logger.next_event == 0,
    {
        Logger { verbosity: Verbosity::Low, next_event: 0 }
    }

    /// Whether a message of `level` is printed.
    pub open spec fn prints(self, level: Verbosity) -> bool {
        level.rank() <= self.verbosity.rank()
    }

    /// Whether a message of `level` is printed.
    pub fn allows(&self, level: Verbosity) -> (printed: bool)
        ensures
            printed == self.prints(level),
    {
        level.to_u8() <= self.verbosity.to_u8()
    }

    /// Hands out the number of the next block. The numbers count up from
    /// zero and wrap at the end of the range.
    pub fn next_event_number(&mut self) -> (number: u64)
        ensures
            number == old(self).next_event,
            final(self).verbosity == old(self).verbosity,
            final(self).next_event == if old(self).next_event == u64::MAX {
                0
            } else {
                (old(self).next_event + 1) as u64
            },
    {
        let number: u64 = self.next_event;
        if number == u64::MAX {
            self.next_event = 0;
        } else {
            self.next_event = number + 1;
        }
        number
    }

    /// The line that shows the bytes of a packet, if a message of `level` is
    /// printed at all.
    pub fn data_line(&self, level: Verbosity, data: &[u8]) -> (line: Option<String>)
        ensures
            line is Some <==> self.prints(level),
            line matches Some(text) ==> text@ == hex_text(data@),
    {
        if self.allows(level) {
            Some(hex_dump(data))
        } else {
            None
        }
    }
}

} // verus!
