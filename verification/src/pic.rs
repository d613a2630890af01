//! The pair of chained interrupt controllers: which vectors they raise and
//! which of them an end-of-interrupt goes to.

use vstd::prelude::*;

verus! {

/// Number of vectors that the processor reserves for its exceptions.
pub const RESERVED_VECTORS: u8 = 32;

/// Number of lines of one controller.
pub const LINES_PER_CONTROLLER: u8 = 8;

/// The controllers that an end-of-interrupt is sent to.
#[derive(Debug, Clone, Copy, PartialEq, Eq, Structural)]
pub enum EndOfInterrupt {
    /// Neither controller raised the vector: nothing is sent.
    Nothing,
    /// The primary controller raised the vector.
    Primary,
    /// The secondary controller raised the vector through the primary one:
    /// both are told, the secondary first.
    SecondaryThenPrimary,
}

/// The vector offsets of the primary and the secondary controller.
#[derive(Debug, Clone, Copy, PartialEq, Eq, Structural)]
pub struct InterruptController {
    primary_offset: u8,
    secondary_offset: u8,
}

/// Offsets are acceptable when both blocks of eight vectors lie above the
/// vectors reserved by the processor, inside the vector table, and apart
/// from each other.
pub open spec fn offsets_acceptable(primary_offset: u8, secondary_offset: u8) -> bool {
    &&& 32 <= primary_offset <= 248
    &&& 32 <= secondary_offset <= 248
    &&& (primary_offset + 8 <= secondary_offset || secondary_offset + 8 <= primary_offset)
}

impl InterruptController {
    /// Vector of line 0 of the primary controller.
    pub closed spec fn primary(&self) -> u8 {
        self.primary_offset
    }

    /// Vector of line 0 of the secondary controller.
    pub closed spec fn secondary(&self) -> u8 {
        self.secondary_offset
    }

    /// The offsets are acceptable.
    pub open spec fn well_formed(&self) -> bool {
        offsets_acceptable(self.primary(), self.secondary())
    }

    /// Whether the primary controller raises `vector`.
    pub open spec fn primary_raises(&self, vector: u8) -> bool {
        self.primary() <= vector < self.primary() + 8
    }

    /// Whether the secondary controller raises `vector`.
    pub open spec fn secondary_raises(&self, vector: u8) -> bool {
        self.secondary() <= vector < self.secondary() + 8
    }

    /// The controllers to acknowledge for `vector`.
    pub open spec fn acknowledgement(&self, vector: u8) -> EndOfInterrupt {
        if self.secondary_raises(vector) {
            EndOfInterrupt::SecondaryThenPrimary
        } else if self.primary_raises(vector) {
            EndOfInterrupt::Primary
        } else {
            EndOfInterrupt::Nothing
        }
    }

    /// The vector that hardware line `line` is delivered on: lines 0 to 7
    /// through the primary controller, lines 8 to 15 through the secondary.
    pub open spec fn line_vector(&self, line: u8) -> int {
        if line < 8 {
            self.primary() + line
        } else {
            self.secondary() + (line - 8)
        }
    }

    /// Maps lines 0 to 7 to the eight vectors from `primary_offset` and lines
    /// 8 to 15 to the eight vectors from `secondary_offset`; `None` where the
    /// two blocks would meet each other, the reserved vectors or the end of
    /// the vector table.
    pub fn remap(primary_offset: u8, secondary_offset: u8) -> (controller: Option<Self>)
        ensures
            controller.is_some() == offsets_acceptable(primary_offset, secondary_offset),
            controller matches Some(c) ==> c.well_formed() && c.primary() == primary_offset
                && c.secondary() == secondary_offset,
    {
        if primary_offset < RESERVED_VECTORS || primary_offset > 248 {
            return None;
        }
        if secondary_offset < RESERVED_VECTORS || secondary_offset > 248 {
            return None;
        }
        let apart: u8 = if primary_offset <= secondary_offset {
            secondary_offset - primary_offset
        } else {
            primary_offset - secondary_offset
        };
        if apart >= LINES_PER_CONTROLLER {
            Some(InterruptController { primary_offset, secondary_offset })
        } else {
            None
        }
    }

    /// Vector of line 0 of the primary controller.
    pub fn primary_offset(&self) -> (offset: u8)
        ensures
            offset == self.primary(),
    {
        self.primary_offset
    }

    /// Vector of line 0 of the secondary controller.
    pub fn secondary_offset(&self) -> (offset: u8)
        ensures
            offset == self.secondary(),
    {
        self.secondary_offset
    }

    /// Whether one of the two controllers raises `vector`.
    pub fn handles_interrupt(&self, vector: u8) -> (handled: bool)
        requires
            self.well_formed(),
        ensures
            handled == (self.primary_raises(vector) || self.secondary_raises(vector)),
    {
        (self.primary_offset <= vector && vector - self.primary_offset < LINES_PER_CONTROLLER) || (
        self.secondary_offset <= vector && vector - self.secondary_offset < LINES_PER_CONTROLLER)
    }

    /// The vector on which hardware line `line` is delivered.
    pub fn vector_of_line(&self, line: u8) -> (vector: u8)
        requires
            self.well_formed(),
            line < 16,
        ensures
            vector == self.line_vector(line),
    {
        if line < LINES_PER_CONTROLLER {
            self.primary_offset + line
        } else {
            self.secondary_offset + (line - LINES_PER_CONTROLLER)
        }
    }

    /// Decides which controllers must be told that the interrupt on `vector`
    /// has been handled: both for a vector of the secondary controller, the
    /// primary alone for one of its own, none for any other vector.
    pub fn notify_end_of_interrupt(&self, vector: u8) -> (signal: EndOfInterrupt)
        requires
            self.well_formed(),
        ensures
            signal == self.acknowledgement(vector),
    {
        if self.secondary_offset <= vector && vector - self.secondary_offset
            < LINES_PER_CONTROLLER {
            EndOfInterrupt::SecondaryThenPrimary
        } else if self.primary_offset <= vector && vector - self.primary_offset
            < LINES_PER_CONTROLLER {
            EndOfInterrupt::Primary
        } else {
            EndOfInterrupt::Nothing
        }
    }
}

/// Every hardware line is delivered on a vector above the reserved ones, that
/// vector is acknowledged, and it is acknowledged at the primary controller
/// alone exactly for lines 0 to 7.
pub proof fn lemma_line_is_acknowledged(controller: InterruptController, line: u8)
    requires
        controller.well_formed(),
        line < 16,
    ensures
        32 <= controller.line_vector(line) < 256,
        controller.acknowledgement(controller.line_vector(line) as u8) == if line < 8 {
            EndOfInterrupt::Primary
        } else {
            EndOfInterrupt::SecondaryThenPrimary
        },
{
}

/// Two different hardware lines are never delivered on the same vector.
pub proof fn lemma_lines_have_distinct_vectors(controller: InterruptController, a: u8, b: u8)
    requires
        controller.well_formed(),
        a < 16,
        b < 16,
        a != b,
    ensures
        controller.line_vector(a) != controller.line_vector(b),
{
}

} // verus!
