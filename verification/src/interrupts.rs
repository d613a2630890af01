//! The interrupt vector layout, the vector table and what each handler
//! decides.

use crate::keyboard::decodes_to;
use crate::keyboard::Decoder;
use crate::keyboard::ScreenText;
use crate::pic::EndOfInterrupt;
use crate::pic::InterruptController;
use vstd::prelude::*;

verus! {

/// Vector of the first line of the primary interrupt controller.
pub const PIC_1_OFFSET: u8 = 32;

/// Vector of the first line of the secondary interrupt controller.
pub const PIC_2_OFFSET: u8 = 40;

/// Number of entries of the vector table.
pub const VECTOR_COUNT: usize = 256;

/// Vector of the breakpoint exception.
pub const BREAKPOINT_VECTOR: usize = 3;

/// Vector of the double fault exception.
pub const DOUBLE_FAULT_VECTOR: usize = 8;

/// Vector of the page fault exception.
pub const PAGE_FAULT_VECTOR: usize = 14;

/// Index of the stack, in the interrupt stack table, on which the double
/// fault handler runs.
pub const DOUBLE_FAULT_IST_INDEX: u16 = 0;

/// The hardware interrupts that have a handler.
#[derive(Debug, Clone, Copy, PartialEq, Eq, Structural)]
pub enum InterruptIndex {
    /// The timer, on the first line of the primary controller.
    Timer,
    /// The keyboard, on the second line of the primary controller.
    Keyboard,
}

impl InterruptIndex {
    /// The vector of the interrupt.
    pub open spec fn vector(self) -> u8 {
        match self {
            InterruptIndex::Timer => 32,
            InterruptIndex::Keyboard => 33,
        }
    }

    /// The vector of the interrupt as a byte.
    pub fn as_u8(self) -> (vector: u8)
        ensures
            vector == self.vector(),
    {
        match self {
            InterruptIndex::Timer => PIC_1_OFFSET,
            InterruptIndex::Keyboard => PIC_1_OFFSET + 1,
        }
    }

    /// The vector of the interrupt as an index into the vector table.
    pub fn as_usize(self) -> (vector: usize)
        ensures
            vector == self.vector(),
    {
        self.as_u8() as usize
    }
}

/// With the primary controller at the first vector after the reserved ones,
/// the timer is hardware line 0 and the keyboard line 1, and the vector of
/// either is acknowledged at the primary controller alone.
pub proof fn lemma_interrupt_is_acknowledged(controller: InterruptController, index: InterruptIndex)
    requires
        controller.well_formed(),
        controller.primary() == PIC_1_OFFSET,
    ensures
        index.vector() == controller.line_vector(
            match index {
                InterruptIndex::Timer => 0u8,
                InterruptIndex::Keyboard => 1u8,
            },
        ),
        controller.acknowledgement(index.vector()) == EndOfInterrupt::Primary,
{
}

/// One populated entry of the vector table.
#[derive(Debug, Clone, Copy, PartialEq, Eq, Structural)]
pub struct Gate {
    /// Address of the handler's entry point.
    pub handler: u64,
    /// Index of the dedicated stack the handler runs on, if it has one.
    pub stack_index: Option<u16>,
}

/// Entry points of the five handlers.
#[derive(Debug, Clone, Copy, PartialEq, Eq, Structural)]
pub struct Handlers {
    /// Entry point of the breakpoint handler.
    pub breakpoint: u64,
    /// Entry point of the double fault handler.
    pub double_fault: u64,
    /// Entry point of the page fault handler.
    pub page_fault: u64,
    /// Entry point of the timer handler.
    pub timer: u64,
    /// Entry point of the keyboard handler.
    pub keyboard: u64,
}

/// The entry that the vector table built from `handlers` has at `vector`:
/// the five handlers at their vectors, the double fault handler on its own
/// stack, and nothing anywhere else.
pub open spec fn expected_gate(handlers: Handlers, vector: int) -> Option<Gate> {
    if vector == 3 {
        Some(Gate { handler: handlers.breakpoint, stack_index: None })
    } else if vector == 8 {
        Some(Gate { handler: handlers.double_fault, stack_index: Some(DOUBLE_FAULT_IST_INDEX) })
    } else if vector == 14 {
        Some(Gate { handler: handlers.page_fault, stack_index: None })
    } else if vector == InterruptIndex::Timer.vector() {
        Some(Gate { handler: handlers.timer, stack_index: None })
    } else if vector == InterruptIndex::Keyboard.vector() {
        Some(Gate { handler: handlers.keyboard, stack_index: None })
    } else {
        None
    }
}

/// The table of 256 vectors; an entry without a gate is not present.
pub struct VectorTable {
    entries: Vec<Option<Gate>>,
}

impl View for VectorTable {
    type V = Seq<Option<Gate>>;

    closed spec fn view(&self) -> Seq<Option<Gate>> {
        self.entries@
    }
}

impl VectorTable {
    /// The table has one entry for each of the 256 vectors.
    pub open spec fn well_formed(&self) -> bool {
        self@.len() == 256
    }

    /// A table in which no entry is present.
    pub fn new() -> (table: Self)
        ensures
            table.well_formed(),
            forall|v: int| 0 <= v < 256 ==> (#[trigger] table@[v]).is_none(),
    {
        let mut entries: Vec<Option<Gate>> = Vec::new();
        let mut i: usize = 0;
        while i < VECTOR_COUNT
            invariant
                i <= 256,
                entries@.len() == i,
                forall|v: int| 0 <= v < i ==> (#[trigger] entries@[v]).is_none(),
            decreases 256 - i,
        {
            entries.push(None);
            i += 1;
        }
        VectorTable { entries }
    }

    /// Puts `gate` at `vector` and leaves the other entries as they are.
    pub fn set_gate(&mut self, vector: usize, gate: Gate)
        requires
            old(self).well_formed(),
            vector < 256,
        ensures
            final(self)@ == old(self)@.update(vector as int, Some(gate)),
            final(self).well_formed(),
    {
        self.entries[vector] = Some(gate);
    }

    /// The entry at `vector`; `None` where it is not present.
    pub fn gate(&self, vector: usize) -> (gate: Option<Gate>)
        requires
            self.well_formed(),
            vector < 256,
        ensures
            gate == self@[vector as int],
    {
        self.entries[vector]
    }
}

/// Builds the vector table: the breakpoint, double fault and page fault
/// handlers at their exception vectors, the timer and keyboard handlers at
/// their interrupt vectors, the double fault handler on its dedicated stack,
/// and every other vector not present.
pub fn init_idt(handlers: Handlers) -> (table: VectorTable)
    ensures
        table.well_formed(),
        forall|v: int| 0 <= v < 256 ==> #[trigger] table@[v] == expected_gate(handlers, v),
{
    let mut table = VectorTable::new();
    table.set_gate(BREAKPOINT_VECTOR, Gate { handler: handlers.breakpoint, stack_index: None });
    table.set_gate(PAGE_FAULT_VECTOR, Gate { handler: handlers.page_fault, stack_index: None });
    table.set_gate(
        DOUBLE_FAULT_VECTOR,
        Gate { handler: handlers.double_fault, stack_index: Some(DOUBLE_FAULT_IST_INDEX) },
    );
    table.set_gate(
        InterruptIndex::Timer.as_usize(),
        Gate { handler: handlers.timer, stack_index: None },
    );
    table.set_gate(
        InterruptIndex::Keyboard.as_usize(),
        Gate { handler: handlers.keyboard, stack_index: None },
    );
    table
}

/// The context that the processor saves when it enters a handler.
#[derive(Debug, Clone, Copy, PartialEq, Eq, Structural)]
pub struct StackFrame {
    /// Address of the instruction at which the interrupted code resumes.
    pub instruction_pointer: u64,
    /// Code segment selector of the interrupted code.
    pub code_segment: u64,
    /// Flags register at the time of the interrupt.
    pub cpu_flags: u64,
    /// Stack pointer at the time of the interrupt.
    pub stack_pointer: u64,
    /// Stack segment selector at the time of the interrupt.
    pub stack_segment: u64,
}

/// What a page fault's error code says about the access that faulted.
#[derive(Debug, Clone, Copy, PartialEq, Eq, Structural)]
pub struct PageFaultCause {
    /// The page was present and the access broke its protection; otherwise
    /// the page was not present.
    pub protection_violation: bool,
    /// The access was a write; otherwise a read.
    pub caused_by_write: bool,
    /// The access came from user mode; otherwise from supervisor mode.
    pub user_mode: bool,
}

/// The cause that the bits of `error_code` stand for.
pub open spec fn page_fault_cause(error_code: u64) -> PageFaultCause {
    PageFaultCause {
        protection_violation: error_code & 0x1 != 0,
        caused_by_write: error_code & 0x2 != 0,
        user_mode: error_code & 0x4 != 0,
    }
}

/// Reads the cause of a page fault from its error code.
pub fn decode_page_fault_error(error_code: u64) -> (cause: PageFaultCause)
    ensures
        cause == page_fault_cause(error_code),
{
    PageFaultCause {
        protection_violation: error_code & 0x1 != 0,
        caused_by_write: error_code & 0x2 != 0,
        user_mode: error_code & 0x4 != 0,
    }
}

/// The exceptions that have a handler.
#[derive(Debug, Clone, Copy, PartialEq, Eq, Structural)]
pub enum Exception {
    /// A breakpoint instruction was executed.
    Breakpoint,
    /// A fault occurred while another fault was being delivered.
    DoubleFault,
    /// An access to `accessed_address` faulted for `cause`.
    PageFault { accessed_address: u64, cause: PageFaultCause },
}

/// What the kernel does once an exception has been reported.
#[derive(Debug, Clone, Copy, PartialEq, Eq, Structural)]
pub enum Disposition {
    /// Return to the interrupted code.
    Resume,
    /// Stop: the interrupted code cannot go on.
    Halt,
}

/// What a handler reports of an exception, and what follows.
#[derive(Debug, Clone, Copy, PartialEq, Eq, Structural)]
pub struct ExceptionReport {
    /// The exception that occurred.
    pub exception: Exception,
    /// The interrupted context.
    pub frame: StackFrame,
    /// Whether the interrupted code resumes.
    pub disposition: Disposition,
}

/// A breakpoint is reported with the interrupted context, and the
/// interrupted code resumes.
pub fn breakpoint_handler(stack_frame: StackFrame) -> (report: ExceptionReport)
    ensures
        report == (ExceptionReport {
            exception: Exception::Breakpoint,
            frame: stack_frame,
            disposition: Disposition::Resume,
        }),
{
    ExceptionReport {
        exception: Exception::Breakpoint,
        frame: stack_frame,
        disposition: Disposition::Resume,
    }
}

/// A double fault is reported with the interrupted context, and the system
/// halts.
pub fn double_fault_handler(stack_frame: StackFrame, _error_code: u64) -> (report: ExceptionReport)
    ensures
        report == (ExceptionReport {
            exception: Exception::DoubleFault,
            frame: stack_frame,
            disposition: Disposition::Halt,
        }),
{
    ExceptionReport {
        exception: Exception::DoubleFault,
        frame: stack_frame,
        disposition: Disposition::Halt,
    }
}

/// A page fault is reported with the address whose access faulted, the cause
/// read from the error code and the interrupted context; the system halts,
/// as the fault is not resolved.
pub fn page_fault_handler(stack_frame: StackFrame, error_code: u64, accessed_address: u64) -> (report:
    ExceptionReport)
    ensures
        report == (ExceptionReport {
            exception: Exception::PageFault {
                accessed_address,
                cause: page_fault_cause(error_code),
            },
            frame: stack_frame,
            disposition: Disposition::Halt,
        }),
{
    ExceptionReport {
        exception: Exception::PageFault {
            accessed_address,
            cause: decode_page_fault_error(error_code),
        },
        frame: stack_frame,
        disposition: Disposition::Halt,
    }
}

/// What a hardware interrupt handler leaves to be done: the text to show and
/// the controllers to acknowledge.
#[derive(Debug, PartialEq, Eq)]
pub struct InterruptOutcome {
    /// Text for the screen, if the interrupt produced any.
    pub output: Option<ScreenText>,
    /// The controllers that must be told that the interrupt has been handled.
    pub end_of_interrupt: EndOfInterrupt,
}

/// The timer interrupt shows a dot and acknowledges the timer's vector.
pub fn timer_interrupt_handler(controller: &InterruptController) -> (outcome: InterruptOutcome)
    requires
        controller.well_formed(),
    ensures
        outcome.output == Some(ScreenText::Character('.')),
        outcome.end_of_interrupt == controller.acknowledgement(InterruptIndex::Timer.vector()),
{
    InterruptOutcome {
        output: Some(ScreenText::Character('.')),
        end_of_interrupt: controller.notify_end_of_interrupt(InterruptIndex::Timer.as_u8()),
    }
}

/// The keyboard interrupt feeds the scancode read from the keyboard to the
/// decoder once, shows the keystroke of the event that the byte completed,
/// if it completed one, and acknowledges the keyboard's vector whether or
/// not a key was completed. The scancode of a release shows nothing.
pub fn keyboard_interrupt_handler(
    decoder: &mut Decoder,
    controller: &InterruptController,
    scancode: u8,
) -> (outcome: InterruptOutcome)
    requires
        controller.well_formed(),
    ensures
        decodes_to(old(decoder)@, scancode, final(decoder)@, outcome.output),
        outcome.end_of_interrupt == controller.acknowledgement(InterruptIndex::Keyboard.vector()),
        scancode >= 0x80 ==> outcome.output.is_none(),
{
    let output = decoder.decode(scancode);
    InterruptOutcome {
        output,
        end_of_interrupt: controller.notify_end_of_interrupt(InterruptIndex::Keyboard.as_u8()),
    }
}

} // verus!
