//! The requests that the primitives make of the processor.
//!
//! A request names one instruction and holds each operand in the register, or
//! memory image, from which the instruction takes it. Nothing here touches the
//! processor: a request is issued by whoever runs with the privilege to do so.

use vstd::prelude::*;
use crate::descriptor::DescriptorTablePointer;
use crate::halves::{high_half, join, joined, low_half, lower, upper};
use crate::selector::SegmentSelector;

verus! {

/// The size of one unit moved through an I/O port.
#[derive(Clone, Copy, Debug, PartialEq, Eq, Structural)]
pub enum Width {
    /// 8 bits, through `al`.
    Byte,
    /// 16 bits, through `ax`.
    Word,
    /// 32 bits, through `eax`.
    Dword,
}

impl Width {
    /// The part of `eax` that a transfer of this width uses.
    pub open spec fn part(self, eax: u32) -> u32 {
        match self {
            Width::Byte => eax & 0xff,
            Width::Word => eax & 0xffff,
            Width::Dword => eax,
        }
    }

    /// The part of `eax` that a transfer of this width uses.
    pub fn truncate(self, eax: u32) -> (unit: u32)
        ensures
            unit == self.part(eax),
    {
        match self {
            Width::Byte => eax & 0xff,
            Width::Word => eax & 0xffff,
            Width::Dword => eax,
        }
    }
}

/// One instruction together with its register and memory operands.
#[derive(Clone, Copy, Debug, PartialEq, Eq)]
pub enum Instruction {
    /// `sti`: set the interrupt-enable flag.
    Sti,
    /// `cli`: clear the interrupt-enable flag.
    Cli,
    /// `int`: raise the software interrupt `vector`, an immediate operand.
    Int { vector: u8 },
    /// `lgdt`: load the global descriptor-table register from a memory image.
    Lgdt { image: [u8; 10] },
    /// `lldt`: load the local descriptor-table register from a memory image.
    Lldt { image: [u8; 10] },
    /// `lidt`: load the interrupt descriptor-table register from a memory image.
    Lidt { image: [u8; 10] },
    /// `ltr`: load the task register with `selector`.
    Ltr { selector: u16 },
    /// `hlt`: stop until the next interrupt.
    Hlt,
    /// `rdtsc`: read the timestamp counter into `edx:eax`.
    Rdtsc,
    /// `rdtscp`: read the timestamp counter into `edx:eax` once every earlier
    /// instruction has completed.
    Rdtscp,
    /// `rdmsr`: read the model-specific register `ecx` into `edx:eax`.
    Rdmsr { ecx: u32 },
    /// `wrmsr`: write `edx:eax` to the model-specific register `ecx`.
    Wrmsr { ecx: u32, eax: u32, edx: u32 },
    /// `out`: write the `width` part of `eax` to port `dx`.
    Out { width: Width, dx: u16, eax: u32 },
    /// `in`: read one unit of `width` from port `dx` into `eax`.
    In { width: Width, dx: u16 },
}

impl Instruction {
    /// Whether the compiler must keep every memory access on its own side of
    /// the instruction: the table loads read their operand from memory, `hlt`
    /// and `rdtscp` are used for their place in the instruction stream, and a
    /// model-specific register may stand for state that memory accesses see.
    pub open spec fn is_barrier(self) -> bool {
        match self {
            Instruction::Lgdt { .. } | Instruction::Lldt { .. } | Instruction::Lidt { .. } => true,
            Instruction::Hlt | Instruction::Rdtscp => true,
            Instruction::Rdmsr { .. } | Instruction::Wrmsr { .. } => true,
            _ => false,
        }
    }

    /// Whether the compiler must keep every memory access on its own side of
    /// the instruction.
    pub fn orders_memory(&self) -> (barrier: bool)
        ensures
            barrier == self.is_barrier(),
    {
        match self {
            Instruction::Lgdt { .. } | Instruction::Lldt { .. } | Instruction::Lidt { .. } => true,
            Instruction::Hlt | Instruction::Rdtscp => true,
            Instruction::Rdmsr { .. } | Instruction::Wrmsr { .. } => true,
            _ => false,
        }
    }
}

/// The direction of a string transfer.
#[derive(Clone, Copy, Debug, PartialEq, Eq, Structural)]
pub enum Direction {
    /// From memory to the port (`rep outs`).
    ToPort,
    /// From the port to memory (`rep ins`).
    FromPort,
}

/// A repeated port transfer between one port and a run of units in memory.
/// The address of the run goes to `esi` (to the port) or `edi` (from the
/// port) when the request is issued; the instruction reads or writes memory,
/// so the compiler must order memory accesses around it in both directions.
#[derive(Clone, Copy, Debug, PartialEq, Eq, Structural)]
pub struct StringInstruction {
    pub direction: Direction,
    pub width: Width,
    /// The port, in `dx`.
    pub dx: u16,
    /// The number of units to move, in `ecx`.
    pub count: usize,
}

/// What an instruction left in `eax` and `edx`. Both are zero where the
/// instruction writes neither.
#[derive(Clone, Copy, Debug, PartialEq, Eq, Structural)]
pub struct Outputs {
    pub eax: u32,
    pub edx: u32,
}

impl Outputs {
    /// The 64-bit value in `edx:eax`: `edx` shifted into the upper 32 bits,
    /// `eax` in the lower 32.
    pub fn edx_eax(&self) -> (value: u64)
        ensures
            value == joined(self.edx, self.eax),
            value == ((self.edx as u64) << 32) | (self.eax as u64),
    {
        join(self.edx, self.eax)
    }

    /// The 8-bit value in `al`.
    pub fn al(&self) -> (value: u8)
        ensures
            value as u32 == Width::Byte.part(self.eax),
    {
        let eax: u32 = self.eax;
        assert(eax & 0xff <= 0xff) by (bit_vector);
        (eax & 0xff) as u8
    }

    /// The 16-bit value in `ax`.
    pub fn ax(&self) -> (value: u16)
        ensures
            value as u32 == Width::Word.part(self.eax),
    {
        let eax: u32 = self.eax;
        assert(eax & 0xffff <= 0xffff) by (bit_vector);
        (eax & 0xffff) as u16
    }
}

/// Allow hardware interrupts from here on.
pub fn enable_interrupts() -> (request: Instruction)
    ensures
        request == Instruction::Sti,
{
    Instruction::Sti
}

/// Suppress hardware interrupts from here on.
pub fn disable_interrupts() -> (request: Instruction)
    ensures
        request == Instruction::Cli,
{
    Instruction::Cli
}

/// Raise the software interrupt `VECTOR`. The instruction encodes the vector
/// in its own bytes, so it is a constant of the call and never a value
/// computed while the program runs.
pub fn software_interrupt<const VECTOR: u8>() -> (request: Instruction)
    ensures
        request == (Instruction::Int { vector: VECTOR }),
{
    Instruction::Int { vector: VECTOR }
}

/// Load the global descriptor-table register from `gdt`.
pub fn lgdt(gdt: &DescriptorTablePointer) -> (request: Instruction)
    ensures
        request matches Instruction::Lgdt { image } && image@ == gdt.layout(),
{
    Instruction::Lgdt { image: gdt.to_bytes() }
}

/// Load the local descriptor-table register from `ldt`.
pub fn lldt(ldt: &DescriptorTablePointer) -> (request: Instruction)
    ensures
        request matches Instruction::Lldt { image } && image@ == ldt.layout(),
{
    Instruction::Lldt { image: ldt.to_bytes() }
}

/// Load the interrupt descriptor-table register from `idt`.
pub fn lidt(idt: &DescriptorTablePointer) -> (request: Instruction)
    ensures
        request matches Instruction::Lidt { image } && image@ == idt.layout(),
{
    Instruction::Lidt { image: idt.to_bytes() }
}

/// Load the task register with the selector of a task-state segment.
pub fn load_tss(sel: SegmentSelector) -> (request: Instruction)
    ensures
        request == (Instruction::Ltr { selector: sel@ }),
{
    Instruction::Ltr { selector: sel.bits() }
}

/// Stop the processor until the next interrupt.
pub fn halt() -> (request: Instruction)
    ensures
        request == Instruction::Hlt,
{
    Instruction::Hlt
}

/// Read the timestamp counter. The read is not ordered against the
/// instructions around it.
pub fn rdtsc() -> (request: Instruction)
    ensures
        request == Instruction::Rdtsc,
{
    Instruction::Rdtsc
}

/// Read the timestamp counter once every earlier instruction has completed.
pub fn rdtscp() -> (request: Instruction)
    ensures
        request == Instruction::Rdtscp,
{
    Instruction::Rdtscp
}

/// Write `value` to the model-specific register `msr`: the register's index
/// goes to `ecx`, the lower half of the value to `eax`, the upper to `edx`.
pub fn wrmsr(msr: u32, value: u64) -> (request: Instruction)
    ensures
        request == (Instruction::Wrmsr { ecx: msr, eax: lower(value), edx: upper(value) }),
{
    Instruction::Wrmsr { ecx: msr, eax: low_half(value), edx: high_half(value) }
}

/// Read the model-specific register `msr`, whose index goes to `ecx`.
pub fn rdmsr(msr: u32) -> (request: Instruction)
    ensures
        request == (Instruction::Rdmsr { ecx: msr }),
{
    Instruction::Rdmsr { ecx: msr }
}

} // verus!
