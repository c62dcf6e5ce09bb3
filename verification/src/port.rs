//! I/O port requests.
//!
//! The scalar forms move one unit through `al`, `ax` or `eax`. The string
//! forms move a whole buffer; how many units they move is the length of the
//! buffer and nothing else.

use vstd::prelude::*;
use crate::instructions::{Direction, Instruction, StringInstruction, Width};

verus! {

/// Write 8 bits to an I/O port.
pub fn outb(port: u16, val: u8) -> (request: Instruction)
    ensures
        request == (Instruction::Out { width: Width::Byte, dx: port, eax: val as u32 }),
{
    Instruction::Out { width: Width::Byte, dx: port, eax: val as u32 }
}

/// Read 8 bits from an I/O port; the value arrives in `al`.
pub fn inb(port: u16) -> (request: Instruction)
    ensures
        request == (Instruction::In { width: Width::Byte, dx: port }),
{
    Instruction::In { width: Width::Byte, dx: port }
}

/// Write 16 bits to an I/O port.
pub fn outw(port: u16, val: u16) -> (request: Instruction)
    ensures
        request == (Instruction::Out { width: Width::Word, dx: port, eax: val as u32 }),
{
    Instruction::Out { width: Width::Word, dx: port, eax: val as u32 }
}

/// Read 16 bits from an I/O port; the value arrives in `ax`.
pub fn inw(port: u16) -> (request: Instruction)
    ensures
        request == (Instruction::In { width: Width::Word, dx: port }),
{
    Instruction::In { width: Width::Word, dx: port }
}

/// Write 32 bits to an I/O port.
pub fn outl(port: u16, val: u32) -> (request: Instruction)
    ensures
        request == (Instruction::Out { width: Width::Dword, dx: port, eax: val }),
{
    Instruction::Out { width: Width::Dword, dx: port, eax: val }
}

/// Read 32 bits from an I/O port; the value arrives in `eax`.
pub fn inl(port: u16) -> (request: Instruction)
    ensures
        request == (Instruction::In { width: Width::Dword, dx: port }),
{
    Instruction::In { width: Width::Dword, dx: port }
}

/// Write an 8-bit array to an I/O port.
pub fn outsb(port: u16, buf: &[u8]) -> (request: StringInstruction)
    ensures
        request == (StringInstruction {
            direction: Direction::ToPort,
            width: Width::Byte,
            dx: port,
            count: buf@.len() as usize,
        }),
        request.count == buf@.len(),
{
    StringInstruction {
        direction: Direction::ToPort,
        width: Width::Byte,
        dx: port,
        count: buf.len(),
    }
}

/// Read an 8-bit array from an I/O port. The buffer keeps its length and,
/// until the request is issued, its contents.
pub fn insb(port: u16, buf: &mut [u8]) -> (request: StringInstruction)
    ensures
        request == (StringInstruction {
            direction: Direction::FromPort,
            width: Width::Byte,
            dx: port,
            count: old(buf)@.len() as usize,
        }),
        request.count == old(buf)@.len(),
        final(buf)@ == old(buf)@,
{
    StringInstruction {
        direction: Direction::FromPort,
        width: Width::Byte,
        dx: port,
        count: buf.len(),
    }
}

/// Write a 16-bit array to an I/O port.
pub fn outsw(port: u16, buf: &[u16]) -> (request: StringInstruction)
    ensures
        request == (StringInstruction {
            direction: Direction::ToPort,
            width: Width::Word,
            dx: port,
            count: buf@.len() as usize,
        }),
        request.count == buf@.len(),
{
    StringInstruction {
        direction: Direction::ToPort,
        width: Width::Word,
        dx: port,
        count: buf.len(),
    }
}

/// Read a 16-bit array from an I/O port. The buffer keeps its length and,
/// until the request is issued, its contents.
pub fn insw(port: u16, buf: &mut [u16]) -> (request: StringInstruction)
    ensures
        request == (StringInstruction {
            direction: Direction::FromPort,
            width: Width::Word,
            dx: port,
            count: old(buf)@.len() as usize,
        }),
        request.count == old(buf)@.len(),
        final(buf)@ == old(buf)@,
{
    StringInstruction {
        direction: Direction::FromPort,
        width: Width::Word,
        dx: port,
        count: buf.len(),
    }
}

/// Write a 32-bit array to an I/O port.
pub fn outsl(port: u16, buf: &[u32]) -> (request: StringInstruction)
    ensures
        request == (StringInstruction {
            direction: Direction::ToPort,
            width: Width::Dword,
            dx: port,
            count: buf@.len() as usize,
        }),
        request.count == buf@.len(),
{
    StringInstruction {
        direction: Direction::ToPort,
        width: Width::Dword,
        dx: port,
        count: buf.len(),
    }
}

/// Read a 32-bit array from an I/O port. The buffer keeps its length and,
/// until the request is issued, its contents.
pub fn insl(port: u16, buf: &mut [u32]) -> (request: StringInstruction)
    ensures
        request == (StringInstruction {
            direction: Direction::FromPort,
            width: Width::Dword,
            dx: port,
            count: old(buf)@.len() as usize,
        }),
        request.count == old(buf)@.len(),
        final(buf)@ == old(buf)@,
{
    StringInstruction {
        direction: Direction::FromPort,
        width: Width::Dword,
        dx: port,
        count: buf.len(),
    }
}

} // verus!
