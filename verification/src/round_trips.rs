//! What holds when requests meet the reference processor: a value written
//! comes back when read, and an operand arrives as it was sent.

use vstd::prelude::*;
use crate::descriptor::{lemma_parse_of_layout, DescriptorTablePointer};
use crate::halves::{joined, lemma_join_of_halves, lemma_halves_of_join, lower, upper};
use crate::instructions::{Instruction, Width};
use crate::machine::MachineState;

verus! {

/// Writing a value to a model-specific register that exists and then reading
/// that register gives the value back, and neither instruction is refused.
pub proof fn lemma_msr_round_trip(state: MachineState, msr: u32, value: u64)
    requires
        state.msrs.contains_key(msr),
    ensures
        ({
            let write = Instruction::Wrmsr { ecx: msr, eax: lower(value), edx: upper(value) };
            let read = Instruction::Rdmsr { ecx: msr };
            let outputs = state.after(write).outputs(read);
            &&& !state.faults(write)
            &&& !state.after(write).faults(read)
            &&& state.after(write).after(read) == state.after(write)
            &&& joined(outputs.edx, outputs.eax) == value
        }),
{
    lemma_join_of_halves(value);
    lemma_halves_of_join(upper(value), lower(value));
}

/// Both timestamp reads give the counter, split over `edx:eax`, and change
/// nothing.
pub proof fn lemma_timestamp_read(state: MachineState)
    ensures
        joined(state.outputs(Instruction::Rdtsc).edx, state.outputs(Instruction::Rdtsc).eax)
            == state.tsc,
        joined(state.outputs(Instruction::Rdtscp).edx, state.outputs(Instruction::Rdtscp).eax)
            == state.tsc,
        state.after(Instruction::Rdtsc) == state,
        state.after(Instruction::Rdtscp) == state,
{
    lemma_join_of_halves(state.tsc);
}

/// A byte written to a port is the byte read from it next.
pub proof fn lemma_byte_round_trip(state: MachineState, port: u16, val: u8)
    ensures
        ({
            let write = Instruction::Out { width: Width::Byte, dx: port, eax: val as u32 };
            let read = Instruction::In { width: Width::Byte, dx: port };
            &&& !state.faults(write)
            &&& !state.after(write).faults(read)
            &&& state.after(write).outputs(read).eax == val as u32
            &&& Width::Byte.part(state.after(write).outputs(read).eax) == val as u32
        }),
{
    assert((val as u32) & 0xff == val as u32) by (bit_vector);
}

/// A word written to a port is the word read from it next.
pub proof fn lemma_word_round_trip(state: MachineState, port: u16, val: u16)
    ensures
        ({
            let write = Instruction::Out { width: Width::Word, dx: port, eax: val as u32 };
            let read = Instruction::In { width: Width::Word, dx: port };
            &&& !state.faults(write)
            &&& !state.after(write).faults(read)
            &&& state.after(write).outputs(read).eax == val as u32
            &&& Width::Word.part(state.after(write).outputs(read).eax) == val as u32
        }),
{
    assert((val as u32) & 0xffff == val as u32) by (bit_vector);
}

/// A doubleword written to a port is the doubleword read from it next.
pub proof fn lemma_dword_round_trip(state: MachineState, port: u16, val: u32)
    ensures
        ({
            let write = Instruction::Out { width: Width::Dword, dx: port, eax: val };
            let read = Instruction::In { width: Width::Dword, dx: port };
            &&& !state.faults(write)
            &&& !state.after(write).faults(read)
            &&& state.after(write).outputs(read).eax == val
        }),
{
}

/// A table load whose memory image is the layout of `pointer` leaves exactly
/// `pointer` in the register it loads, and the other two registers alone.
pub proof fn lemma_table_load(state: MachineState, pointer: DescriptorTablePointer, load: Instruction)
    requires
        match load {
            Instruction::Lgdt { image } | Instruction::Lldt { image } | Instruction::Lidt {
                image,
            } => image@ == pointer.layout(),
            _ => false,
        },
    ensures
        !state.faults(load),
        load is Lgdt ==> state.after(load) == (MachineState { gdtr: pointer, ..state }),
        load is Lldt ==> state.after(load) == (MachineState { ldtr: pointer, ..state }),
        load is Lidt ==> state.after(load) == (MachineState { idtr: pointer, ..state }),
{
    lemma_parse_of_layout(pointer);
}

} // verus!
