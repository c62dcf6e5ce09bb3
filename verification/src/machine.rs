//! A reference processor.
//!
//! `Machine` holds the state that the primitives act on: the interrupt flag,
//! the table registers, the task register, the timestamp counter, a bank of
//! model-specific registers and the I/O ports. Every port is a loop-back
//! latch: it keeps the last unit written to it and gives that unit back when
//! read. Every unit that crosses a port is recorded.
//!
//! `MachineState` is the mathematical state; `after`, `outputs` and `faults`
//! say what each instruction does to it.

use std::collections::HashMap;
use vstd::prelude::*;
use crate::descriptor::DescriptorTablePointer;
use crate::halves::{high_half, join, joined, low_half, lower, upper};
use crate::instructions::{Direction, Instruction, Outputs, Width};
use crate::port;

verus! {

broadcast use vstd::std_specs::hash::group_hash_axioms;

/// One unit that crossed a port.
#[derive(Clone, Copy, Debug, PartialEq, Eq, Structural)]
pub struct Transfer {
    pub direction: Direction,
    pub width: Width,
    pub port: u16,
    pub value: u32,
}

/// Why the processor refused an instruction.
#[derive(Clone, Copy, Debug, PartialEq, Eq, Structural)]
pub enum Fault {
    /// The instruction named a model-specific register that does not exist.
    GeneralProtection,
}

/// The state of the reference processor.
pub struct MachineState {
    /// The interrupt-enable flag.
    pub interrupts: bool,
    /// Whether the processor waits for an interrupt.
    pub halted: bool,
    /// The software interrupts raised so far, oldest first.
    pub raised: Seq<u8>,
    pub gdtr: DescriptorTablePointer,
    pub ldtr: DescriptorTablePointer,
    pub idtr: DescriptorTablePointer,
    /// The selector in the task register.
    pub task: u16,
    /// The timestamp counter.
    pub tsc: u64,
    /// The model-specific registers that exist, by index.
    pub msrs: Map<u32, u64>,
    /// The last unit written to each port that was written to.
    pub latches: Map<u16, u32>,
    /// Every unit that crossed a port, oldest first.
    pub log: Seq<Transfer>,
}

impl MachineState {
    /// The state after reset: flags clear, registers zero, no model-specific
    /// register, no port written to.
    pub open spec fn reset() -> MachineState {
        let empty = DescriptorTablePointer { limit: 0, base: 0 };
        MachineState {
            interrupts: false,
            halted: false,
            raised: Seq::empty(),
            gdtr: empty,
            ldtr: empty,
            idtr: empty,
            task: 0,
            tsc: 0,
            msrs: Map::empty(),
            latches: Map::empty(),
            log: Seq::empty(),
        }
    }

    /// What a read of `port` finds: the last unit written, or zero.
    pub open spec fn latch(self, port: u16) -> u32 {
        if self.latches.contains_key(port) {
            self.latches[port]
        } else {
            0
        }
    }

    /// Whether the processor refuses `instruction` in this state.
    pub open spec fn faults(self, instruction: Instruction) -> bool {
        match instruction {
            Instruction::Rdmsr { ecx } => !self.msrs.contains_key(ecx),
            Instruction::Wrmsr { ecx, .. } => !self.msrs.contains_key(ecx),
            _ => false,
        }
    }

    /// The state that `instruction` leaves behind. A refused instruction
    /// leaves the state as it was.
    pub open spec fn after(self, instruction: Instruction) -> MachineState {
        match instruction {
            Instruction::Sti => MachineState { interrupts: true, ..self },
            Instruction::Cli => MachineState { interrupts: false, ..self },
            Instruction::Int { vector } => MachineState { raised: self.raised.push(vector), ..self },
            Instruction::Lgdt { image } => MachineState {
                gdtr: DescriptorTablePointer::parsed(image@),
                ..self
            },
            Instruction::Lldt { image } => MachineState {
                ldtr: DescriptorTablePointer::parsed(image@),
                ..self
            },
            Instruction::Lidt { image } => MachineState {
                idtr: DescriptorTablePointer::parsed(image@),
                ..self
            },
            Instruction::Ltr { selector } => MachineState { task: selector, ..self },
            Instruction::Hlt => MachineState { halted: true, ..self },
            Instruction::Rdtsc | Instruction::Rdtscp | Instruction::Rdmsr { .. } => self,
            Instruction::Wrmsr { ecx, eax, edx } => if self.msrs.contains_key(ecx) {
                MachineState { msrs: self.msrs.insert(ecx, joined(edx, eax)), ..self }
            } else {
                self
            },
            Instruction::Out { width, dx, eax } => MachineState {
                latches: self.latches.insert(dx, width.part(eax)),
                log: self.log.push(
                    Transfer { direction: Direction::ToPort, width, port: dx, value: width.part(eax) },
                ),
                ..self
            },
            Instruction::In { width, dx } => MachineState {
                log: self.log.push(
                    Transfer {
                        direction: Direction::FromPort,
                        width,
                        port: dx,
                        value: width.part(self.latch(dx)),
                    },
                ),
                ..self
            },
        }
    }

    /// What `instruction` leaves in `eax` and `edx`.
    pub open spec fn outputs(self, instruction: Instruction) -> Outputs {
        match instruction {
            Instruction::Rdtsc | Instruction::Rdtscp => Outputs {
                eax: lower(self.tsc),
                edx: upper(self.tsc),
            },
            Instruction::Rdmsr { ecx } => if self.msrs.contains_key(ecx) {
                Outputs { eax: lower(self.msrs[ecx]), edx: upper(self.msrs[ecx]) }
            } else {
                Outputs { eax: 0, edx: 0 }
            },
            Instruction::In { width, dx } => Outputs { eax: width.part(self.latch(dx)), edx: 0 },
            _ => Outputs { eax: 0, edx: 0 },
        }
    }

    /// The state after `units` went out through port `dx`, one `out` each, in
    /// order.
    pub open spec fn after_outs(self, width: Width, dx: u16, units: Seq<u32>) -> MachineState
        decreases units.len(),
    {
        if units.len() == 0 {
            self
        } else {
            self.after_outs(width, dx, units.drop_last()).after(
                Instruction::Out { width, dx, eax: units.last() },
            )
        }
    }

    /// The state after `count` units came in through port `dx`, one `in` each.
    pub open spec fn after_ins(self, width: Width, dx: u16, count: nat) -> MachineState
        decreases count,
    {
        if count == 0 {
            self
        } else {
            self.after_ins(width, dx, (count - 1) as nat).after(Instruction::In { width, dx })
        }
    }
}

/// The reference processor.
#[derive(Debug)]
pub struct Machine {
    interrupts: bool,
    halted: bool,
    raised: Vec<u8>,
    gdtr: DescriptorTablePointer,
    ldtr: DescriptorTablePointer,
    idtr: DescriptorTablePointer,
    task: u16,
    tsc: u64,
    msrs: HashMap<u32, u64>,
    latches: HashMap<u16, u32>,
    log: Vec<Transfer>,
}

impl View for Machine {
    type V = MachineState;

    closed spec fn view(&self) -> MachineState {
        MachineState {
            interrupts: self.interrupts,
            halted: self.halted,
            raised: self.raised@,
            gdtr: self.gdtr,
            ldtr: self.ldtr,
            idtr: self.idtr,
            task: self.task,
            tsc: self.tsc,
            msrs: self.msrs@,
            latches: self.latches@,
            log: self.log@,
        }
    }
}

impl Machine {
    /// A processor after reset.
    pub fn new() -> (machine: Machine)
        ensures
            machine@ == MachineState::reset(),
    {
        let empty = DescriptorTablePointer { limit: 0, base: 0 };
        let machine = Machine {
            interrupts: false,
            halted: false,
            raised: Vec::new(),
            gdtr: empty,
            ldtr: empty,
            idtr: empty,
            task: 0,
            tsc: 0,
            msrs: HashMap::new(),
            latches: HashMap::new(),
            log: Vec::new(),
        };
        assert(machine@ =~= MachineState::reset());
        machine
    }

    /// Gives the processor the model-specific register `index`, holding
    /// `value`.
    pub fn install_msr(&mut self, index: u32, value: u64)
        ensures
            final(self)@ == (MachineState { msrs: old(self)@.msrs.insert(index, value), ..old(self)@ }),
    {
        self.msrs.insert(index, value);
    }

    /// Sets the timestamp counter.
    pub fn set_timestamp(&mut self, count: u64)
        ensures
            final(self)@ == (MachineState { tsc: count, ..old(self)@ }),
    {
        self.tsc = count;
    }

    /// Performs one instruction.
    pub fn execute(&mut self, instruction: Instruction) -> (result: Result<Outputs, Fault>)
        ensures
            match result {
                Ok(outputs) => {
                    &&& !old(self)@.faults(instruction)
                    &&& final(self)@ == old(self)@.after(instruction)
                    &&& outputs == old(self)@.outputs(instruction)
                },
                Err(fault) => {
                    &&& old(self)@.faults(instruction)
                    &&& fault == Fault::GeneralProtection
                    &&& final(self)@ == old(self)@
                },
            },
    {
        let none = Outputs { eax: 0, edx: 0 };
        let result = match instruction {
            Instruction::Sti => {
                self.interrupts = true;
                Ok(none)
            },
            Instruction::Cli => {
                self.interrupts = false;
                Ok(none)
            },
            Instruction::Int { vector } => {
                self.raised.push(vector);
                Ok(none)
            },
            Instruction::Lgdt { image } => {
                self.gdtr = DescriptorTablePointer::from_bytes(&image);
                Ok(none)
            },
            Instruction::Lldt { image } => {
                self.ldtr = DescriptorTablePointer::from_bytes(&image);
                Ok(none)
            },
            Instruction::Lidt { image } => {
                self.idtr = DescriptorTablePointer::from_bytes(&image);
                Ok(none)
            },
            Instruction::Ltr { selector } => {
                self.task = selector;
                Ok(none)
            },
            Instruction::Hlt => {
                self.halted = true;
                Ok(none)
            },
            Instruction::Rdtsc | Instruction::Rdtscp => {
                Ok(Outputs { eax: low_half(self.tsc), edx: high_half(self.tsc) })
            },
            Instruction::Rdmsr { ecx } => {
                match self.msrs.get(&ecx) {
                    Some(value) => Ok(Outputs { eax: low_half(*value), edx: high_half(*value) }),
                    None => Err(Fault::GeneralProtection),
                }
            },
            Instruction::Wrmsr { ecx, eax, edx } => {
                if self.msrs.contains_key(&ecx) {
                    self.msrs.insert(ecx, join(edx, eax));
                    Ok(none)
                } else {
                    Err(Fault::GeneralProtection)
                }
            },
            Instruction::Out { width, dx, eax } => {
                let unit: u32 = width.truncate(eax);
                self.latches.insert(dx, unit);
                self.log.push(Transfer { direction: Direction::ToPort, width, port: dx, value: unit });
                Ok(none)
            },
            Instruction::In { width, dx } => {
                let unit: u32 = width.truncate(self.latch(dx));
                self.log.push(
                    Transfer { direction: Direction::FromPort, width, port: dx, value: unit },
                );
                Ok(Outputs { eax: unit, edx: 0 })
            },
        };
        assert(result is Ok ==> self@ =~= old(self)@.after(instruction));
        assert(result is Err ==> self@ =~= old(self)@);
        result
    }

    /// Performs `rep outsb`: every byte of `buf`, in order, goes out through
    /// `port`.
    pub fn outsb(&mut self, port: u16, buf: &[u8])
        ensures
            final(self)@ == old(self)@.after_outs(Width::Byte, port, units_of_bytes(buf@)),
            final(self)@.log.len() == old(self)@.log.len() + buf@.len(),
    {
        let ghost before = self@;
        let ghost units = units_of_bytes(buf@);
        let request = port::outsb(port, buf);
        let mut done: usize = 0;
        while done < request.count
            invariant
                done <= request.count == buf@.len(),
                request.dx == port,
                units == units_of_bytes(buf@),
                self@ == before.after_outs(Width::Byte, port, units.take(done as int)),
            decreases request.count - done,
        {
            let _ = self.execute(port::outb(request.dx, buf[done]));
            proof {
                assert(units.take(done + 1).drop_last() =~= units.take(done as int));
            }
            done += 1;
        }
        proof {
            assert(units.take(done as int) =~= units);
            lemma_outs_log(before, Width::Byte, port, units);
        }
    }

    /// Performs `rep outsw`: every word of `buf`, in order, goes out through
    /// `port`.
    pub fn outsw(&mut self, port: u16, buf: &[u16])
        ensures
            final(self)@ == old(self)@.after_outs(Width::Word, port, units_of_words(buf@)),
            final(self)@.log.len() == old(self)@.log.len() + buf@.len(),
    {
        let ghost before = self@;
        let ghost units = units_of_words(buf@);
        let request = port::outsw(port, buf);
        let mut done: usize = 0;
        while done < request.count
            invariant
                done <= request.count == buf@.len(),
                request.dx == port,
                units == units_of_words(buf@),
                self@ == before.after_outs(Width::Word, port, units.take(done as int)),
            decreases request.count - done,
        {
            let _ = self.execute(port::outw(request.dx, buf[done]));
            proof {
                assert(units.take(done + 1).drop_last() =~= units.take(done as int));
            }
            done += 1;
        }
        proof {
            assert(units.take(done as int) =~= units);
            lemma_outs_log(before, Width::Word, port, units);
        }
    }

    /// Performs `rep outsl`: every doubleword of `buf`, in order, goes out
    /// through `port`.
    pub fn outsl(&mut self, port: u16, buf: &[u32])
        ensures
            final(self)@ == old(self)@.after_outs(Width::Dword, port, buf@),
            final(self)@.log.len() == old(self)@.log.len() + buf@.len(),
    {
        let ghost before = self@;
        let request = port::outsl(port, buf);
        let mut done: usize = 0;
        while done < request.count
            invariant
                done <= request.count == buf@.len(),
                request.dx == port,
                self@ == before.after_outs(Width::Dword, port, buf@.take(done as int)),
            decreases request.count - done,
        {
            let _ = self.execute(port::outl(request.dx, buf[done]));
            proof {
                assert(buf@.take(done + 1).drop_last() =~= buf@.take(done as int));
            }
            done += 1;
        }
        proof {
            assert(buf@.take(done as int) =~= buf@);
            lemma_outs_log(before, Width::Dword, port, buf@);
        }
    }

    /// Performs `rep insb`: every byte of `buf` is filled, in order, with a
    /// unit read from `port`.
    pub fn insb(&mut self, port: u16, buf: &mut [u8])
        ensures
            final(buf)@.len() == old(buf)@.len(),
            forall|i: int|
                0 <= i < old(buf)@.len() ==> final(buf)@[i] as u32 == Width::Byte.part(
                    old(self)@.latch(port),
                ),
            final(self)@ == old(self)@.after_ins(Width::Byte, port, old(buf)@.len()),
            final(self)@.log.len() == old(self)@.log.len() + old(buf)@.len(),
    {
        let ghost before = self@;
        let request = port::insb(port, buf);
        let mut done: usize = 0;
        while done < request.count
            invariant
                done <= request.count == buf@.len(),
                request.dx == port,
                self@ == before.after_ins(Width::Byte, port, done as nat),
                forall|i: int|
                    0 <= i < done ==> buf@[i] as u32 == Width::Byte.part(before.latch(port)),
            decreases request.count - done,
        {
            proof {
                lemma_ins_log(before, Width::Byte, port, done as nat);
                lemma_part_of_part(Width::Byte, before.latch(port));
            }
            if let Ok(outputs) = self.execute(port::inb(request.dx)) {
                buf[done] = outputs.al();
            }
            done += 1;
        }
        proof {
            lemma_ins_log(before, Width::Byte, port, done as nat);
        }
    }

    /// Performs `rep insw`: every word of `buf` is filled, in order, with a
    /// unit read from `port`.
    pub fn insw(&mut self, port: u16, buf: &mut [u16])
        ensures
            final(buf)@.len() == old(buf)@.len(),
            forall|i: int|
                0 <= i < old(buf)@.len() ==> final(buf)@[i] as u32 == Width::Word.part(
                    old(self)@.latch(port),
                ),
            final(self)@ == old(self)@.after_ins(Width::Word, port, old(buf)@.len()),
            final(self)@.log.len() == old(self)@.log.len() + old(buf)@.len(),
    {
        let ghost before = self@;
        let request = port::insw(port, buf);
        let mut done: usize = 0;
        while done < request.count
            invariant
                done <= request.count == buf@.len(),
                request.dx == port,
                self@ == before.after_ins(Width::Word, port, done as nat),
                forall|i: int|
                    0 <= i < done ==> buf@[i] as u32 == Width::Word.part(before.latch(port)),
            decreases request.count - done,
        {
            proof {
                lemma_ins_log(before, Width::Word, port, done as nat);
                lemma_part_of_part(Width::Word, before.latch(port));
            }
            if let Ok(outputs) = self.execute(port::inw(request.dx)) {
                buf[done] = outputs.ax();
            }
            done += 1;
        }
        proof {
            lemma_ins_log(before, Width::Word, port, done as nat);
        }
    }

    /// Performs `rep insl`: every doubleword of `buf` is filled, in order,
    /// with a unit read from `port`.
    pub fn insl(&mut self, port: u16, buf: &mut [u32])
        ensures
            final(buf)@.len() == old(buf)@.len(),
            forall|i: int| 0 <= i < old(buf)@.len() ==> final(buf)@[i] == old(self)@.latch(port),
            final(self)@ == old(self)@.after_ins(Width::Dword, port, old(buf)@.len()),
            final(self)@.log.len() == old(self)@.log.len() + old(buf)@.len(),
    {
        let ghost before = self@;
        let request = port::insl(port, buf);
        let mut done: usize = 0;
        while done < request.count
            invariant
                done <= request.count == buf@.len(),
                request.dx == port,
                self@ == before.after_ins(Width::Dword, port, done as nat),
                forall|i: int| 0 <= i < done ==> buf@[i] == before.latch(port),
            decreases request.count - done,
        {
            proof {
                lemma_ins_log(before, Width::Dword, port, done as nat);
            }
            if let Ok(outputs) = self.execute(port::inl(request.dx)) {
                buf[done] = outputs.eax;
            }
            done += 1;
        }
        proof {
            lemma_ins_log(before, Width::Dword, port, done as nat);
        }
    }

    /// What a read of `port` finds: the last unit written, or zero.
    pub fn latch(&self, port: u16) -> (unit: u32)
        ensures
            unit == self@.latch(port),
    {
        match self.latches.get(&port) {
            Some(unit) => *unit,
            None => 0,
        }
    }

    /// Whether the interrupt-enable flag is set.
    pub fn interrupts_enabled(&self) -> (flag: bool)
        ensures
            flag == self@.interrupts,
    {
        self.interrupts
    }

    /// Whether the processor waits for an interrupt.
    pub fn is_halted(&self) -> (halted: bool)
        ensures
            halted == self@.halted,
    {
        self.halted
    }

    /// The software interrupt raised last, if any was.
    pub fn last_raised(&self) -> (vector: Option<u8>)
        ensures
            vector == if self@.raised.len() == 0 {
                None
            } else {
                Some(self@.raised.last())
            },
    {
        let count: usize = self.raised.len();
        if count == 0 {
            None
        } else {
            Some(self.raised[count - 1])
        }
    }

    /// The global descriptor-table register.
    pub fn gdtr(&self) -> (pointer: DescriptorTablePointer)
        ensures
            pointer == self@.gdtr,
    {
        self.gdtr
    }

    /// The local descriptor-table register.
    pub fn ldtr(&self) -> (pointer: DescriptorTablePointer)
        ensures
            pointer == self@.ldtr,
    {
        self.ldtr
    }

    /// The interrupt descriptor-table register.
    pub fn idtr(&self) -> (pointer: DescriptorTablePointer)
        ensures
            pointer == self@.idtr,
    {
        self.idtr
    }

    /// The selector in the task register.
    pub fn task_register(&self) -> (selector: u16)
        ensures
            selector == self@.task,
    {
        self.task
    }

    /// The model-specific register `index`, if it exists.
    pub fn msr(&self, index: u32) -> (value: Option<u64>)
        ensures
            value == if self@.msrs.contains_key(index) {
                Some(self@.msrs[index])
            } else {
                None
            },
    {
        match self.msrs.get(&index) {
            Some(value) => Some(*value),
            None => None,
        }
    }

    /// How many units crossed a port so far.
    pub fn transfers(&self) -> (count: usize)
        ensures
            count == self@.log.len(),
    {
        self.log.len()
    }

    /// The unit that crossed a port as number `index`, counted from zero.
    pub fn transfer(&self, index: usize) -> (unit: Option<Transfer>)
        ensures
            unit == if index < self@.log.len() {
                Some(self@.log[index as int])
            } else {
                None
            },
    {
        if index < self.log.len() {
            Some(self.log[index])
        } else {
            None
        }
    }
}

/// The bytes of a buffer as the units that go through `al`.
pub open spec fn units_of_bytes(buf: Seq<u8>) -> Seq<u32> {
    Seq::new(buf.len(), |i: int| buf[i] as u32)
}

/// The words of a buffer as the units that go through `ax`.
pub open spec fn units_of_words(buf: Seq<u16>) -> Seq<u32> {
    Seq::new(buf.len(), |i: int| buf[i] as u32)
}

/// Taking the part of a part changes nothing.
pub proof fn lemma_part_of_part(width: Width, eax: u32)
    ensures
        width.part(width.part(eax)) == width.part(eax),
{
    assert((eax & 0xff) & 0xff == eax & 0xff) by (bit_vector);
    assert((eax & 0xffff) & 0xffff == eax & 0xffff) by (bit_vector);
}

/// A string write records one transfer for each unit and touches nothing but
/// the ports.
pub proof fn lemma_outs_log(state: MachineState, width: Width, dx: u16, units: Seq<u32>)
    ensures
        state.after_outs(width, dx, units).log.len() == state.log.len() + units.len(),
        forall|i: int|
            state.log.len() <= i < state.log.len() + units.len() ==> #[trigger] state.after_outs(
                width,
                dx,
                units,
            ).log[i] == (Transfer {
                direction: Direction::ToPort,
                width,
                port: dx,
                value: width.part(units[i - state.log.len()]),
            }),
        forall|i: int|
            0 <= i < state.log.len() ==> #[trigger] state.after_outs(width, dx, units).log[i]
                == state.log[i],
        units.len() > 0 ==> state.after_outs(width, dx, units).latch(dx) == width.part(units.last()),
        state.after_outs(width, dx, units).msrs == state.msrs,
    decreases units.len(),
{
    if units.len() > 0 {
        lemma_outs_log(state, width, dx, units.drop_last());
    }
}

/// A string read records one transfer for each unit, reads the same latch
/// every time, and leaves the latches as they were.
pub proof fn lemma_ins_log(state: MachineState, width: Width, dx: u16, count: nat)
    ensures
        state.after_ins(width, dx, count).log.len() == state.log.len() + count,
        forall|i: int|
            state.log.len() <= i < state.log.len() + count ==> #[trigger] state.after_ins(
                width,
                dx,
                count,
            ).log[i] == (Transfer {
                direction: Direction::FromPort,
                width,
                port: dx,
                value: width.part(state.latch(dx)),
            }),
        forall|i: int|
            0 <= i < state.log.len() ==> #[trigger] state.after_ins(width, dx, count).log[i]
                == state.log[i],
        state.after_ins(width, dx, count).latches == state.latches,
        state.after_ins(width, dx, count).msrs == state.msrs,
    decreases count,
{
    if count > 0 {
        lemma_ins_log(state, width, dx, (count - 1) as nat);
    }
}

} // verus!
