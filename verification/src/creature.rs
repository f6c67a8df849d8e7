//! Per-agent state: the register memory and the tape state (DNA, current
//! offset, cycle counter), together with the decode loop that runs one tick.

use vstd::prelude::*;

use crate::instructions;
use crate::processor::Instruction;
use crate::processor::InstructionCall;
use crate::processor::Processor;
use crate::processor::ProcessorMemory;
use crate::processor::jump_after;
use crate::processor::dir_after;
use crate::processor::pos_after;
use crate::processor::regs_after;
use crate::processor::regs_of;
use crate::world::AgentAttrs;
use crate::world::CreatureDir;
use crate::world::CreaturePos;
use crate::world::WorldView;

verus! {

/// Represents the values in the creature's memory: three u64 word registers,
/// default zero, each independently readable and writable.
#[derive(Debug, Clone, PartialEq, Eq, Structural)]
pub struct CreatureMemory {
    /// Mem A.
    a: u64,
    /// Mem B.
    b: u64,
    /// Mem TMP.
    tmp: u64,
}

impl CreatureMemory {
    /// A zeroed register memory.
    pub fn new() -> (r: Self)
        ensures
            r.mem_a() == 0,
            r.mem_b() == 0,
            r.mem_tmp() == 0,
    {
        Self { a: 0, b: 0, tmp: 0 }
    }
}

impl Default for CreatureMemory {
    /// A zeroed register memory.
    fn default() -> (r: Self)
        ensures
            r.mem_a() == 0,
            r.mem_b() == 0,
            r.mem_tmp() == 0,
    {
        Self::new()
    }
}

impl ProcessorMemory for CreatureMemory {
    closed spec fn mem_a(&self) -> u64 {
        self.a
    }

    closed spec fn mem_b(&self) -> u64 {
        self.b
    }

    closed spec fn mem_tmp(&self) -> u64 {
        self.tmp
    }

    fn get_mem_a(&self) -> u64 {
        self.a
    }

    fn get_mem_b(&self) -> u64 {
        self.b
    }

    fn get_mem_tmp(&self) -> u64 {
        self.tmp
    }

    fn set_mem_a(&mut self, value: u64) {
        self.a = value;
    }

    fn set_mem_b(&mut self, value: u64) {
        self.b = value;
    }

    fn set_mem_tmp(&mut self, value: u64) {
        self.tmp = value;
    }
}

/// An agent's tape state: its instruction byte tape (DNA), the current offset
/// into it, and the count of completed instruction executions.
#[derive(Debug, Clone)]
pub struct Creature {
    cycle: u64,
    current: u64,
    instructions: Vec<u8>,
}

impl Creature {
    /// The count of completed instruction executions of this creature.
    pub closed spec fn spec_cycle(&self) -> u64 {
        self.cycle
    }

    /// The current 0-based offset into the tape.
    pub closed spec fn spec_current(&self) -> u64 {
        self.current
    }

    /// The instruction byte tape.
    pub closed spec fn tape(&self) -> Seq<u8> {
        self.instructions@
    }

    /// A creature with an empty tape.
    pub fn new() -> (r: Self)
        ensures
            r.spec_cycle() == 0,
            r.spec_current() == 0,
            r.tape() == Seq::<u8>::empty(),
    {
        Self::new_with(Vec::new())
    }

    /// A creature with the given instruction tape, starting at offset 0 with
    /// a zero cycle count.
    pub fn new_with(instructions: Vec<u8>) -> (r: Self)
        ensures
            r.spec_cycle() == 0,
            r.spec_current() == 0,
            r.tape() == instructions@,
    {
        Self {
            cycle: 0,
            current: 0,
            instructions,
        }
    }

    /// The count of completed instruction executions of this creature.
    pub fn get_cycle(&self) -> (r: u64)
        ensures
            r == self.spec_cycle(),
    {
        self.cycle
    }

    /// The current 0-based offset into the tape.
    pub fn get_current(&self) -> (r: u64)
        ensures
            r == self.spec_current(),
    {
        self.current
    }

    /// Read access to the instruction tape.
    pub fn get_instructions(&self) -> (r: &Vec<u8>)
        ensures
            r@ == self.tape(),
    {
        &self.instructions
    }

    /// Write access to the instruction tape, for the external mutation
    /// collaborator that may rewrite the DNA between ticks.
    pub fn get_instructions_mut(&mut self) -> (r: &mut Vec<u8>)
        ensures
            (*r)@ == old(self).tape(),
            final(self).tape() == (*final(r))@,
            final(self).spec_cycle() == old(self).spec_cycle(),
            final(self).spec_current() == old(self).spec_current(),
    {
        &mut self.instructions
    }
}

impl Default for Creature {
    /// A creature with an empty tape.
    fn default() -> (r: Self)
        ensures
            r.spec_cycle() == 0,
            r.spec_current() == 0,
            r.tape() == Seq::<u8>::empty(),
    {
        Self::new()
    }
}

/// The result of one decode-loop pass for one agent.
#[derive(Debug, Copy, Clone, PartialEq, Eq, Structural)]
pub enum TickOutcome {
    /// The decoded instruction was executed and the offset advanced.
    Executed(instructions::Instruction),
    /// The tape byte at the current offset has no assigned instruction; the
    /// tick was skipped and no state was mutated.
    UnknownOpcode(u8),
}

/// The tape offset actually read from, reduced modulo the tape length.
pub open spec fn spec_offset(current: u64, tape: Seq<u8>) -> int {
    (current as int) % (tape.len() as int)
}

/// The opcode byte at the current offset.
pub open spec fn spec_opcode(current: u64, tape: Seq<u8>) -> u8 {
    tape[spec_offset(current, tape)]
}

/// The `i`-th argument byte following the opcode, read circularly: past the
/// end of the tape the read wraps back to offset 0.
pub open spec fn spec_arg_byte(current: u64, tape: Seq<u8>, i: int) -> u8 {
    tape[(spec_offset(current, tape) + 1 + i) % (tape.len() as int)]
}

/// The offset the decode loop continues from: the requested jump target
/// modulo the tape length when the instruction is a taken jump, otherwise the
/// read offset advanced past the opcode and its argument bytes, modulo the
/// tape length.
pub open spec fn spec_next_current(
    current: u64,
    tape: Seq<u8>,
    inst: instructions::Instruction,
    arg0: u8,
    a: u64,
    b: u64,
) -> u64 {
    match jump_after(inst, arg0, a, b) {
        Some(t) => ((t as int) % (tape.len() as int)) as u64,
        None => ((spec_offset(current, tape) + 1 + instructions::spec_arity(inst) as int) % (
        tape.len() as int)) as u64,
    }
}

impl Creature {
    /// Runs one decode-loop pass for this creature: reads the opcode byte at
    /// the current offset (modulo the tape length), decodes it, consumes the
    /// declared number of argument bytes circularly, builds the arity-checked
    /// instruction call, executes it on the processor, and advances (or
    /// jumps) the offset. On an unknown opcode the tick is skipped: neither
    /// cycle counters, registers, position, facing nor offset change.
    pub fn tick<M: ProcessorMemory>(
        &mut self,
        processor: &mut Processor<M>,
        world: &WorldView,
        attrs: &AgentAttrs,
        pos: &mut CreaturePos,
        dir: &mut CreatureDir,
    ) -> (r: TickOutcome)
        requires
            old(self).tape().len() >= 1,
            old(self).tape().len() + 4 <= usize::MAX,
            old(self).spec_cycle() < u64::MAX,
            old(processor).spec_cycle() < u64::MAX,
        ensures
            ({
                let tape = old(self).tape();
                let opcode = spec_opcode(old(self).spec_current(), tape);
                match instructions::spec_from_byte(opcode) {
                    None => {
                        &&& r == TickOutcome::UnknownOpcode(opcode)
                        &&& *final(self) == *old(self)
                        &&& final(processor).spec_cycle() == old(processor).spec_cycle()
                        &&& final(processor).spec_mem() == old(processor).spec_mem()
                        &&& *final(pos) == *old(pos)
                        &&& *final(dir) == *old(dir)
                    },
                    Some(inst) => {
                        let arg0 = if instructions::spec_arity(inst) >= 1 {
                            spec_arg_byte(old(self).spec_current(), tape, 0)
                        } else {
                            0
                        };
                        let regs0 = regs_of(old(processor).spec_mem());
                        &&& r == TickOutcome::Executed(inst)
                        &&& final(self).tape() == tape
                        &&& final(self).spec_cycle() == old(self).spec_cycle() + 1
                        &&& final(self).spec_current() == spec_next_current(
                            old(self).spec_current(),
                            tape,
                            inst,
                            arg0,
                            regs0.0,
                            regs0.1,
                        )
                        &&& final(processor).spec_cycle() == old(processor).spec_cycle() + 1
                        &&& regs_of(final(processor).spec_mem()) == regs_after(
                            inst,
                            arg0,
                            regs0,
                            *attrs,
                        )
                        &&& *final(pos) == pos_after(inst, *old(pos), *old(dir), *world)
                        &&& *final(dir) == dir_after(inst, *old(dir))
                    },
                }
            }),
    {
        let len: usize = self.instructions.len();
        let len64: u64 = len as u64;
        let offset64: u64 = self.current % len64;
        let opcode: u8 = self.instructions[offset64 as usize];
        match instructions::Instruction::from_byte(opcode) {
            None => TickOutcome::UnknownOpcode(opcode),
            Some(inst) => {
                proof {
                    instructions::lemma_arity_at_most_one(inst);
                }
                let arity: usize = inst.get_args();
                let call: InstructionCall<instructions::Instruction, u8> = if arity == 1 {
                    let arg_idx: u64 = (offset64 + 1) % len64;
                    let arg0: u8 = self.instructions[arg_idx as usize];
                    match InstructionCall::new_1_arg(inst, arg0) {
                        Ok(c) => c,
                        Err(()) => {
                            // unreachable: the builder's arity check agrees with
                            // the arity the decoder just read
                            proof {
                                assert(false);
                            }
                            return TickOutcome::UnknownOpcode(opcode);
                        },
                    }
                } else {
                    match InstructionCall::new_0_arg(inst) {
                        Ok(c) => c,
                        Err(()) => {
                            proof {
                                assert(false);
                            }
                            return TickOutcome::UnknownOpcode(opcode);
                        },
                    }
                };
                let jump = processor.execute(&call, world, attrs, pos, dir);
                let next: u64 = match jump {
                    Some(t) => t % len64,
                    None => (offset64 + 1 + (arity as u64)) % len64,
                };
                self.current = next;
                self.cycle = self.cycle + 1;
                TickOutcome::Executed(inst)
            },
        }
    }
}

/// Decode robustness law: on a tape holding only the byte for `Nop`, every
/// decode step, from any offset, decodes `Nop`, whose execution changes
/// neither registers, position nor facing, and whose next offset follows
/// sequentially. Iterated for `k` ticks this increments the cycle counters by
/// `k` and mutates nothing else.
pub proof fn lemma_nop_tape_step(
    current: u64,
    tape: Seq<u8>,
    regs: (u64, u64, u64),
    pos: CreaturePos,
    dir: CreatureDir,
    world: WorldView,
    attrs: AgentAttrs,
)
    requires
        tape.len() >= 1,
        forall|i: int|
            0 <= i < tape.len() ==> tape[i] == instructions::spec_to_byte(
                instructions::Instruction::Nop,
            ),
    ensures
        instructions::spec_from_byte(spec_opcode(current, tape)) == Some(
            instructions::Instruction::Nop,
        ),
        regs_after(instructions::Instruction::Nop, 0, regs, attrs) == regs,
        pos_after(instructions::Instruction::Nop, pos, dir, world) == pos,
        dir_after(instructions::Instruction::Nop, dir) == dir,
{
    vstd::arithmetic::div_mod::lemma_mod_bound(current as int, tape.len() as int);
}

/// Unknown-opcode safety, decode side: the current byte fails to decode
/// exactly when no instruction of the catalog encodes to it. `tick`'s
/// contract then guarantees that such a step leaves the whole agent state
/// unchanged and reports the one unknown-opcode event.
pub proof fn lemma_unknown_opcode_unassigned(current: u64, tape: Seq<u8>)
    requires
        tape.len() >= 1,
        instructions::spec_from_byte(spec_opcode(current, tape)) is None,
    ensures
        forall|v: instructions::Instruction|
            instructions::spec_to_byte(v) != spec_opcode(current, tape),
{
    assert forall|v: instructions::Instruction|
        instructions::spec_to_byte(v) != spec_opcode(current, tape) by {
        instructions::lemma_round_trip(v);
    }
}

/// Wraparound law: a `Goto` whose argument points `k` bytes past the end of a
/// tape of length `len` jumps to offset `k % len`.
pub proof fn lemma_goto_wraparound(
    current: u64,
    tape: Seq<u8>,
    arg0: u8,
    k: int,
    a: u64,
    b: u64,
)
    requires
        tape.len() >= 1,
        0 <= k,
        arg0 as int == tape.len() + k,
    ensures
        spec_next_current(current, tape, instructions::Instruction::Goto, arg0, a, b) as int == k
            % (tape.len() as int),
{
    vstd::arithmetic::div_mod::lemma_mod_add_multiples_vanish(k, tape.len() as int);
    vstd::arithmetic::div_mod::lemma_mod_bound(k, tape.len() as int);
}

} // verus!
