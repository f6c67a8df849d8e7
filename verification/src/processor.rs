//! The generic execution engine: register memory contract, validated
//! instruction calls, and the processor that applies instruction semantics.

use vstd::prelude::*;

use crate::instructions;
use crate::world::AgentAttrs;
use crate::world::CreatureDir;
use crate::world::CreaturePos;
use crate::world::WorldView;
use crate::world::spec_forward;
use crate::world::spec_rotate_ccw;
use crate::world::spec_rotate_cw;

verus! {

/// Contains instruction execution memory data: three independent unsigned
/// word registers A, B and TMP, each readable and writable on its own.
pub trait ProcessorMemory: Sized {
    /// The value held in mem A.
    spec fn mem_a(&self) -> u64;

    /// The value held in mem B.
    spec fn mem_b(&self) -> u64;

    /// The value held in mem TMP.
    spec fn mem_tmp(&self) -> u64;

    /// Returns the value of mem A.
    fn get_mem_a(&self) -> (r: u64)
        ensures
            r == self.mem_a(),
    ;

    /// Returns the value of mem B.
    fn get_mem_b(&self) -> (r: u64)
        ensures
            r == self.mem_b(),
    ;

    /// Returns the value of mem TMP.
    fn get_mem_tmp(&self) -> (r: u64)
        ensures
            r == self.mem_tmp(),
    ;

    /// Updates the value of mem A.
    fn set_mem_a(&mut self, value: u64)
        ensures
            final(self).mem_a() == value,
            final(self).mem_b() == old(self).mem_b(),
            final(self).mem_tmp() == old(self).mem_tmp(),
    ;

    /// Updates the value of mem B.
    fn set_mem_b(&mut self, value: u64)
        ensures
            final(self).mem_a() == old(self).mem_a(),
            final(self).mem_b() == value,
            final(self).mem_tmp() == old(self).mem_tmp(),
    ;

    /// Updates the value of mem TMP.
    fn set_mem_tmp(&mut self, value: u64)
        ensures
            final(self).mem_a() == old(self).mem_a(),
            final(self).mem_b() == old(self).mem_b(),
            final(self).mem_tmp() == value,
    ;
}

/// Represents a single instruction of some instruction set: a value that
/// declares how many argument bytes it consumes.
pub trait Instruction: Sized + Copy {
    /// The declared number of arguments of this instruction.
    spec fn spec_args(self) -> usize;

    /// Returns the number of arguments that this instruction expects.
    fn get_args(self) -> (r: usize)
        ensures
            r == self.spec_args(),
    ;
}

/// How many of three optional argument slots are filled.
pub open spec fn count_args<ArgType>(
    a0: Option<ArgType>,
    a1: Option<ArgType>,
    a2: Option<ArgType>,
) -> int {
    (if a0 is Some { 1int } else { 0int }) + (if a1 is Some { 1int } else { 0int }) + (
    if a2 is Some {
        1int
    } else {
        0int
    })
}

/// Represents a call to an instruction with optional supplied arguments.
/// Values can only be constructed through the arity-checked `new_*_arg`
/// builders, so a call whose stored argument count disagrees with its
/// instruction's declared arity is unrepresentable.
#[derive(Debug, PartialEq, Eq)]
pub struct InstructionCall<Inst: Instruction, ArgType> {
    /// The instruction to be executed.
    instruction: Inst,
    /// The first optional argument passed to the caller for this instruction.
    args0: Option<ArgType>,
    /// The second optional argument; only filled when the first is.
    args1: Option<ArgType>,
    /// The third optional argument; only filled when the second is.
    args2: Option<ArgType>,
}

impl<Inst: Instruction, ArgType> InstructionCall<Inst, ArgType> {
    /// Exactly as many argument slots are filled, left-to-right, as the
    /// instruction's declared arity demands.
    #[verifier::type_invariant]
    spec fn wf(self) -> bool {
        &&& count_args(self.args0, self.args1, self.args2) == self.instruction.spec_args() as int
        &&& (self.args1 is Some ==> self.args0 is Some)
        &&& (self.args2 is Some ==> self.args1 is Some)
    }

    /// The wrapped instruction.
    pub closed spec fn spec_instruction(self) -> Inst {
        self.instruction
    }

    /// The first argument slot.
    pub closed spec fn spec_arg0(self) -> Option<ArgType> {
        self.args0
    }

    /// The second argument slot.
    pub closed spec fn spec_arg1(self) -> Option<ArgType> {
        self.args1
    }

    /// The third argument slot.
    pub closed spec fn spec_arg2(self) -> Option<ArgType> {
        self.args2
    }

    /// The number of filled argument slots.
    pub closed spec fn spec_num_args(self) -> int {
        count_args(self.args0, self.args1, self.args2)
    }

    /// Creates an instruction call; the argument count is checked against the
    /// instruction's requirements by the public builders.
    fn new_raw(
        instruction: Inst,
        arg1: Option<ArgType>,
        arg2: Option<ArgType>,
        arg3: Option<ArgType>,
    ) -> (r: Self)
        requires
            count_args(arg1, arg2, arg3) == instruction.spec_args() as int,
            arg2 is Some ==> arg1 is Some,
            arg3 is Some ==> arg2 is Some,
        ensures
            r.spec_instruction() == instruction,
            r.spec_arg0() == arg1,
            r.spec_arg1() == arg2,
            r.spec_arg2() == arg3,
    {
        Self { instruction, args0: arg1, args1: arg2, args2: arg3 }
    }

    /// Wraps an instruction with 3 arguments.
    /// Returns `Err(())` if the instruction requires a different number of arguments.
    pub fn new_3_arg(instruction: Inst, arg1: ArgType, arg2: ArgType, arg3: ArgType) -> (r: Result<
        Self,
        (),
    >)
        ensures
            instruction.spec_args() == 3 ==> (r matches Ok(c) && c.spec_instruction()
                == instruction && c.spec_arg0() == Some(arg1) && c.spec_arg1() == Some(arg2)
                && c.spec_arg2() == Some(arg3)),
            instruction.spec_args() != 3 ==> r is Err,
    {
        if instruction.get_args() != 3 {
            return Err(());
        }
        Ok(Self::new_raw(instruction, Some(arg1), Some(arg2), Some(arg3)))
    }

    /// Wraps an instruction with 2 arguments.
    /// Returns `Err(())` if the instruction requires a different number of arguments.
    pub fn new_2_arg(instruction: Inst, arg1: ArgType, arg2: ArgType) -> (r: Result<Self, ()>)
        ensures
            instruction.spec_args() == 2 ==> (r matches Ok(c) && c.spec_instruction()
                == instruction && c.spec_arg0() == Some(arg1) && c.spec_arg1() == Some(arg2)
                && c.spec_arg2() is None),
            instruction.spec_args() != 2 ==> r is Err,
    {
        if instruction.get_args() != 2 {
            return Err(());
        }
        Ok(Self::new_raw(instruction, Some(arg1), Some(arg2), None))
    }

    /// Wraps an instruction with 1 argument.
    /// Returns `Err(())` if the instruction requires a different number of arguments.
    pub fn new_1_arg(instruction: Inst, arg1: ArgType) -> (r: Result<Self, ()>)
        ensures
            instruction.spec_args() == 1 ==> (r matches Ok(c) && c.spec_instruction()
                == instruction && c.spec_arg0() == Some(arg1) && c.spec_arg1() is None
                && c.spec_arg2() is None),
            instruction.spec_args() != 1 ==> r is Err,
    {
        if instruction.get_args() != 1 {
            return Err(());
        }
        Ok(Self::new_raw(instruction, Some(arg1), None, None))
    }

    /// Wraps an instruction with no arguments.
    /// Returns `Err(())` if the instruction requires a different number of arguments.
    pub fn new_0_arg(instruction: Inst) -> (r: Result<Self, ()>)
        ensures
            instruction.spec_args() == 0 ==> (r matches Ok(c) && c.spec_instruction()
                == instruction && c.spec_arg0() is None && c.spec_arg1() is None && c.spec_arg2()
                is None),
            instruction.spec_args() != 0 ==> r is Err,
    {
        if instruction.get_args() != 0 {
            return Err(());
        }
        Ok(Self::new_raw(instruction, None, None, None))
    }

    /// The wrapped instruction.
    pub fn instruction(&self) -> (r: Inst)
        ensures
            r == self.spec_instruction(),
    {
        self.instruction
    }

    /// The first argument slot.
    pub fn arg0(&self) -> (r: &Option<ArgType>)
        ensures
            *r == self.spec_arg0(),
    {
        &self.args0
    }

    /// The second argument slot.
    pub fn arg1(&self) -> (r: &Option<ArgType>)
        ensures
            *r == self.spec_arg1(),
    {
        &self.args1
    }

    /// The third argument slot.
    pub fn arg2(&self) -> (r: &Option<ArgType>)
        ensures
            *r == self.spec_arg2(),
    {
        &self.args2
    }

    /// The number of filled argument slots, which always equals the wrapped
    /// instruction's declared arity.
    pub fn num_args(&self) -> (r: usize)
        ensures
            r as int == self.spec_num_args(),
            r == self.spec_instruction().spec_args(),
    {
        proof {
            use_type_invariant(self);
        }
        if self.args2.is_some() {
            3
        } else if self.args1.is_some() {
            2
        } else if self.args0.is_some() {
            1
        } else {
            0
        }
    }
}

/// The register file of a memory as one triple (A, B, TMP).
pub open spec fn regs_of<M: ProcessorMemory>(m: M) -> (u64, u64, u64) {
    (m.mem_a(), m.mem_b(), m.mem_tmp())
}

/// The first argument of a call, or 0 for an argument-less instruction.
pub open spec fn arg0_or_zero(c: InstructionCall<instructions::Instruction, u8>) -> u8 {
    match c.spec_arg0() {
        Some(v) => v,
        None => 0,
    }
}

/// An addition that wraps at byte width: the math group's accumulator works
/// on 8-bit values, so the sum is reduced modulo 256. At byte width the
/// two's-complement addition of a signed argument coincides bit-for-bit with
/// the addition of its unsigned representation, so `UAdd` and `IAdd` share
/// this definition.
pub open spec fn add_byte_wrap(a: u64, arg: u8) -> u64 {
    (((a as int) % 256 + (arg as int)) % 256) as u64
}

/// The register file (A, B, TMP) after executing one instruction, given the
/// argument byte and the external attribute snapshot.
pub open spec fn regs_after(
    inst: instructions::Instruction,
    arg0: u8,
    regs: (u64, u64, u64),
    attrs: AgentAttrs,
) -> (u64, u64, u64) {
    let (a, b, tmp) = regs;
    match inst {
        instructions::Instruction::ClearA => (0, b, tmp),
        instructions::Instruction::ClearB => (a, 0, tmp),
        instructions::Instruction::SwapAB => (b, a, tmp),
        instructions::Instruction::CopyATmp => (a, b, a),
        instructions::Instruction::LoadTmpA => (tmp, b, 0),
        instructions::Instruction::LoadTmpB => (a, tmp, 0),
        instructions::Instruction::StoreHealthTmp => (a, b, attrs.health),
        instructions::Instruction::StoreHungerTmp => (a, b, attrs.hunger),
        instructions::Instruction::StoreWasteTmp => (a, b, attrs.waste),
        instructions::Instruction::StoreLOSCTmp => (a, b, attrs.losc),
        instructions::Instruction::UAdd => (add_byte_wrap(a, arg0), b, tmp),
        instructions::Instruction::IAdd => (add_byte_wrap(a, arg0), b, tmp),
        instructions::Instruction::BitAndB => (a & b, b, tmp),
        instructions::Instruction::BitAnd => (a & (arg0 as u64), b, tmp),
        instructions::Instruction::BitOrB => (a | b, b, tmp),
        instructions::Instruction::BitOr => (a | (arg0 as u64), b, tmp),
        instructions::Instruction::BitXorB => (a ^ b, b, tmp),
        instructions::Instruction::BitXor => (a ^ (arg0 as u64), b, tmp),
        _ => (a, b, tmp),
    }
}

/// The agent's position after executing one instruction. `Move` advances one
/// tile when the tile ahead is free; `Jump` advances up to two tiles, only
/// one when the second is blocked, and none when the first is.
pub open spec fn pos_after(
    inst: instructions::Instruction,
    pos: CreaturePos,
    dir: CreatureDir,
    world: WorldView,
) -> CreaturePos {
    match inst {
        instructions::Instruction::Move => if world.front_free {
            spec_forward(pos, dir, 1)
        } else {
            pos
        },
        instructions::Instruction::Jump => if world.front_free && world.front2_free {
            spec_forward(pos, dir, 2)
        } else if world.front_free {
            spec_forward(pos, dir, 1)
        } else {
            pos
        },
        _ => pos,
    }
}

/// The agent's facing after executing one instruction.
pub open spec fn dir_after(inst: instructions::Instruction, dir: CreatureDir) -> CreatureDir {
    match inst {
        instructions::Instruction::RotateCW => spec_rotate_cw(dir),
        instructions::Instruction::RotateCCW => spec_rotate_ccw(dir),
        _ => dir,
    }
}

/// The jump target requested by one instruction, before reduction modulo the
/// tape length: `Goto` always jumps, the conditional jumps only when their
/// condition holds of registers A and B.
pub open spec fn jump_after(
    inst: instructions::Instruction,
    arg0: u8,
    a: u64,
    b: u64,
) -> Option<u64> {
    match inst {
        instructions::Instruction::Goto => Some(arg0 as u64),
        instructions::Instruction::GotoCondAGtB => if a > b {
            Some(arg0 as u64)
        } else {
            None
        },
        instructions::Instruction::GotoCondEq => if a == b {
            Some(arg0 as u64)
        } else {
            None
        },
        _ => None,
    }
}

/// The execution engine: owns one register memory, tracks a monotonic cycle
/// counter, and applies instruction semantics to memory and agent state.
#[derive(Debug, Clone)]
pub struct Processor<M: ProcessorMemory> {
    cycle: u64,
    memory: M,
}

impl<M: ProcessorMemory> Processor<M> {
    /// The count of instructions executed so far.
    pub closed spec fn spec_cycle(&self) -> u64 {
        self.cycle
    }

    /// The owned register memory.
    pub closed spec fn spec_mem(&self) -> M {
        self.memory
    }

    /// A processor owning the given register memory, with a zero cycle count.
    pub fn new(memory: M) -> (r: Self)
        ensures
            r.spec_cycle() == 0,
            r.spec_mem() == memory,
    {
        Self { cycle: 0, memory }
    }

    /// Read-only accessor for the cycle counter.
    pub fn cycle_number(&self) -> (r: u64)
        ensures
            r == self.spec_cycle(),
    {
        self.cycle
    }

    /// Read access to the owned register memory.
    pub fn mems(&self) -> (r: &M)
        ensures
            *r == self.spec_mem(),
    {
        &self.memory
    }

    /// Write access to the owned register memory.
    pub fn mems_mut(&mut self) -> (r: &mut M)
        ensures
            *r == old(self).spec_mem(),
            final(self).spec_mem() == *final(r),
            final(self).spec_cycle() == old(self).spec_cycle(),
    {
        &mut self.memory
    }

    /// Applies the instruction's semantics to the register memory, the
    /// agent's position and facing, and returns the requested jump target, if
    /// any. Always increments the cycle counter by one, even when the
    /// instruction's effect was a no-op. Total: it cannot fail for any
    /// well-formed call, and malformed calls are unrepresentable.
    pub fn execute(
        &mut self,
        call: &InstructionCall<instructions::Instruction, u8>,
        world: &WorldView,
        attrs: &AgentAttrs,
        pos: &mut CreaturePos,
        dir: &mut CreatureDir,
    ) -> (jump: Option<u64>)
        requires
            old(self).spec_cycle() < u64::MAX,
        ensures
            final(self).spec_cycle() == old(self).spec_cycle() + 1,
            regs_of(final(self).spec_mem()) == regs_after(
                call.spec_instruction(),
                arg0_or_zero(*call),
                regs_of(old(self).spec_mem()),
                *attrs,
            ),
            *final(pos) == pos_after(call.spec_instruction(), *old(pos), *old(dir), *world),
            *final(dir) == dir_after(call.spec_instruction(), *old(dir)),
            jump == jump_after(
                call.spec_instruction(),
                arg0_or_zero(*call),
                old(self).spec_mem().mem_a(),
                old(self).spec_mem().mem_b(),
            ),
    {
        let inst = call.instruction();
        let arg0: u8 = match call.arg0() {
            Some(v) => *v,
            None => 0,
        };
        let jump: Option<u64> = match inst {
            instructions::Instruction::Nop => None,
            instructions::Instruction::Move => {
                if world.front_free {
                    *pos = pos.forward(*dir, 1);
                }
                None
            },
            instructions::Instruction::Jump => {
                if world.front_free {
                    if world.front2_free {
                        *pos = pos.forward(*dir, 2);
                    } else {
                        *pos = pos.forward(*dir, 1);
                    }
                }
                None
            },
            instructions::Instruction::RotateCW => {
                *dir = dir.rotate_cw();
                None
            },
            instructions::Instruction::RotateCCW => {
                *dir = dir.rotate_ccw();
                None
            },
            instructions::Instruction::ClearA => {
                self.memory.set_mem_a(0);
                None
            },
            instructions::Instruction::ClearB => {
                self.memory.set_mem_b(0);
                None
            },
            instructions::Instruction::Goto => Some(arg0 as u64),
            instructions::Instruction::GotoCondAGtB => {
                if self.memory.get_mem_a() > self.memory.get_mem_b() {
                    Some(arg0 as u64)
                } else {
                    None
                }
            },
            instructions::Instruction::GotoCondEq => {
                if self.memory.get_mem_a() == self.memory.get_mem_b() {
                    Some(arg0 as u64)
                } else {
                    None
                }
            },
            instructions::Instruction::SwapAB => {
                let a = self.memory.get_mem_a();
                let b = self.memory.get_mem_b();
                self.memory.set_mem_a(b);
                self.memory.set_mem_b(a);
                None
            },
            instructions::Instruction::CopyATmp => {
                let a = self.memory.get_mem_a();
                self.memory.set_mem_tmp(a);
                None
            },
            instructions::Instruction::LoadTmpA => {
                let tmp = self.memory.get_mem_tmp();
                self.memory.set_mem_a(tmp);
                self.memory.set_mem_tmp(0);
                None
            },
            instructions::Instruction::LoadTmpB => {
                let tmp = self.memory.get_mem_tmp();
                self.memory.set_mem_b(tmp);
                self.memory.set_mem_tmp(0);
                None
            },
            instructions::Instruction::StoreHealthTmp => {
                self.memory.set_mem_tmp(attrs.health);
                None
            },
            instructions::Instruction::StoreHungerTmp => {
                self.memory.set_mem_tmp(attrs.hunger);
                None
            },
            instructions::Instruction::StoreWasteTmp => {
                self.memory.set_mem_tmp(attrs.waste);
                None
            },
            instructions::Instruction::StoreLOSCTmp => {
                self.memory.set_mem_tmp(attrs.losc);
                None
            },
            instructions::Instruction::UAdd => {
                let a = self.memory.get_mem_a();
                self.memory.set_mem_a((a % 256 + (arg0 as u64)) % 256);
                None
            },
            instructions::Instruction::IAdd => {
                let a = self.memory.get_mem_a();
                self.memory.set_mem_a((a % 256 + (arg0 as u64)) % 256);
                None
            },
            instructions::Instruction::BitAndB => {
                let a = self.memory.get_mem_a();
                let b = self.memory.get_mem_b();
                self.memory.set_mem_a(a & b);
                None
            },
            instructions::Instruction::BitAnd => {
                let a = self.memory.get_mem_a();
                self.memory.set_mem_a(a & (arg0 as u64));
                None
            },
            instructions::Instruction::BitOrB => {
                let a = self.memory.get_mem_a();
                let b = self.memory.get_mem_b();
                self.memory.set_mem_a(a | b);
                None
            },
            instructions::Instruction::BitOr => {
                let a = self.memory.get_mem_a();
                self.memory.set_mem_a(a | (arg0 as u64));
                None
            },
            instructions::Instruction::BitXorB => {
                let a = self.memory.get_mem_a();
                let b = self.memory.get_mem_b();
                self.memory.set_mem_a(a ^ b);
                None
            },
            instructions::Instruction::BitXor => {
                let a = self.memory.get_mem_a();
                self.memory.set_mem_a(a ^ (arg0 as u64));
                None
            },
        };
        self.cycle = self.cycle + 1;
        jump
    }
}

} // verus!
