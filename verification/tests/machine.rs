use creature_vm::creature::Creature;
use creature_vm::creature::CreatureMemory;
use creature_vm::creature::TickOutcome;
use creature_vm::instructions::Instruction;
use creature_vm::processor::Processor;
use creature_vm::processor::ProcessorMemory;
use creature_vm::world::AgentAttrs;
use creature_vm::world::CreatureDir;
use creature_vm::world::CreaturePos;
use creature_vm::world::WorldView;

fn open_world() -> WorldView {
    WorldView { front_free: true, front2_free: true }
}

fn no_attrs() -> AgentAttrs {
    AgentAttrs { health: 0, hunger: 0, waste: 0, losc: 0 }
}

struct Agent {
    processor: Processor<CreatureMemory>,
    creature: Creature,
    pos: CreaturePos,
    dir: CreatureDir,
}

fn agent(tape: Vec<u8>) -> Agent {
    Agent {
        processor: Processor::new(CreatureMemory::new()),
        creature: Creature::new_with(tape),
        pos: CreaturePos::new(0, 0),
        dir: CreatureDir::North,
    }
}

fn tick(a: &mut Agent, world: &WorldView, attrs: &AgentAttrs) -> TickOutcome {
    a.creature.tick(&mut a.processor, world, attrs, &mut a.pos, &mut a.dir)
}

#[test]
fn nop_tape_only_advances_cycles() {
    let mut a = agent(vec![0; 5]);
    for k in 1..=7u64 {
        let r = tick(&mut a, &open_world(), &no_attrs());
        assert_eq!(r, TickOutcome::Executed(Instruction::Nop));
        assert_eq!(a.creature.get_cycle(), k);
        assert_eq!(a.processor.cycle_number(), k);
        assert_eq!(a.processor.mems().get_mem_a(), 0);
        assert_eq!(a.processor.mems().get_mem_b(), 0);
        assert_eq!(a.processor.mems().get_mem_tmp(), 0);
        assert_eq!(a.pos, CreaturePos::new(0, 0));
        assert_eq!(a.dir, CreatureDir::North);
    }
    assert_eq!(a.creature.get_current(), 7 % 5);
}

#[test]
fn unknown_opcode_leaves_state_unchanged() {
    let mut a = agent(vec![0xFF, 0, 0]);
    let r = tick(&mut a, &open_world(), &no_attrs());
    assert_eq!(r, TickOutcome::UnknownOpcode(0xFF));
    assert_eq!(a.creature.get_cycle(), 0);
    assert_eq!(a.creature.get_current(), 0);
    assert_eq!(a.processor.cycle_number(), 0);
    assert_eq!(a.processor.mems().get_mem_a(), 0);
    assert_eq!(a.pos, CreaturePos::new(0, 0));
    assert_eq!(a.dir, CreatureDir::North);
}

#[test]
fn goto_wraps_past_tape_end() {
    // Tape of length 3; the Goto argument is 3 + 5 == 8, so the jump lands on
    // offset 5 % 3 == 2.
    let goto = Instruction::Goto.to_byte();
    let mut a = agent(vec![goto, 8, 0]);
    let r = tick(&mut a, &open_world(), &no_attrs());
    assert_eq!(r, TickOutcome::Executed(Instruction::Goto));
    assert_eq!(a.creature.get_current(), 2);
    assert_eq!(a.creature.get_cycle(), 1);
}

#[test]
fn uadd_wraps_at_byte_width() {
    let uadd = Instruction::UAdd.to_byte();
    let mut a = agent(vec![uadd, 1, uadd, 255]);
    tick(&mut a, &open_world(), &no_attrs());
    assert_eq!(a.processor.mems().get_mem_a(), 1);
    tick(&mut a, &open_world(), &no_attrs());
    assert_eq!(a.processor.mems().get_mem_a(), 0);
    assert_eq!(a.processor.cycle_number(), 2);
    assert_eq!(a.creature.get_cycle(), 2);
}

#[test]
fn uadd_reduces_a_to_byte_range() {
    let uadd = Instruction::UAdd.to_byte();
    let mut a = agent(vec![uadd, 1]);
    a.processor.mems_mut().set_mem_a(1000);
    tick(&mut a, &open_world(), &no_attrs());
    assert_eq!(a.processor.mems().get_mem_a(), (1000 % 256 + 1) % 256);
}

#[test]
fn iadd_adds_signed_byte_two_complement() {
    // 255 is the two's-complement encoding of -1 at byte width: 5 - 1 == 4.
    let iadd = Instruction::IAdd.to_byte();
    let mut a = agent(vec![iadd, 255]);
    a.processor.mems_mut().set_mem_a(5);
    tick(&mut a, &open_world(), &no_attrs());
    assert_eq!(a.processor.mems().get_mem_a(), 4);
}

#[test]
fn conditional_jump_taken_when_a_greater() {
    let cond = Instruction::GotoCondAGtB.to_byte();
    let mut a = agent(vec![cond, 0]);
    a.processor.mems_mut().set_mem_a(5);
    a.processor.mems_mut().set_mem_b(3);
    let r = tick(&mut a, &open_world(), &no_attrs());
    assert_eq!(r, TickOutcome::Executed(Instruction::GotoCondAGtB));
    assert_eq!(a.creature.get_current(), 0);
    assert_eq!(a.creature.get_cycle(), 1);
}

#[test]
fn conditional_jump_skipped_when_a_not_greater() {
    let cond = Instruction::GotoCondAGtB.to_byte();
    let mut a = agent(vec![cond, 0, 0]);
    a.processor.mems_mut().set_mem_a(3);
    a.processor.mems_mut().set_mem_b(3);
    tick(&mut a, &open_world(), &no_attrs());
    // Not taken: the offset advances past the opcode and its argument byte.
    assert_eq!(a.creature.get_current(), 2);
}

#[test]
fn conditional_eq_jump() {
    let cond = Instruction::GotoCondEq.to_byte();
    let mut a = agent(vec![cond, 1, 0]);
    a.processor.mems_mut().set_mem_a(7);
    a.processor.mems_mut().set_mem_b(7);
    tick(&mut a, &open_world(), &no_attrs());
    assert_eq!(a.creature.get_current(), 1);

    let mut b = agent(vec![cond, 1, 0]);
    b.processor.mems_mut().set_mem_a(7);
    b.processor.mems_mut().set_mem_b(8);
    tick(&mut b, &open_world(), &no_attrs());
    assert_eq!(b.creature.get_current(), 2);
}

#[test]
fn blocked_move_only_costs_a_cycle() {
    let mv = Instruction::Move.to_byte();
    let mut a = agent(vec![mv]);
    a.pos = CreaturePos::new(7, 9);
    a.dir = CreatureDir::East;
    let blocked = WorldView { front_free: false, front2_free: false };
    let r = tick(&mut a, &blocked, &no_attrs());
    assert_eq!(r, TickOutcome::Executed(Instruction::Move));
    assert_eq!(a.pos, CreaturePos::new(7, 9));
    assert_eq!(a.creature.get_cycle(), 1);
    assert_eq!(a.processor.cycle_number(), 1);
}

#[test]
fn free_move_advances_one_tile() {
    let mv = Instruction::Move.to_byte();
    let mut a = agent(vec![mv]);
    tick(&mut a, &open_world(), &no_attrs());
    assert_eq!(a.pos, CreaturePos::new(0, 1));
}

#[test]
fn jump_advances_two_tiles_or_one() {
    let jp = Instruction::Jump.to_byte();
    let mut a = agent(vec![jp]);
    tick(&mut a, &open_world(), &no_attrs());
    assert_eq!(a.pos, CreaturePos::new(0, 2));

    let mut b = agent(vec![jp]);
    let half = WorldView { front_free: true, front2_free: false };
    tick(&mut b, &half, &no_attrs());
    assert_eq!(b.pos, CreaturePos::new(0, 1));

    let mut c = agent(vec![jp]);
    let blocked = WorldView { front_free: false, front2_free: true };
    tick(&mut c, &blocked, &no_attrs());
    assert_eq!(c.pos, CreaturePos::new(0, 0));
}

#[test]
fn rotations_cycle_through_the_compass() {
    let cw = Instruction::RotateCW.to_byte();
    let mut a = agent(vec![cw; 4]);
    let order = [
        CreatureDir::East,
        CreatureDir::South,
        CreatureDir::West,
        CreatureDir::North,
    ];
    for dir in order {
        tick(&mut a, &open_world(), &no_attrs());
        assert_eq!(a.dir, dir);
    }

    let ccw = Instruction::RotateCCW.to_byte();
    let mut b = agent(vec![ccw]);
    tick(&mut b, &open_world(), &no_attrs());
    assert_eq!(b.dir, CreatureDir::West);
}

#[test]
fn move_wraps_at_the_coordinate_boundary() {
    let mv = Instruction::Move.to_byte();
    let mut a = agent(vec![mv]);
    a.dir = CreatureDir::South;
    tick(&mut a, &open_world(), &no_attrs());
    assert_eq!(a.pos, CreaturePos::new(0, u64::MAX));
}

#[test]
fn register_logic_group() {
    // SwapAB
    let mut a = agent(vec![Instruction::SwapAB.to_byte()]);
    a.processor.mems_mut().set_mem_a(9);
    a.processor.mems_mut().set_mem_b(4);
    tick(&mut a, &open_world(), &no_attrs());
    assert_eq!(a.processor.mems().get_mem_a(), 4);
    assert_eq!(a.processor.mems().get_mem_b(), 9);

    // ClearA / ClearB
    let mut b = agent(vec![
        Instruction::ClearA.to_byte(),
        Instruction::ClearB.to_byte(),
    ]);
    b.processor.mems_mut().set_mem_a(9);
    b.processor.mems_mut().set_mem_b(4);
    tick(&mut b, &open_world(), &no_attrs());
    assert_eq!(b.processor.mems().get_mem_a(), 0);
    assert_eq!(b.processor.mems().get_mem_b(), 4);
    tick(&mut b, &open_world(), &no_attrs());
    assert_eq!(b.processor.mems().get_mem_b(), 0);

    // CopyATmp keeps A
    let mut c = agent(vec![Instruction::CopyATmp.to_byte()]);
    c.processor.mems_mut().set_mem_a(13);
    tick(&mut c, &open_world(), &no_attrs());
    assert_eq!(c.processor.mems().get_mem_a(), 13);
    assert_eq!(c.processor.mems().get_mem_tmp(), 13);

    // LoadTmpA clears TMP
    let mut d = agent(vec![Instruction::LoadTmpA.to_byte()]);
    d.processor.mems_mut().set_mem_tmp(21);
    tick(&mut d, &open_world(), &no_attrs());
    assert_eq!(d.processor.mems().get_mem_a(), 21);
    assert_eq!(d.processor.mems().get_mem_tmp(), 0);

    // LoadTmpB clears TMP
    let mut e = agent(vec![Instruction::LoadTmpB.to_byte()]);
    e.processor.mems_mut().set_mem_tmp(22);
    tick(&mut e, &open_world(), &no_attrs());
    assert_eq!(e.processor.mems().get_mem_b(), 22);
    assert_eq!(e.processor.mems().get_mem_tmp(), 0);
}

#[test]
fn attribute_snapshots_load_into_tmp() {
    let attrs = AgentAttrs { health: 11, hunger: 22, waste: 33, losc: 0xA0B0C0 };
    let cases = [
        (Instruction::StoreHealthTmp, 11u64),
        (Instruction::StoreHungerTmp, 22),
        (Instruction::StoreWasteTmp, 33),
        (Instruction::StoreLOSCTmp, 0xA0B0C0),
    ];
    for (inst, expected) in cases {
        let mut a = agent(vec![inst.to_byte()]);
        tick(&mut a, &open_world(), &attrs);
        assert_eq!(a.processor.mems().get_mem_tmp(), expected);
    }
}

#[test]
fn bitwise_group() {
    // With an argument byte
    let cases = [
        (Instruction::BitAnd, 0b1100u64, 0b1010u8, 0b1000u64),
        (Instruction::BitOr, 0b1100, 0b1010, 0b1110),
        (Instruction::BitXor, 0b1100, 0b1010, 0b0110),
    ];
    for (inst, a0, arg, expected) in cases {
        let mut a = agent(vec![inst.to_byte(), arg]);
        a.processor.mems_mut().set_mem_a(a0);
        tick(&mut a, &open_world(), &no_attrs());
        assert_eq!(a.processor.mems().get_mem_a(), expected, "{inst:?}");
    }

    // With register B; B is untouched
    let cases_b = [
        (Instruction::BitAndB, 0xF0F0u64, 0xFF00u64, 0xF000u64),
        (Instruction::BitOrB, 0xF0F0, 0xFF00, 0xFFF0),
        (Instruction::BitXorB, 0xF0F0, 0xFF00, 0x0FF0),
    ];
    for (inst, a0, b0, expected) in cases_b {
        let mut a = agent(vec![inst.to_byte()]);
        a.processor.mems_mut().set_mem_a(a0);
        a.processor.mems_mut().set_mem_b(b0);
        tick(&mut a, &open_world(), &no_attrs());
        assert_eq!(a.processor.mems().get_mem_a(), expected, "{inst:?}");
        assert_eq!(a.processor.mems().get_mem_b(), b0);
    }
}

#[test]
fn program_advances_and_wraps_sequentially() {
    // Two one-byte instructions on a 2-byte tape: offsets 0, 1, 0, 1, ...
    let cw = Instruction::RotateCW.to_byte();
    let mut a = agent(vec![cw, cw]);
    tick(&mut a, &open_world(), &no_attrs());
    assert_eq!(a.creature.get_current(), 1);
    tick(&mut a, &open_world(), &no_attrs());
    assert_eq!(a.creature.get_current(), 0);
    tick(&mut a, &open_world(), &no_attrs());
    assert_eq!(a.creature.get_current(), 1);
    assert_eq!(a.creature.get_cycle(), 3);
}

#[test]
fn argument_read_wraps_circularly() {
    // The UAdd opcode sits on the last byte, so its argument byte is read
    // from offset 0, which holds 69 (the UAdd opcode itself).
    let uadd = Instruction::UAdd.to_byte();
    let mut a = agent(vec![uadd]);
    tick(&mut a, &open_world(), &no_attrs());
    assert_eq!(a.processor.mems().get_mem_a(), uadd as u64);
    assert_eq!(a.creature.get_current(), 0);
}

#[test]
fn creature_tape_accessors() {
    let mut c = Creature::new_with(vec![1, 2, 3]);
    assert_eq!(c.get_instructions(), &vec![1, 2, 3]);
    assert_eq!(c.get_cycle(), 0);
    assert_eq!(c.get_current(), 0);
    c.get_instructions_mut().push(0);
    assert_eq!(c.get_instructions().len(), 4);

    let d = Creature::default();
    assert!(d.get_instructions().is_empty());
}

#[test]
fn memory_defaults_to_zero() {
    let m = CreatureMemory::default();
    assert_eq!(m.get_mem_a(), 0);
    assert_eq!(m.get_mem_b(), 0);
    assert_eq!(m.get_mem_tmp(), 0);
    assert_eq!(CreatureMemory::new(), m);
    assert_eq!(CreatureDir::default(), CreatureDir::North);
    assert_eq!(CreaturePos::default(), CreaturePos::new(0, 0));
}
