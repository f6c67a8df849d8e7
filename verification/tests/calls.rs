use creature_vm::instructions::Instruction;
use creature_vm::processor::Instruction as _;
use creature_vm::processor::InstructionCall;

type Call = InstructionCall<Instruction, u8>;

#[test]
fn builder_succeeds_iff_arity_matches() {
    for v in Instruction::all_variants() {
        let arity = v.get_args();
        assert_eq!(Call::new_0_arg(v).is_ok(), arity == 0);
        assert_eq!(Call::new_1_arg(v, 10).is_ok(), arity == 1);
        assert_eq!(Call::new_2_arg(v, 10, 20).is_ok(), arity == 2);
        assert_eq!(Call::new_3_arg(v, 10, 20, 30).is_ok(), arity == 3);
    }
}

#[test]
fn successful_builds_report_exactly_their_arity() {
    for v in Instruction::all_variants() {
        match v.get_args() {
            0 => {
                let c = Call::new_0_arg(v).unwrap();
                assert_eq!(c.num_args(), 0);
                assert_eq!(c.instruction(), v);
                assert_eq!(*c.arg0(), None);
                assert_eq!(*c.arg1(), None);
                assert_eq!(*c.arg2(), None);
            }
            1 => {
                let c = Call::new_1_arg(v, 42).unwrap();
                assert_eq!(c.num_args(), 1);
                assert_eq!(c.instruction(), v);
                assert_eq!(*c.arg0(), Some(42));
                assert_eq!(*c.arg1(), None);
                assert_eq!(*c.arg2(), None);
            }
            n => panic!("unexpected arity {n} in the canonical catalog"),
        }
    }
}

#[test]
fn arity_mismatch_is_an_error() {
    assert_eq!(Call::new_1_arg(Instruction::Move, 1), Err(()));
    assert_eq!(Call::new_0_arg(Instruction::Goto), Err(()));
    assert_eq!(Call::new_2_arg(Instruction::Goto, 1, 2), Err(()));
    assert_eq!(Call::new_3_arg(Instruction::UAdd, 1, 2, 3), Err(()));
}
