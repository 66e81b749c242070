use y86vm::error::ErrorKind;
use y86vm::interpreter::interpreter::Interpreter;
use y86vm::interpreter::code::Code;
use y86vm::interpreter::{Environment, Executable};
use y86vm::mem::Stack;
use y86vm::reg::{Register, Registers};

fn machine(code: Vec<u8>, mem_size: usize) -> Interpreter {
    Interpreter {
        pc: 0,
        env: Environment { registers: Registers::default(), memory: Stack::new(mem_size) },
        source: code,
    }
}

#[test]
fn test0() {
    let code = [
        0x30u8, 0xF0, 0x78, 0x56, 0x34, 0x12, 0x00, 0x00, 0x00, 0x00, // irmov $12345678, %rax
        0x40u8, 0x01, 0x00, 0x00, 0x00, 0x00, 0x00, 0x00, 0x00, 0x00, // rmmov %rax, 0(%rcx)
        0x50u8, 0x11, 0x00, 0x00, 0x00, 0x00, 0x00, 0x00, 0x00, 0x00, // mrmov 0(%rcx), %rcx
        0x30u8, 0xF0, 0x01, 0x00, 0x00, 0x00, 0x00, 0x00, 0x00, 0x00, // irmov $1, %rax
        0x30u8, 0xF2, 0x02, 0x00, 0x00, 0x00, 0x00, 0x00, 0x00, 0x00, // irmov $2, %rdx
        0x60u8, 0x02, // addq %rax, %rdx
    ];

    let mut itpt = Interpreter {
        pc: 0,
        env: Environment { registers: Registers::default(), memory: Stack::new(16) },
        source: code.to_vec(),
    };

    itpt.execute().unwrap();

    println!("{:?}", itpt);
}

#[test]
fn cast() {
    let i = -1i32;
    let j = i as u32;

    println!("{}", j);
}

#[test]
fn end_to_end() {
    // the program of test0: after running to end-of-input, %rdx holds 1 + 2
    // and %rcx holds the word that went through memory
    let code = vec![
        0x30u8, 0xF0, 0x78, 0x56, 0x34, 0x12, 0x00, 0x00, 0x00, 0x00,
        0x40u8, 0x01, 0x00, 0x00, 0x00, 0x00, 0x00, 0x00, 0x00, 0x00,
        0x50u8, 0x11, 0x00, 0x00, 0x00, 0x00, 0x00, 0x00, 0x00, 0x00,
        0x30u8, 0xF0, 0x01, 0x00, 0x00, 0x00, 0x00, 0x00, 0x00, 0x00,
        0x30u8, 0xF2, 0x02, 0x00, 0x00, 0x00, 0x00, 0x00, 0x00, 0x00,
        0x60u8, 0x02,
    ];
    let mut itpt = machine(code, 16);

    assert!(itpt.execute().is_ok());
    assert_eq!(3, itpt.env.registers.read(Register::RDX));
    assert_eq!(0x12345678, itpt.env.registers.read(Register::RCX));
    assert_eq!(1, itpt.env.registers.read(Register::RAX));
    assert_eq!(52, itpt.pc);
}

#[test]
fn halt_only() {
    let mut itpt = machine(vec![0x00], 4);
    assert!(itpt.execute().is_ok());
    assert_eq!(1, itpt.pc);
    // no register or memory mutation
    for id in 0..16u8 {
        let reg = Register::try_from(id).unwrap();
        assert_eq!(0, itpt.env.registers.read(reg));
    }
    assert_eq!(4, itpt.env.memory.unused());
    assert_eq!(&[0u8, 0, 0, 0][..], itpt.env.memory.as_slice());
}

#[test]
fn add_two_and_three() {
    // %rax = 2, %rdx = 3, then add with function code 0: 5 lands in %rdx
    let code = vec![
        0x30u8, 0xF0, 0x02, 0x00, 0x00, 0x00, 0x00, 0x00, 0x00, 0x00,
        0x30u8, 0xF2, 0x03, 0x00, 0x00, 0x00, 0x00, 0x00, 0x00, 0x00,
        0x60u8, 0x02,
    ];
    let mut itpt = machine(code, 4);
    assert!(itpt.execute().is_ok());
    assert_eq!(5, itpt.env.registers.read(Register::RDX));
    assert_eq!(2, itpt.env.registers.read(Register::RAX));
}

#[test]
fn add_wraps_around() {
    let mut itpt = machine(vec![0x60, 0x02], 4);
    itpt.env.registers.write(Register::RAX, 1);
    itpt.env.registers.write(Register::RDX, u64::MAX);
    assert!(itpt.execute().is_ok());
    assert_eq!(0, itpt.env.registers.read(Register::RDX));
}

#[test]
fn sub_and_bitwise_ops() {
    // 0x61 subtract, 0x62 and, 0x63 xor, each %rax into %rdx
    let mut itpt = machine(vec![0x61, 0x02], 4);
    itpt.env.registers.write(Register::RAX, 2);
    itpt.env.registers.write(Register::RDX, 7);
    assert!(itpt.execute().is_ok());
    assert_eq!(5, itpt.env.registers.read(Register::RDX));

    let mut itpt = machine(vec![0x62, 0x02], 4);
    itpt.env.registers.write(Register::RAX, 0b1100);
    itpt.env.registers.write(Register::RDX, 0b1010);
    assert!(itpt.execute().is_ok());
    assert_eq!(0b1000, itpt.env.registers.read(Register::RDX));

    let mut itpt = machine(vec![0x63, 0x02], 4);
    itpt.env.registers.write(Register::RAX, 0b1100);
    itpt.env.registers.write(Register::RDX, 0b1010);
    assert!(itpt.execute().is_ok());
    assert_eq!(0b0110, itpt.env.registers.read(Register::RDX));
}

#[test]
fn register_move() {
    // rrmov %rbx, %rsi (opcode 0x20, pair byte 0x36)
    let mut itpt = machine(vec![0x20, 0x36], 4);
    itpt.env.registers.write(Register::RBX, 77);
    assert!(itpt.execute().is_ok());
    assert_eq!(77, itpt.env.registers.read(Register::RSI));
}

#[test]
fn unrecognized_opcode_fails() {
    let mut itpt = machine(vec![0xF0], 4);
    let r = itpt.execute();
    assert!(matches!(r, Err(e) if e.kind == ErrorKind::Code));
    // the opcode byte itself was consumed before the failure
    assert_eq!(1, itpt.pc);
}

#[test]
fn store_out_of_bounds_fails() {
    // rmmov %rax, 0(%rcx) against a 4-byte memory: an 8-byte store cannot fit
    let code = vec![0x40u8, 0x01, 0x00, 0x00, 0x00, 0x00, 0x00, 0x00, 0x00, 0x00];
    let mut itpt = machine(code, 4);
    let r = itpt.execute();
    assert!(matches!(r, Err(e) if e.kind == ErrorKind::Memory));
}

#[test]
fn truncated_instruction_ends_run() {
    // irmov with only two of its eight immediate bytes: end of input, a success
    let mut itpt = machine(vec![0x30, 0xF0, 0x01, 0x02], 4);
    assert!(itpt.execute().is_ok());
    assert_eq!(0, itpt.env.registers.read(Register::RAX));
}

#[test]
fn get_reg_rejects_sentinel() {
    let env = Environment { registers: Registers::default(), memory: Stack::new(1) };
    assert!(matches!(env.get_reg(Register::NoReg), Err(e) if e.kind == ErrorKind::Register));
    assert_eq!(Some(0), env.get_reg(Register::R14).ok());
}

#[test]
fn set_then_get_reg() {
    let mut env = Environment { registers: Registers::default(), memory: Stack::new(1) };
    for id in 0..15u8 {
        let reg = Register::try_from(id).unwrap();
        assert!(env.set_reg(reg, 1000 + id as u64).is_ok());
        assert_eq!(Some(1000 + id as u64), env.get_reg(reg).ok());
    }
    assert!(matches!(env.set_reg(Register::NoReg, 1), Err(e) if e.kind == ErrorKind::Register));
}

#[test]
fn register_id_out_of_range() {
    assert!(matches!(Register::try_from(16), Err(e) if e.kind == ErrorKind::Register));
    assert_eq!(Some(Register::NoReg), Register::try_from(15).ok());
    assert_eq!(Some(Register::RAX), Register::try_from(0).ok());
}

#[test]
fn decode_lengths() {
    // each recognized family consumes exactly its declared byte count
    let cases: Vec<(Vec<u8>, u64)> = vec![
        (vec![0x00], 1),                                                       // halt
        (vec![0x10], 1),                                                       // nop
        (vec![0x20, 0x01], 2),                                                 // rrmov
        (vec![0x21, 0x01], 2),                                                 // rrmov variant
        (vec![0x30, 0xF0, 0, 0, 0, 0, 0, 0, 0, 0], 10),                        // irmov
        (vec![0x40, 0x01, 0, 0, 0, 0, 0, 0, 0, 0], 10),                        // rmmov
        (vec![0x50, 0x01, 0, 0, 0, 0, 0, 0, 0, 0], 10),                        // mrmov
        (vec![0x60, 0x02], 2),                                                 // add
        (vec![0x63, 0x02], 2),                                                 // xor
        (vec![0x70, 0, 0, 0, 0, 0, 0, 0, 0], 9),                               // jmp
        (vec![0x75, 0, 0, 0, 0, 0, 0, 0, 0], 9),                               // jmp variant
        (vec![0x2F, 0x01], 2),                                                 // rrmov variant
        (vec![0x80, 0, 0, 0, 0, 0, 0, 0, 0], 9),                               // call
        (vec![0x90], 1),                                                       // ret
        (vec![0xA0, 0x0F], 2),                                                 // push
        (vec![0xB0, 0x0F], 2),                                                 // pop
    ];
    for (code, want) in cases {
        let mut itpt = machine(code, 4);
        assert!(Code::parse(&mut itpt).is_ok());
        assert_eq!(want, itpt.pc);
    }
}

#[test]
fn decode_failures() {
    // an unrecognized first byte: a code error, one byte consumed
    let mut itpt = machine(vec![0xC0, 0, 0, 0, 0, 0, 0, 0, 0], 4);
    assert!(matches!(Code::parse(&mut itpt), Err(e) if e.kind == ErrorKind::Code));
    assert_eq!(1, itpt.pc);

    // an empty stream: end of input
    let mut itpt = machine(vec![], 4);
    assert!(matches!(Code::parse(&mut itpt), Err(e) if e.kind == ErrorKind::EOF));
    assert_eq!(0, itpt.pc);

    // a truncated immediate: end of input, with the consumed bytes consumed
    let mut itpt = machine(vec![0x30, 0xF0, 0x01], 4);
    assert!(matches!(Code::parse(&mut itpt), Err(e) if e.kind == ErrorKind::EOF));
    assert_eq!(2, itpt.pc);

    // a truncated jump: end of input, with the opcode byte consumed
    let mut itpt = machine(vec![0x70, 0x01, 0x02], 4);
    assert!(matches!(Code::parse(&mut itpt), Err(e) if e.kind == ErrorKind::EOF));
    assert_eq!(1, itpt.pc);
}

#[test]
fn decode_jump() {
    let mut itpt = machine(vec![0x70, 0x08, 0x07, 0x06, 0x05, 0x04, 0x03, 0x02, 0x01], 4);
    match Code::parse(&mut itpt) {
        Ok(Code::Jump(f, target)) => {
            assert_eq!(0, f);
            assert_eq!(0x0102030405060708, target);
        },
        other => panic!("{:?}", other),
    }
    assert_eq!(9, itpt.pc);

    // a reserved jump variant decodes with its true function code
    let mut itpt = machine(vec![0x75, 0, 0, 0, 0, 0, 0, 0, 0], 4);
    assert!(matches!(Code::parse(&mut itpt), Ok(Code::Jump(5, 0))));
}

#[test]
fn jump_skips_ahead() {
    // jump to offset 10, over a byte that is never decoded, onto a halt
    let code = vec![
        0x70u8, 10, 0, 0, 0, 0, 0, 0, 0, // jmp $10
        0xFF, // never decoded
        0x00, // halt
    ];
    let mut itpt = machine(code, 4);
    assert!(itpt.execute().is_ok());
    assert_eq!(11, itpt.pc);
    for id in 0..16u8 {
        let reg = Register::try_from(id).unwrap();
        assert_eq!(0, itpt.env.registers.read(reg));
    }
}

#[test]
fn reserved_condition_codes_no_effect() {
    // a conditional move with a reserved function code moves nothing
    let mut itpt = machine(vec![0x21, 0x36], 4);
    itpt.env.registers.write(Register::RBX, 77);
    assert!(itpt.execute().is_ok());
    assert_eq!(0, itpt.env.registers.read(Register::RSI));
    assert_eq!(2, itpt.pc);

    // its function code survives decoding
    let mut itpt = machine(vec![0x2F, 0x05], 4);
    assert!(matches!(Code::parse(&mut itpt), Ok(Code::CondMove(0xF, Register::RAX, Register::RBQ))));

    // a conditional jump with a reserved function code jumps nowhere
    let mut itpt = machine(vec![0x7F, 0, 0, 0, 0, 0, 0, 0, 0], 4);
    assert!(itpt.execute().is_ok());
    assert_eq!(9, itpt.pc);
}

#[test]
fn decode_operands() {
    // irmov $0x0807060504030201, %rcx
    let mut itpt = machine(vec![0x30, 0xF1, 1, 2, 3, 4, 5, 6, 7, 8], 4);
    match Code::parse(&mut itpt) {
        Ok(Code::IRMove(imm, reg)) => {
            assert_eq!(0x0807060504030201, imm);
            assert_eq!(Register::RCX, reg);
        },
        other => panic!("{:?}", other),
    }

    // rmmov %rdx, -1(%rbx): the displacement is signed
    let mut itpt = machine(
        vec![0x40, 0x23, 0xFF, 0xFF, 0xFF, 0xFF, 0xFF, 0xFF, 0xFF, 0xFF],
        4,
    );
    match Code::parse(&mut itpt) {
        Ok(Code::RMMove(reg, ptr)) => {
            assert_eq!(Register::RDX, reg);
            assert_eq!(Register::RBX, ptr.base());
            assert_eq!(-1, ptr.offset());
        },
        other => panic!("{:?}", other),
    }
}

#[test]
fn decoded_no_ops_leave_state() {
    // call, ret, push and pop are decoded, executed as no-ops
    let code = vec![
        0x80u8, 0, 0, 0, 0, 0, 0, 0, 0, // call
        0x90, // ret
        0xA0, 0x0F, // push %rax
        0xB0, 0x1F, // pop %rcx
        0x10, // nop
    ];
    let mut itpt = machine(code, 4);
    assert!(itpt.execute().is_ok());
    assert_eq!(15, itpt.pc);
    for id in 0..16u8 {
        let reg = Register::try_from(id).unwrap();
        assert_eq!(0, itpt.env.registers.read(reg));
    }
    assert_eq!(4, itpt.env.memory.unused());
}

#[test]
fn jump_executes_directly() {
    // the executor implements the always-true jump: it retargets the counter
    let mut itpt = machine(vec![], 4);
    itpt.pc = 77;
    let r = Code::Jump(0, 3).execute(&mut itpt);
    assert!(r.is_ok());
    assert_eq!(3, itpt.pc);
}

#[test]
fn halt_signals_as_error_to_executor() {
    // the bare executor reports halt; the driving loop absorbs it
    let mut itpt = machine(vec![], 4);
    let r = Code::Halt.execute(&mut itpt);
    assert!(matches!(r, Err(e) if e.kind == ErrorKind::Halt));

    let mut itpt = machine(vec![0x00, 0xF0], 4);
    assert!(itpt.execute().is_ok());
    // the unrecognized byte after the halt was never decoded
    assert_eq!(1, itpt.pc);
}

#[test]
fn memory_byte_access() {
    let mut env = Environment { registers: Registers::default(), memory: Stack::new(4) };
    env.memory.set_byte(2, 0x5A);
    assert_eq!(0x5A, env.memory.read_byte(2));

    let ptr = y86vm::mem::Pointer::new(Register::RAX, 2);
    assert_eq!(Some(0x5A), env.get_mem(ptr).ok());
    let beyond = y86vm::mem::Pointer::new(Register::RAX, 4);
    assert!(matches!(env.get_mem(beyond), Err(e) if e.kind == ErrorKind::Memory));
}

#[test]
fn empty_program() {
    let mut itpt = machine(vec![], 4);
    assert!(itpt.execute().is_ok());
    assert_eq!(0, itpt.pc);
}

#[test]
fn counter_past_the_end() {
    let mut itpt = machine(vec![0x00, 0x00], 4);
    itpt.pc = 9;
    assert!(itpt.execute().is_ok());
    assert_eq!(9, itpt.pc);
}
