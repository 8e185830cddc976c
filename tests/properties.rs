use sim8086::decode::{DecodeError, Decoder};
use sim8086::exec::{ExecError, Executor, Flags, Registers};
use sim8086::{Opcode, Register, Word, J};

fn run_on(exe: &mut Executor) {
    let mut steps = 0;
    while exe.execute_next().unwrap().is_some() {
        steps += 1;
        assert!(steps < 100_000, "runaway program");
    }
}

fn run(code: &[u8]) -> Registers {
    let mut exe = Executor::new(Decoder::new(code));
    run_on(&mut exe);
    exe.registers
}

const NONE: Flags = Flags { sign: false, zero: false };
const ZERO: Flags = Flags { sign: false, zero: true };
const SIGN: Flags = Flags { sign: true, zero: false };

#[test]
fn sub_zero_from_zero_sets_zero() {
    let r = run(&[0xB9, 0x00, 0x00, 0x83, 0xE9, 0x00]);
    assert_eq!(r.get_reg(&Register::CX), 0);
    assert_eq!(r.flags(), ZERO);
}

#[test]
fn sub_one_from_zero_wraps_and_sets_sign() {
    let r = run(&[0xB9, 0x00, 0x00, 0x83, 0xE9, 0x01]);
    assert_eq!(r.get_reg(&Register::CX), 0xFFFF);
    assert_eq!(r.flags(), SIGN);
}

#[test]
fn cmp_equal_leaves_operand() {
    let r = run(&[0xB9, 0x00, 0x80, 0x81, 0xF9, 0x00, 0x80]);
    assert_eq!(r.get_reg(&Register::CX), 0x8000);
    assert_eq!(r.flags(), ZERO);
}

#[test]
fn single_mov() {
    let r = run(&[0xB8, 0x01, 0x00]);
    assert_eq!(r.get_reg(&Register::AX), 1);
    assert_eq!(r.ip(), 3);
}

#[test]
fn mov_mov_add() {
    let r = run(&[0xB8, 0x01, 0x00, 0xBB, 0x02, 0x00, 0x01, 0xD8]);
    assert_eq!(r.get_reg(&Register::AX), 3);
    assert_eq!(r.get_reg(&Register::BX), 2);
    assert_eq!(r.ip(), 8);
    assert_eq!(r.flags(), NONE);
}

#[test]
fn sub_register_from_zero() {
    let r = run(&[0xB9, 0x00, 0x00, 0x2B, 0xC8]);
    assert_eq!(r.get_reg(&Register::CX), 0);
    assert!(r.flags().zero);
}

#[test]
fn countdown_loop() {
    let r = run(&[0xB9, 0x03, 0x00, 0x83, 0xE9, 0x01, 0x75, 0xFB]);
    assert_eq!(r.get_reg(&Register::CX), 0);
    assert!(r.flags().zero);
    assert_eq!(r.ip(), 8);
}

#[test]
fn dec_is_not_decoded() {
    let code = [0xB8, 0x05, 0x00, 0xBB, 0x00, 0x00, 0x01, 0xD8, 0x48, 0x75, 0xFC];
    let mut exe = Executor::new(Decoder::new(&code));
    for _ in 0..3 {
        assert!(exe.execute_next().unwrap().is_some());
    }
    let before = exe.registers;
    assert_eq!(
        exe.execute_next(),
        Err(ExecError::Decode(DecodeError::UnknownOpcode(0x48)))
    );
    assert_eq!(exe.registers, before);
}

#[test]
fn mov_register_to_register() {
    let code = [0x89, 0xD8];
    let mut exe = Executor::new(Decoder::new(&code));
    exe.registers.set(&Register::BX, 0xBEEF);
    run_on(&mut exe);
    assert_eq!(exe.registers.get_reg(&Register::AX), 0xBEEF);
}

#[test]
fn mov_word_immediate_to_memory() {
    let code = [0xC7, 0x06, 0x34, 0x12, 0xCD, 0xAB];
    let mut exe = Executor::new(Decoder::new(&code));
    run_on(&mut exe);
    assert_eq!(&exe.memory.dump()[0x1234..0x1236], &[0xCD, 0xAB]);
    assert_eq!(exe.memory.load(0x1234).to_u16(), 0xABCD);
}

#[test]
fn byte_aliased_register_writes() {
    let r = run(&[0xB8, 0x34, 0x12, 0xB0, 0xFF]);
    assert_eq!(r.get_reg(&Register::AX), 0x12FF);
    assert_eq!(r.get_reg(&Register::AL), 0xFF);
    assert_eq!(r.get_reg(&Register::AH), 0x12);
    let r = run(&[0xB8, 0x34, 0x12, 0xB4, 0xFF]);
    assert_eq!(r.get_reg(&Register::AX), 0xFF34);

    let mut regs = Registers::new();
    regs.set(&Register::DX, 0xABCD);
    regs.set(&Register::DL, 0x1FF);
    assert_eq!(regs.get_reg(&Register::DX), 0xABFF);
    regs.set(&Register::DH, 0x01);
    assert_eq!(regs.get_reg(&Register::DX), 0x01FF);
}

#[test]
fn memory_round_trip_through_movs() {
    for ax in [0u16, 1, 0x8000, 0xABCD, 0xFFFF] {
        let code = [0xA3, 0x64, 0x00, 0x8B, 0x1E, 0x64, 0x00];
        let mut exe = Executor::new(Decoder::new(&code));
        exe.registers.set(&Register::AX, ax);
        run_on(&mut exe);
        assert_eq!(exe.registers.get_reg(&Register::BX), ax);
    }
}

#[test]
fn memory_word_wraps_at_top() {
    let mut exe = Executor::new(Decoder::new(&[]));
    exe.memory.store(0xFFFF, Word::new(0x11, 0x22));
    let image = exe.memory.dump();
    assert_eq!(image.len(), 65536);
    assert_eq!(image[0xFFFF], 0x11);
    assert_eq!(image[0], 0x22);
    assert_eq!(exe.memory.load(0xFFFF), Word::new(0x11, 0x22));
}

#[test]
fn effective_address_arithmetic() {
    let code = [0x8B, 0x40, 0x05];
    let mut exe = Executor::new(Decoder::new(&code));
    exe.registers.set(&Register::BX, 1000);
    exe.registers.set(&Register::SI, 50);
    exe.memory.store(1055, Word::new(0x34, 0x12));
    run_on(&mut exe);
    assert_eq!(exe.registers.get_reg(&Register::AX), 0x1234);
}

#[test]
fn negative_displacement_wraps() {
    // mov ax, [bx - 2] with bx = 1 reads from 0xFFFF.
    let code = [0x8B, 0x47, 0xFE];
    let mut exe = Executor::new(Decoder::new(&code));
    exe.registers.set(&Register::BX, 1);
    exe.memory.store(0xFFFF, Word::new(0x78, 0x56));
    run_on(&mut exe);
    assert_eq!(exe.registers.get_reg(&Register::AX), 0x5678);
}

#[test]
fn ip_follows_each_instruction() {
    let code = [0xB8, 0x01, 0x00, 0x89, 0xD8, 0xC7, 0x06, 0x34, 0x12, 0xCD, 0xAB, 0x04, 0x01];
    let mut exe = Executor::new(Decoder::new(&code));
    let mut k = 0u16;
    for n in [3u16, 2, 6, 2] {
        let (_, diff) = exe.execute_next().unwrap().unwrap();
        assert_eq!(diff.0.ip(), k);
        assert_eq!(diff.1.ip(), k + n);
        k += n;
    }
    assert_eq!(exe.execute_next(), Ok(None));
}

#[test]
fn classifier_totality() {
    let mut recognized = Vec::new();
    recognized.extend(0x00u8..=0x05);
    recognized.extend(0x28u8..=0x2D);
    recognized.extend(0x38u8..=0x3D);
    recognized.extend(0x70u8..=0x7F);
    recognized.extend(0x88u8..=0x8B);
    recognized.extend(0xA0u8..=0xA3);
    recognized.extend(0xB0u8..=0xBF);
    recognized.extend(0xC6u8..=0xC7);
    recognized.extend(0xE0u8..=0xE3);
    for hi in 0..=255u8 {
        for lo in recognized.iter() {
            assert!(Opcode::try_from(&Word::new(*lo, hi)).is_some(), "{lo:#x} {hi:#x}");
        }
        assert!(Opcode::try_from(&Word::new(0xFF, hi)).is_none());
        let ext = (hi >> 3) & 7;
        for lo in 0x80u8..=0x83 {
            let got = Opcode::try_from(&Word::new(lo, hi));
            assert_eq!(got.is_some(), ext == 0 || ext == 5 || ext == 7);
        }
    }
    assert_eq!(Opcode::try_from(&Word::new(0x75, 0)), Some(Opcode::J(J::Jne)));
}

#[test]
fn unmodeled_jump_is_refused() {
    let code = [0xB8, 0x01, 0x00, 0x7C, 0x02];
    let mut exe = Executor::new(Decoder::new(&code));
    exe.execute_next().unwrap().unwrap();
    let before = exe.registers;
    assert_eq!(exe.execute_next(), Err(ExecError::Unsupported(Opcode::J(J::Jl))));
    assert_eq!(exe.registers, before);
    assert_eq!(exe.decoder.read_position(), 3);
}

#[test]
fn loop_counts_cx_down() {
    // mov cx, 3; mov ax, 0; add ax, 2; loop back to the add
    let r = run(&[0xB9, 0x03, 0x00, 0xB8, 0x00, 0x00, 0x05, 0x02, 0x00, 0xE2, 0xFB]);
    assert_eq!(r.get_reg(&Register::AX), 6);
    assert_eq!(r.get_reg(&Register::CX), 0);
    assert_eq!(r.ip(), 11);
}

#[test]
fn jcxz_and_je_and_js() {
    // jcxz over a mov: cx is zero, so ax stays zero.
    let r = run(&[0xE3, 0x03, 0xB8, 0x01, 0x00]);
    assert_eq!(r.get_reg(&Register::AX), 0);
    assert_eq!(r.ip(), 5);
    // sub ax, 1 sets sign; js skips the mov to bx; jns does not jump.
    let r = run(&[0x2D, 0x01, 0x00, 0x78, 0x03, 0xBB, 0x07, 0x00, 0x79, 0x10]);
    assert_eq!(r.get_reg(&Register::BX), 0);
    assert_eq!(r.ip(), 10);
    // cmp ax, 0 sets zero; je is taken.
    let r = run(&[0x3D, 0x00, 0x00, 0x74, 0x03, 0xBB, 0x07, 0x00]);
    assert_eq!(r.get_reg(&Register::BX), 0);
}

#[test]
fn byte_arithmetic_wraps_at_eight_bits() {
    // mov ax, 0x12FF; add al, 1
    let r = run(&[0xB8, 0xFF, 0x12, 0x04, 0x01]);
    assert_eq!(r.get_reg(&Register::AX), 0x1200);
    assert_eq!(r.flags(), ZERO);
    // mov ah, 0x7F; add ah, 1 (add r/m8, imm8)
    let r = run(&[0xB4, 0x7F, 0x80, 0xC4, 0x01]);
    assert_eq!(r.get_reg(&Register::AH), 0x80);
    assert_eq!(r.flags(), SIGN);
}

#[test]
fn arithmetic_into_memory() {
    // mov word [10], 5; sub word [10], 7; cmp byte [10], 0xFE
    let code = [
        0xC7, 0x06, 0x0A, 0x00, 0x05, 0x00, 0x81, 0x2E, 0x0A, 0x00, 0x07, 0x00, 0x80, 0x3E, 0x0A,
        0x00, 0xFE,
    ];
    let mut exe = Executor::new(Decoder::new(&code));
    exe.execute_next().unwrap();
    exe.execute_next().unwrap();
    assert_eq!(exe.memory.load(10).to_u16(), 0xFFFE);
    assert_eq!(exe.registers.flags(), SIGN);
    exe.execute_next().unwrap();
    assert_eq!(exe.registers.flags(), ZERO);
    assert_eq!(exe.memory.load(10).to_u16(), 0xFFFE);
    assert_eq!(exe.memory.load_byte(11), 0xFF);
}
