use sim8086::decode::Decoder;
use sim8086::exec::{Executor, Flags, Registers};
use sim8086::Register;

/// Runs `code` to its end from zeroed registers and memory.
fn run(code: &[u8]) -> (Registers, Vec<u8>) {
    let mut exe = Executor::new(Decoder::new(code));
    let mut steps = 0;
    while exe.execute_next().unwrap().is_some() {
        steps += 1;
        assert!(steps < 1_000_000, "runaway program");
    }
    (exe.registers, exe.memory.dump())
}

fn reg(r: &Registers, name: Register) -> u16 {
    r.get_reg(&name)
}

const NONE: Flags = Flags { sign: false, zero: false };
const ZERO: Flags = Flags { sign: false, zero: true };
const SIGN: Flags = Flags { sign: true, zero: false };

#[test]
fn exec_movs() {
    // immediate_movs
    let (r, _) = run(&[
        0xB8, 0x01, 0x00, 0xBB, 0x02, 0x00, 0xB9, 0x03, 0x00, 0xBA, 0x04, 0x00, 0xBC, 0x05, 0x00,
        0xBD, 0x06, 0x00, 0xBE, 0x07, 0x00, 0xBF, 0x08, 0x00,
    ]);
    let expected = [
        (Register::AX, 1),
        (Register::BX, 2),
        (Register::CX, 3),
        (Register::DX, 4),
        (Register::SP, 5),
        (Register::BP, 6),
        (Register::SI, 7),
        (Register::DI, 8),
    ];
    for (name, v) in expected {
        assert_eq!(reg(&r, name), v);
    }
    assert_eq!(r.ip(), 24);
    assert_eq!(r.flags(), NONE);

    // register_movs
    let (r, _) = run(&[
        0xB8, 0x01, 0x00, 0xBB, 0x02, 0x00, 0xB9, 0x03, 0x00, 0xBA, 0x04, 0x00, 0x89, 0xC4, 0x89,
        0xDD, 0x89, 0xCE, 0x89, 0xD7, 0x89, 0xE2, 0x89, 0xE9, 0x89, 0xF3, 0x89, 0xF8,
    ]);
    let expected = [
        (Register::AX, 4),
        (Register::BX, 3),
        (Register::CX, 2),
        (Register::DX, 1),
        (Register::SP, 1),
        (Register::BP, 2),
        (Register::SI, 3),
        (Register::DI, 4),
    ];
    for (name, v) in expected {
        assert_eq!(reg(&r, name), v);
    }
    assert_eq!(r.ip(), 28);
}

#[test]
fn exec_add_sub_cmp() {
    let (r, _) = run(&[
        0xBB, 0x03, 0xF0, 0xB9, 0x01, 0x0F, 0x29, 0xCB, 0xBC, 0xE6, 0x03, 0xBD, 0xE7, 0x03, 0x39,
        0xE5, 0x81, 0xC5, 0x03, 0x04, 0x81, 0xED, 0xEA, 0x07,
    ]);
    assert_eq!(reg(&r, Register::BX), 0xE102);
    assert_eq!(reg(&r, Register::CX), 0x0F01);
    assert_eq!(reg(&r, Register::SP), 0x03E6);
    assert_eq!(reg(&r, Register::BP), 0);
    assert_eq!(r.ip(), 24);
    assert_eq!(r.flags(), ZERO);
}

#[test]
fn ip_tracking() {
    let code = [
        0xB9, 0xC8, 0x00, 0x89, 0xCB, 0x81, 0xC1, 0xE8, 0x03, 0xBB, 0xD0, 0x07, 0x29, 0xD9,
    ];
    let mut exe = Executor::new(Decoder::new(&code));
    let mut ips = Vec::new();
    while let Some((_, diff)) = exe.execute_next().unwrap() {
        ips.push(diff.1.ip());
    }
    assert_eq!(ips, vec![3, 5, 9, 12, 14]);
    let r = exe.registers;
    assert_eq!(reg(&r, Register::BX), 0x07D0);
    assert_eq!(reg(&r, Register::CX), 0xFCE0);
    assert_eq!(r.flags(), SIGN);
}

#[test]
fn conditional_jumps() {
    let (r, _) = run(&[
        0xB9, 0x03, 0x00, 0xBB, 0xE8, 0x03, 0x83, 0xC3, 0x0A, 0x83, 0xE9, 0x01, 0x75, 0xF8,
    ]);
    assert_eq!(reg(&r, Register::BX), 0x0406);
    assert_eq!(reg(&r, Register::CX), 0);
    assert_eq!(r.ip(), 14);
    assert_eq!(r.flags(), ZERO);
}

#[test]
fn memory_movs() {
    let (r, mem) = run(&[
        0xC7, 0x06, 0xE8, 0x03, 0x01, 0x00, 0xC7, 0x06, 0xEA, 0x03, 0x02, 0x00, 0xC7, 0x06, 0xEC,
        0x03, 0x03, 0x00, 0xC7, 0x06, 0xEE, 0x03, 0x04, 0x00, 0xBB, 0xE8, 0x03, 0xC7, 0x47, 0x04,
        0x0A, 0x00, 0x8B, 0x1E, 0xE8, 0x03, 0x8B, 0x0E, 0xEA, 0x03, 0x8B, 0x16, 0xEC, 0x03, 0x8B,
        0x2E, 0xEE, 0x03,
    ]);
    assert_eq!(reg(&r, Register::BX), 1);
    assert_eq!(reg(&r, Register::CX), 2);
    assert_eq!(reg(&r, Register::DX), 10);
    assert_eq!(reg(&r, Register::BP), 4);
    assert_eq!(r.ip(), 48);
    assert_eq!(&mem[1000..1008], &[1, 0, 2, 0, 10, 0, 4, 0]);
}

#[test]
fn memory_add_loop() {
    // memory_add_loop
    let (r, mem) = run(&[
        0xBA, 0x06, 0x00, 0xBD, 0xE8, 0x03, 0xBE, 0x00, 0x00, 0x89, 0x32, 0x83, 0xC6, 0x02, 0x39,
        0xD6, 0x75, 0xF7, 0xBB, 0x00, 0x00, 0xBE, 0x00, 0x00, 0x8B, 0x0A, 0x01, 0xCB, 0x83, 0xC6,
        0x02, 0x39, 0xD6, 0x75, 0xF5,
    ]);
    assert_eq!(reg(&r, Register::BX), 6);
    assert_eq!(reg(&r, Register::CX), 4);
    assert_eq!(reg(&r, Register::DX), 6);
    assert_eq!(reg(&r, Register::BP), 1000);
    assert_eq!(reg(&r, Register::SI), 6);
    assert_eq!(r.ip(), 35);
    assert_eq!(r.flags(), ZERO);
    assert_eq!(&mem[1000..1006], &[0, 0, 2, 0, 4, 0]);

    // add_loop_challenge
    let (r, _) = run(&[
        0xBA, 0x06, 0x00, 0xBD, 0xE8, 0x03, 0xBE, 0x00, 0x00, 0x89, 0x32, 0x83, 0xC6, 0x02, 0x39,
        0xD6, 0x75, 0xF7, 0xBB, 0x00, 0x00, 0x89, 0xD6, 0x83, 0xED, 0x02, 0x03, 0x1A, 0x83, 0xEE,
        0x02, 0x75, 0xF9,
    ]);
    assert_eq!(reg(&r, Register::BX), 6);
    assert_eq!(reg(&r, Register::DX), 6);
    assert_eq!(reg(&r, Register::BP), 998);
    assert_eq!(reg(&r, Register::SI), 0);
    assert_eq!(r.ip(), 33);
    assert_eq!(r.flags(), ZERO);
}

#[test]
fn draw_rectangle_img() {
    let (r, mem) = run(&[
        0xBD, 0x00, 0x01, 0xBA, 0x00, 0x00, 0xB9, 0x00, 0x00, 0x89, 0x4E, 0x00, 0x89, 0x56, 0x02,
        0xC6, 0x46, 0x03, 0xFF, 0x83, 0xC5, 0x04, 0x83, 0xC1, 0x01, 0x83, 0xF9, 0x40, 0x75, 0xEB,
        0x83, 0xC2, 0x01, 0x83, 0xFA, 0x40, 0x75, 0xE0,
    ]);
    assert_eq!(reg(&r, Register::CX), 64);
    assert_eq!(reg(&r, Register::DX), 64);
    assert_eq!(reg(&r, Register::BP), 0x4100);
    assert_eq!(r.ip(), 38);
    assert_eq!(r.flags(), ZERO);
    for y in 0..64usize {
        for x in 0..64usize {
            let at = 256 + 4 * (64 * y + x);
            assert_eq!(&mem[at..at + 4], &[x as u8, 0, y as u8, 255]);
        }
    }
    assert!(mem[..256].iter().all(|b| *b == 0));
    assert!(mem[0x4100..].iter().all(|b| *b == 0));
}
