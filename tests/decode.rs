use sim8086::decode::{DecodeError, Decoder};
use sim8086::text::disassemble;

fn listing(lines: &[&str]) -> String {
    let mut s = String::from("bits 16\n\n");
    for l in lines {
        s.push_str(l);
        s.push('\n');
    }
    s
}

fn check(code: &[u8], lines: &[&str]) {
    assert_eq!(disassemble(code).unwrap(), listing(lines));
}

#[test]
fn decode_movs() {
    // many_register_mov
    check(
        &[
            0x89, 0xD9, 0x88, 0xE5, 0x89, 0xDA, 0x89, 0xDE, 0x89, 0xFB, 0x88, 0xC8, 0x88, 0xED,
            0x89, 0xC3, 0x89, 0xF3, 0x89, 0xFC, 0x89, 0xC5,
        ],
        &[
            "mov cx, bx",
            "mov ch, ah",
            "mov dx, bx",
            "mov si, bx",
            "mov bx, di",
            "mov al, cl",
            "mov ch, ch",
            "mov bx, ax",
            "mov bx, si",
            "mov sp, di",
            "mov bp, ax",
        ],
    );

    // more_movs
    check(
        &[
            0x89, 0xDE, 0x88, 0xC6, 0xB1, 0x0C, 0xB5, 0xF4, 0xB9, 0x0C, 0x00, 0xB9, 0xF4, 0xFF,
            0xBA, 0x6C, 0x0F, 0xBA, 0x94, 0xF0, 0x8A, 0x00, 0x8B, 0x1B, 0x8B, 0x56, 0x00, 0x8A,
            0x60, 0x04, 0x8A, 0x80, 0x87, 0x13, 0x89, 0x09, 0x88, 0x0A, 0x88, 0x6E, 0x00,
        ],
        &[
            "mov si, bx",
            "mov dh, al",
            "mov cl, 12",
            "mov ch, 244",
            "mov cx, 12",
            "mov cx, 65524",
            "mov dx, 3948",
            "mov dx, 61588",
            "mov al, [bx + si]",
            "mov bx, [bp + di]",
            "mov dx, [bp + 0]",
            "mov ah, [bx + si + 4]",
            "mov al, [bx + si + 4999]",
            "mov [bx + di], cx",
            "mov [bp + si], cl",
            "mov [bp + 0], ch",
        ],
    );

    // challenge_movs
    check(
        &[
            0x8B, 0x41, 0xDB, 0x89, 0x8C, 0xD4, 0xFE, 0x8B, 0x57, 0xE0, 0xC6, 0x03, 0x07, 0xC7,
            0x85, 0x85, 0x03, 0x5B, 0x01, 0x8B, 0x2E, 0x05, 0x00, 0x8B, 0x1E, 0x82, 0x0D, 0xA1,
            0xFB, 0x09, 0xA1, 0x10, 0x00, 0xA3, 0xFA, 0x09, 0xA3, 0x0F, 0x00,
        ],
        &[
            "mov ax, [bx + di - 37]",
            "mov [si - 300], cx",
            "mov dx, [bx - 32]",
            "mov [bp + di], byte 7",
            "mov [di + 901], word 347",
            "mov bp, [5]",
            "mov bx, [3458]",
            "mov ax, [2555]",
            "mov ax, [16]",
            "mov [2554], ax",
            "mov [15], ax",
        ],
    );
}

#[test]
fn decode_add_sub_cmp() {
    check(
        &[
            0x03, 0x18, 0x03, 0x5E, 0x00, 0x83, 0xC6, 0x02, 0x83, 0xC5, 0x02, 0x83, 0xC1, 0x08,
            0x03, 0x4F, 0x02, 0x02, 0x7A, 0x04, 0x03, 0x7B, 0x06, 0x01, 0x18, 0x01, 0x5E, 0x00,
            0x01, 0x4F, 0x02, 0x80, 0x07, 0x22, 0x83, 0x82, 0xE8, 0x03, 0x1D, 0x03, 0x46, 0x00,
            0x02, 0x00, 0x01, 0xD8, 0x00, 0xE0, 0x05, 0xE8, 0x03, 0x04, 0xE2, 0x04, 0x09,
        ],
        &[
            "add bx, [bx + si]",
            "add bx, [bp + 0]",
            "add si, word 2",
            "add bp, word 2",
            "add cx, word 8",
            "add cx, [bx + 2]",
            "add bh, [bp + si + 4]",
            "add di, [bp + di + 6]",
            "add [bx + si], bx",
            "add [bp + 0], bx",
            "add [bx + 2], cx",
            "add [bx], byte 34",
            "add [bp + si + 1000], word 29",
            "add ax, [bp + 0]",
            "add al, [bx + si]",
            "add ax, bx",
            "add al, ah",
            "add ax, 1000",
            "add al, 226",
            "add al, 9",
        ],
    );
    check(
        &[
            0x2B, 0x18, 0x83, 0xEE, 0x02, 0x80, 0x2F, 0x22, 0x2D, 0xE8, 0x03, 0x2C, 0x09, 0x29,
            0xD8, 0x3B, 0x18, 0x83, 0xFE, 0x02, 0x80, 0x3F, 0x22, 0x3D, 0xE8, 0x03, 0x3C, 0x09,
            0x39, 0xD8, 0x81, 0xC5, 0x03, 0x04,
        ],
        &[
            "sub bx, [bx + si]",
            "sub si, word 2",
            "sub [bx], byte 34",
            "sub ax, 1000",
            "sub al, 9",
            "sub ax, bx",
            "cmp bx, [bx + si]",
            "cmp si, word 2",
            "cmp [bx], byte 34",
            "cmp ax, 1000",
            "cmp al, 9",
            "cmp ax, bx",
            "add bp, word 1027",
        ],
    );
}

#[test]
fn jumps() {
    // Each jump's target is written relative to the jump itself.
    check(
        &[
            0x75, 0x02, 0x75, 0xFC, 0x74, 0xFE, 0x7C, 0xFA, 0x7E, 0xF8, 0x72, 0xF6, 0x76, 0xF4,
            0x7A, 0xF2, 0x70, 0xF0, 0x78, 0xEE, 0x7D, 0xEC, 0x7F, 0xEA, 0x73, 0xE8, 0x77, 0xE6,
            0x7B, 0xE4, 0x71, 0xE2, 0x79, 0xE0, 0xE2, 0xDE, 0xE1, 0xDC, 0xE0, 0xDA, 0xE3, 0xD8,
        ],
        &[
            "jne $+4", "jne $-2", "je $+0", "jl $-4", "jle $-6", "jb $-8", "jbe $-10", "jp $-12",
            "jo $-14", "js $-16", "jnl $-18", "jg $-20", "jnb $-22", "ja $-24", "jnp $-26",
            "jno $-28", "jns $-30", "loop $-32", "loopz $-34", "loopnz $-36", "jcxz $-38",
        ],
    );
}

#[test]
fn decode_errors() {
    assert_eq!(disassemble(&[0xFF, 0x00]), Err(DecodeError::UnknownOpcode(0xFF)));
    assert_eq!(disassemble(&[0x80, 0x08, 0x01]), Err(DecodeError::UnknownOpcode(0x80)));
    assert_eq!(disassemble(&[0xB8, 0x01]), Err(DecodeError::Truncated));
    assert_eq!(disassemble(&[0x8B, 0x1E, 0x64]), Err(DecodeError::Truncated));
    // A lone trailing byte ends the stream.
    assert_eq!(disassemble(&[0x89, 0xD9, 0x89]).unwrap(), listing(&["mov cx, bx"]));
    assert_eq!(disassemble(&[]).unwrap(), listing(&[]));
}

#[test]
fn decoder_keeps_position_on_error() {
    let code = [0x89, 0xD9, 0xB8, 0x01];
    let mut d = Decoder::new(&code);
    assert_eq!(d.read_position(), 0);
    assert_eq!(d.decode_next().unwrap().unwrap().text(), "mov cx, bx");
    assert_eq!(d.read_position(), 2);
    assert_eq!(d.decode_next(), Err(DecodeError::Truncated));
    assert_eq!(d.read_position(), 2);
}
