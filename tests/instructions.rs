use lc3::instructions::{add, add_wrapping, and, br, jmp, jsr, ld, ldi, ldr, lea, not, st, sti, str};
use lc3::memory::{mem_read, Memory};
use lc3::registers::{update_flags, Register, RegisterFile, COND, PC};

fn regs() -> RegisterFile {
    RegisterFile::new(0x3000)
}

#[test]
fn add_immediate_positive() {
    let mut r = regs();
    r.write(Register::R2, 5);
    // ADD R1, R2, #-1
    add(0x12BF, &mut r);
    assert_eq!(r.read(Register::R1), 4);
    assert_eq!(r.read(Register::Cond), 1);
}

#[test]
fn add_immediate_zero() {
    let mut r = regs();
    r.write(Register::R2, 1);
    add(0x12BF, &mut r);
    assert_eq!(r.read(Register::R1), 0);
    assert_eq!(r.read(Register::Cond), 2);
}

#[test]
fn add_register_mode_wraps() {
    let mut r = regs();
    r.write(Register::R2, 0xFFFF);
    r.write(Register::R3, 2);
    // ADD R1, R2, R3
    add(0x1283, &mut r);
    assert_eq!(r.read(Register::R1), 1);
    assert_eq!(r.read(Register::Cond), 1);
    assert_eq!(add_wrapping(0x8000, 0x8000), 0);
}

#[test]
fn and_immediate() {
    let mut r = regs();
    r.write(Register::R2, 0b0110);
    // AND R1, R2, #3
    and(0x52A3, &mut r);
    assert_eq!(r.read(Register::R1), 0b0010);
    assert_eq!(r.read(Register::Cond), 1);
}

#[test]
fn and_register_mode_negative() {
    let mut r = regs();
    r.write(Register::R2, 0xF0F0);
    r.write(Register::R3, 0x8F00);
    // AND R1, R2, R3
    and(0x5283, &mut r);
    assert_eq!(r.read(Register::R1), 0x8000);
    assert_eq!(r.read(Register::Cond), 4);
}

#[test]
fn not_of_zero() {
    let mut r = regs();
    // NOT R1, R2
    not(0x92BF, &mut r);
    assert_eq!(r.read(Register::R1), 0xFFFF);
    assert_eq!(r.read(Register::Cond), 4);
}

#[test]
fn jmp_through_r7() {
    let mut r = regs();
    r.write(Register::R7, 0x1234);
    r.write(Register::Cond, 2);
    // JMP R7
    jmp(0xC1C0, &mut r);
    assert_eq!(r.read(Register::Pc), 0x1234);
    assert_eq!(r.read(Register::Cond), 2);
    assert_eq!(r.read(Register::R7), 0x1234);
}

#[test]
fn br_taken_and_not_taken() {
    let mut r = regs();
    r.write(Register::Cond, 2);
    // BRz #-2
    br(0x05FE, &mut r);
    assert_eq!(r.get(PC), 0x2FFE);
    // BRnp #5: not taken on zero
    br(0x0A05, &mut r);
    assert_eq!(r.get(PC), 0x2FFE);
}

#[test]
fn jsr_and_jsrr() {
    let mut r = regs();
    // JSR #0x10
    jsr(0x4810, &mut r);
    assert_eq!(r.read(Register::R7), 0x3000);
    assert_eq!(r.get(PC), 0x3010);
    r.write(Register::R3, 0x4000);
    // JSRR R3
    jsr(0x40C0, &mut r);
    assert_eq!(r.read(Register::R7), 0x3010);
    assert_eq!(r.get(PC), 0x4000);
}

#[test]
fn loads_and_lea() {
    let mut m = Memory::new();
    m.write(0x3005, 0x3100);
    m.write(0x3100, 0x8001);
    m.write(0x4002, 7);
    let mut r = regs();
    // LD R0, #5
    ld(0x2005, &mut r, &m);
    assert_eq!(r.read(Register::R0), 0x3100);
    assert_eq!(r.get(COND), 1);
    // LDI R1, #5
    ldi(0xA205, &mut r, &m);
    assert_eq!(r.read(Register::R1), 0x8001);
    assert_eq!(r.get(COND), 4);
    // LDR R2, R4, #2
    r.write(Register::R4, 0x4000);
    ldr(0x6502, &mut r, &m);
    assert_eq!(r.read(Register::R2), 7);
    // LEA R3, #-1
    lea(0xE7FF, &mut r);
    assert_eq!(r.read(Register::R3), 0x2FFF);
    assert_eq!(r.get(COND), 1);
}

#[test]
fn stores() {
    let mut m = Memory::new();
    let mut r = regs();
    r.write(Register::R1, 0xBEEF);
    // ST R1, #2
    st(0x3202, &r, &mut m);
    assert_eq!(m.read(0x3002), 0xBEEF);
    // STR R1, R4, #-1
    r.write(Register::R4, 0x5000);
    str(0x733F, &r, &mut m);
    assert_eq!(m.read(0x4FFF), 0xBEEF);
    // STI R1, #3 through the pointer at 0x3003
    m.write(0x3003, 0x6000);
    sti(0xB203, &r, &mut m);
    assert_eq!(mem_read(0x6000, &m), 0xBEEF);
}

#[test]
fn update_flags_sets_cond() {
    let mut r = regs();
    r.set(5, 0x9000);
    update_flags(5, &mut r);
    assert_eq!(r.get(COND), 4);
    r.set(5, 0);
    update_flags(5, &mut r);
    assert_eq!(r.get(COND), 2);
}
