use vstd::prelude::*;
use crate::bits::{extend, sign_extended};

verus! {

/// The sixteen opcodes, in the order of their 4-bit codes.
#[derive(Clone, Copy, Debug, PartialEq, Eq, Structural)]
pub enum Opcode {
    Br,
    Add,
    Ld,
    St,
    Jsr,
    And,
    Ldr,
    Str,
    Rti,
    Not,
    Ldi,
    Sti,
    Jmp,
    Res,
    Lea,
    Trap,
}

/// The 4-bit code of an opcode.
pub open spec fn code_of(op: Opcode) -> u16 {
    match op {
        Opcode::Br => 0,
        Opcode::Add => 1,
        Opcode::Ld => 2,
        Opcode::St => 3,
        Opcode::Jsr => 4,
        Opcode::And => 5,
        Opcode::Ldr => 6,
        Opcode::Str => 7,
        Opcode::Rti => 8,
        Opcode::Not => 9,
        Opcode::Ldi => 10,
        Opcode::Sti => 11,
        Opcode::Jmp => 12,
        Opcode::Res => 13,
        Opcode::Lea => 14,
        Opcode::Trap => 15,
    }
}

/// The opcode field, bits 15 to 12.
pub open spec fn op_field(instr: u16) -> u16 {
    instr >> 12u16
}

/// The opcode of an instruction word.
pub open spec fn opcode(instr: u16) -> Opcode {
    let c = op_field(instr);
    if c == 0 { Opcode::Br }
    else if c == 1 { Opcode::Add }
    else if c == 2 { Opcode::Ld }
    else if c == 3 { Opcode::St }
    else if c == 4 { Opcode::Jsr }
    else if c == 5 { Opcode::And }
    else if c == 6 { Opcode::Ldr }
    else if c == 7 { Opcode::Str }
    else if c == 8 { Opcode::Rti }
    else if c == 9 { Opcode::Not }
    else if c == 10 { Opcode::Ldi }
    else if c == 11 { Opcode::Sti }
    else if c == 12 { Opcode::Jmp }
    else if c == 13 { Opcode::Res }
    else if c == 14 { Opcode::Lea }
    else { Opcode::Trap }
}

/// Bits 11 to 9: the destination register, the source of a store, or the
/// condition bits of a branch.
pub open spec fn dr(instr: u16) -> u16 {
    (instr >> 9u16) & 7u16
}

/// Bits 8 to 6: the first source register, or a base register.
pub open spec fn sr1(instr: u16) -> u16 {
    (instr >> 6u16) & 7u16
}

/// Bits 2 to 0: the second source register.
pub open spec fn sr2(instr: u16) -> u16 {
    instr & 7u16
}

/// Bit 5: immediate mode of ADD and AND.
pub open spec fn imm_mode(instr: u16) -> bool {
    (instr >> 5u16) & 1u16 == 1u16
}

/// Bit 11: PC-relative mode of JSR.
pub open spec fn long_mode(instr: u16) -> bool {
    (instr >> 11u16) & 1u16 == 1u16
}

/// The sign-extended 5-bit immediate.
pub open spec fn imm5(instr: u16) -> u16 {
    sign_extended(instr & 0x1Fu16, 5)
}

/// The sign-extended 6-bit offset.
pub open spec fn offset6(instr: u16) -> u16 {
    sign_extended(instr & 0x3Fu16, 6)
}

/// The sign-extended 9-bit PC-relative offset.
pub open spec fn pc_offset9(instr: u16) -> u16 {
    sign_extended(instr & 0x1FFu16, 9)
}

/// The sign-extended 11-bit PC-relative offset.
pub open spec fn pc_offset11(instr: u16) -> u16 {
    sign_extended(instr & 0x7FFu16, 11)
}

/// The 8-bit trap vector.
pub open spec fn trap_vector(instr: u16) -> u8 {
    (instr & 0xFFu16) as u8
}

impl Opcode {
    /// The opcode with 4-bit code `code`; `None` for a value above 15.
    pub fn from_code(code: u16) -> (r: Option<Opcode>)
        ensures
            r is Some <==> code < 16,
            r matches Some(op) ==> code_of(op) == code,
    {
        if code == 0 { Some(Opcode::Br) }
        else if code == 1 { Some(Opcode::Add) }
        else if code == 2 { Some(Opcode::Ld) }
        else if code == 3 { Some(Opcode::St) }
        else if code == 4 { Some(Opcode::Jsr) }
        else if code == 5 { Some(Opcode::And) }
        else if code == 6 { Some(Opcode::Ldr) }
        else if code == 7 { Some(Opcode::Str) }
        else if code == 8 { Some(Opcode::Rti) }
        else if code == 9 { Some(Opcode::Not) }
        else if code == 10 { Some(Opcode::Ldi) }
        else if code == 11 { Some(Opcode::Sti) }
        else if code == 12 { Some(Opcode::Jmp) }
        else if code == 13 { Some(Opcode::Res) }
        else if code == 14 { Some(Opcode::Lea) }
        else if code == 15 { Some(Opcode::Trap) }
        else { None }
    }

    /// The 4-bit code of this opcode.
    pub fn code(&self) -> (r: u16)
        ensures
            r == code_of(*self),
    {
        match self {
            Opcode::Br => 0,
            Opcode::Add => 1,
            Opcode::Ld => 2,
            Opcode::St => 3,
            Opcode::Jsr => 4,
            Opcode::And => 5,
            Opcode::Ldr => 6,
            Opcode::Str => 7,
            Opcode::Rti => 8,
            Opcode::Not => 9,
            Opcode::Ldi => 10,
            Opcode::Sti => 11,
            Opcode::Jmp => 12,
            Opcode::Res => 13,
            Opcode::Lea => 14,
            Opcode::Trap => 15,
        }
    }
}

/// The opcode of the instruction word `instr`.
pub fn decode_opcode(instr: u16) -> (r: Opcode)
    ensures
        r == opcode(instr),
        code_of(r) == op_field(instr),
{
    let code = instr >> 12;
    assert(code < 16) by (bit_vector)
        requires
            code == instr >> 12u16,
    ;
    match Opcode::from_code(code) {
        Some(op) => op,
        None => Opcode::Trap,
    }
}

/// The field of bits 11 to 9.
pub fn dr_field(instr: u16) -> (r: u16)
    ensures
        r == dr(instr),
        r < 8,
{
    let r = (instr >> 9) & 7;
    assert(r < 8) by (bit_vector)
        requires
            r == (instr >> 9u16) & 7u16,
    ;
    r
}

/// The field of bits 8 to 6.
pub fn sr1_field(instr: u16) -> (r: u16)
    ensures
        r == sr1(instr),
        r < 8,
{
    let r = (instr >> 6) & 7;
    assert(r < 8) by (bit_vector)
        requires
            r == (instr >> 6u16) & 7u16,
    ;
    r
}

/// The field of bits 2 to 0.
pub fn sr2_field(instr: u16) -> (r: u16)
    ensures
        r == sr2(instr),
        r < 8,
{
    let r = instr & 7;
    assert(r < 8) by (bit_vector)
        requires
            r == instr & 7u16,
    ;
    r
}

/// Whether bit 5 selects immediate mode.
pub fn imm_mode_bit(instr: u16) -> (r: bool)
    ensures
        r == imm_mode(instr),
{
    (instr >> 5) & 1 == 1
}

/// Whether bit 11 selects the PC-relative form of JSR.
pub fn long_mode_bit(instr: u16) -> (r: bool)
    ensures
        r == long_mode(instr),
{
    (instr >> 11) & 1 == 1
}

/// The sign-extended 5-bit immediate.
pub fn imm5_field(instr: u16) -> (r: u16)
    ensures
        r == imm5(instr),
{
    extend(instr & 0x1F, 5)
}

/// The sign-extended 6-bit offset.
pub fn offset6_field(instr: u16) -> (r: u16)
    ensures
        r == offset6(instr),
{
    extend(instr & 0x3F, 6)
}

/// The sign-extended 9-bit PC-relative offset.
pub fn pc_offset9_field(instr: u16) -> (r: u16)
    ensures
        r == pc_offset9(instr),
{
    extend(instr & 0x1FF, 9)
}

/// The sign-extended 11-bit PC-relative offset.
pub fn pc_offset11_field(instr: u16) -> (r: u16)
    ensures
        r == pc_offset11(instr),
{
    extend(instr & 0x7FF, 11)
}

/// The 8-bit trap vector.
pub fn trap_vector_field(instr: u16) -> (r: u8)
    ensures
        r == trap_vector(instr),
{
    (instr & 0xFF) as u8
}

} // verus!
