use lc3::decode::{decode_opcode, Opcode};
use lc3::image::decode_image;
use lc3::machine::{Machine, Outcome};
use lc3::registers::{Register, COND, PC};

#[test]
fn load_then_store_same_address_keeps_memory() {
    let mut m = Machine::new();
    // LD R3, #5 ; ST R3, #4 ; both address 0x3006
    m.memory.write(0x3000, 0x2605);
    m.memory.write(0x3001, 0x3604);
    m.memory.write(0x3006, 0xBEEF);
    assert_eq!(m.step(), Outcome::Continue);
    assert_eq!(m.registers.read(Register::R3), 0xBEEF);
    assert_eq!(m.step(), Outcome::Continue);
    assert_eq!(m.memory.read(0x3006), 0xBEEF);
    assert_eq!(m.memory.read(0x3000), 0x2605);
}

#[test]
fn ldr_then_str_same_address_keeps_memory() {
    let mut m = Machine::new();
    m.registers.write(Register::R1, 0x4000);
    // LDR R2, R1, #3 ; STR R2, R1, #3
    m.memory.write(0x3000, 0x6443);
    m.memory.write(0x3001, 0x7443);
    m.memory.write(0x4003, 0x1357);
    m.step();
    m.step();
    assert_eq!(m.memory.read(0x4003), 0x1357);
    assert_eq!(m.registers.read(Register::R2), 0x1357);
}

#[test]
fn unsupported_opcode_halts() {
    for word in [0x8000u16, 0xD000u16] {
        let mut m = Machine::new();
        m.memory.write(0x3000, word);
        m.registers.write(Register::R4, 9);
        let op = decode_opcode(word);
        assert_eq!(m.step(), Outcome::Unsupported(op));
        assert!(!m.running);
        assert_eq!(m.registers.get(PC), 0x3001);
        assert_eq!(m.registers.read(Register::R4), 9);
        assert_eq!(m.registers.get(COND), 0);
        assert_eq!(m.memory.read(0x3000), word);
        assert_eq!(m.step(), Outcome::Halted);
        assert_eq!(m.registers.get(PC), 0x3001);
    }
    assert_eq!(decode_opcode(0x8000), Opcode::Rti);
    assert_eq!(decode_opcode(0xD000), Opcode::Res);
}

#[test]
fn trap_is_handed_back() {
    let mut m = Machine::new();
    m.memory.write(0x3000, 0xF025);
    assert_eq!(m.step(), Outcome::Trap(0x25));
    assert!(m.running);
    assert_eq!(m.registers.get(PC), 0x3001);
    m.halt();
    assert_eq!(m.step(), Outcome::Halted);
}

#[test]
fn small_program_runs() {
    let mut m = Machine::new();
    // AND R0,R0,#0 ; ADD R0,R0,#3 ; ADD R0,R0,#-1 ; BRp #-2 ; TRAP x25
    let prog: [u16; 5] = [0x5020, 0x1023, 0x103F, 0x03FE, 0xF025];
    for (i, w) in prog.iter().enumerate() {
        m.memory.write(0x3000 + i as u16, *w);
    }
    let mut steps = 0;
    loop {
        match m.step() {
            Outcome::Continue => steps += 1,
            other => {
                assert_eq!(other, Outcome::Trap(0x25));
                break;
            }
        }
        assert!(steps < 100);
    }
    assert_eq!(m.registers.read(Register::R0), 0);
    assert_eq!(m.registers.get(COND), 2);
}

#[test]
fn opcode_codes() {
    for c in 0u16..16 {
        let op = Opcode::from_code(c).unwrap();
        assert_eq!(op.code(), c);
        assert_eq!(decode_opcode(c << 12), op);
    }
    assert_eq!(Opcode::from_code(16), None);
}

#[test]
fn image_decoding_and_loading() {
    let bytes = vec![0x30, 0x00, 0x12, 0x34, 0xAB, 0xCD];
    let (origin, words) = decode_image(&bytes).unwrap();
    assert_eq!(origin, 0x3000);
    assert_eq!(words, vec![0x1234, 0xABCD]);
    let mut m = Machine::new();
    m.memory.load(origin, &words);
    assert_eq!(m.memory.read(0x3001), 0xABCD);
    assert_eq!(m.memory.read(0x3002), 0);
    assert_eq!(decode_image(&vec![0x30]), None);
    assert_eq!(decode_image(&vec![0x30, 0x00, 0x12]), None);
    assert_eq!(decode_image(&vec![]), None);
    assert_eq!(decode_image(&vec![0xFF, 0xFF, 0, 1, 0, 2]), None);
    assert_eq!(decode_image(&vec![0xFF, 0xFF, 0, 1]).unwrap().1, vec![1]);
}

#[test]
fn string_at_stops_at_zero() {
    let mut m = Machine::new();
    m.memory.write(0x4000, 'H' as u16);
    m.memory.write(0x4001, 'i' as u16);
    assert_eq!(m.memory.string_at(0x4000), vec!['H' as u16, 'i' as u16]);
    assert_eq!(m.memory.string_at(0x4002), Vec::<u16>::new());
    m.memory.write(0xFFFF, 'a' as u16);
    m.memory.write(0x0000, 'b' as u16);
    assert_eq!(m.memory.string_at(0xFFFF), vec!['a' as u16, 'b' as u16]);
}
