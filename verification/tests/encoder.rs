use asm8080::ast::{ArithmeticType, JmpType, MovArg, Register, RegisterPair, RetType, Statement, StatementKind};
use asm8080::compiler::Compiler;
use asm8080::symtab::SymbolTable;

fn enc(kind: StatementKind) -> Option<(Vec<u8>, String)> {
    let labels = SymbolTable::new();
    Compiler::compile_statement(&Statement { label: None, kind }, &labels)
        .expect("no label is referenced")
}

fn enc_with(kind: StatementKind, labels: &SymbolTable) -> Option<(Vec<u8>, String)> {
    Compiler::compile_statement(&Statement { label: None, kind }, labels)
        .expect("label must resolve")
}

fn first_byte(kind: StatementKind) -> u8 {
    enc(kind).expect("must encode").0[0]
}

#[test]
fn mov_register_into_itself_single_byte() {
    let cases: [(Register, u8, u8); 7] = [
        (Register::A, 0x78, 7),
        (Register::B, 0x40, 0),
        (Register::C, 0x48, 1),
        (Register::D, 0x50, 2),
        (Register::E, 0x58, 3),
        (Register::H, 0x60, 4),
        (Register::L, 0x68, 5),
    ];
    for (r, base, sel) in cases {
        let (bytes, _) = enc(StatementKind::Mov(MovArg::Register(r), MovArg::Register(r)))
            .expect("self move must encode");
        assert_eq!(bytes, vec![base + sel]);
    }
}

#[test]
fn mov_memory_into_itself_rejected() {
    assert!(enc(StatementKind::Mov(
        MovArg::Register(Register::M),
        MovArg::Register(Register::M)
    ))
    .is_none());
}

#[test]
fn mov_register_constant_two_bytes() {
    let regs = [
        Register::A,
        Register::B,
        Register::C,
        Register::D,
        Register::E,
        Register::H,
        Register::L,
        Register::M,
    ];
    for r in regs {
        for c in 0u16..=255u16 {
            let (bytes, _) = enc(StatementKind::Mov(MovArg::Register(r), MovArg::Constant(c)))
                .expect("8-bit constant must encode");
            assert_eq!(bytes.len(), 2);
            assert_eq!(bytes[1], c as u8);
        }
        assert!(enc(StatementKind::Mov(MovArg::Register(r), MovArg::Constant(256))).is_none());
        assert!(enc(StatementKind::Mov(MovArg::Register(r), MovArg::Constant(65535))).is_none());
    }
}

#[test]
fn mvi_row_opcodes() {
    let cases: [(Register, u8); 8] = [
        (Register::B, 0x06),
        (Register::C, 0x0E),
        (Register::D, 0x16),
        (Register::E, 0x1E),
        (Register::H, 0x26),
        (Register::L, 0x2E),
        (Register::M, 0x36),
        (Register::A, 0x3E),
    ];
    for (r, op) in cases {
        let (bytes, _) =
            enc(StatementKind::Mov(MovArg::Register(r), MovArg::Constant(0x12))).unwrap();
        assert_eq!(bytes, vec![op, 0x12]);
    }
}

#[test]
fn opcode_table_no_operand_forms() {
    assert_eq!(first_byte(StatementKind::Nop), 0x00);
    assert_eq!(first_byte(StatementKind::Rlc), 0x07);
    assert_eq!(first_byte(StatementKind::Rrc), 0x0F);
    assert_eq!(first_byte(StatementKind::Ral), 0x17);
    assert_eq!(first_byte(StatementKind::Rar), 0x1F);
    assert_eq!(first_byte(StatementKind::Daa), 0x27);
    assert_eq!(first_byte(StatementKind::Stc), 0x37);
    assert_eq!(first_byte(StatementKind::Cmc), 0x3F);
    assert_eq!(first_byte(StatementKind::Hlt), 0x76);
    assert_eq!(first_byte(StatementKind::Pchl), 0xE9);
    assert_eq!(first_byte(StatementKind::Cli), 0xF3);
    assert_eq!(first_byte(StatementKind::Sti), 0xFB);
}

#[test]
fn opcode_table_returns() {
    let cases: [(RetType, u8, &str); 9] = [
        (RetType::Ret, 0xC9, "ret"),
        (RetType::Rz, 0xC8, "rz"),
        (RetType::Rnz, 0xC0, "rnz"),
        (RetType::Rc, 0xD8, "rc"),
        (RetType::Rnc, 0xD0, "rnc"),
        (RetType::Rpo, 0xE0, "rpo"),
        (RetType::Rpe, 0xE8, "rpe"),
        (RetType::Rp, 0xF0, "rp"),
        (RetType::Rm, 0xF8, "rm"),
    ];
    for (t, op, name) in cases {
        let (bytes, text) = enc(StatementKind::Ret(t)).unwrap();
        assert_eq!(bytes, vec![op]);
        assert_eq!(text, name);
    }
}

#[test]
fn opcode_table_branches() {
    let mut labels = SymbolTable::new();
    labels.define("t", 0x0000);
    let cases: [(JmpType, u8); 18] = [
        (JmpType::Jmp, 0xC3),
        (JmpType::Jz, 0xCA),
        (JmpType::Jnz, 0xC2),
        (JmpType::Jc, 0xDA),
        (JmpType::Jnc, 0xD2),
        (JmpType::Jm, 0xFA),
        (JmpType::Jp, 0xF2),
        (JmpType::Jpo, 0xE2),
        (JmpType::Jpe, 0xEA),
        (JmpType::Call, 0xCD),
        (JmpType::Cz, 0xCC),
        (JmpType::Cnz, 0xC4),
        (JmpType::Cc, 0xDC),
        (JmpType::Cnc, 0xD4),
        (JmpType::Cpo, 0xE4),
        (JmpType::Cpe, 0xEC),
        (JmpType::Cp, 0xF4),
        (JmpType::Cm, 0xFC),
    ];
    for (t, op) in cases {
        let (bytes, _) =
            enc_with(StatementKind::Jmp("t".to_string(), t), &labels).expect("must encode");
        assert_eq!(bytes, vec![op, 0x00, 0x00]);
    }
}

#[test]
fn opcode_table_arithmetic_register_forms() {
    let cases: [(ArithmeticType, u8); 8] = [
        (ArithmeticType::Add, 0x80),
        (ArithmeticType::Adc, 0x88),
        (ArithmeticType::Sub, 0x90),
        (ArithmeticType::Sbb, 0x98),
        (ArithmeticType::And, 0xA0),
        (ArithmeticType::Xor, 0xA8),
        (ArithmeticType::Or, 0xB0),
        (ArithmeticType::Cmp, 0xB8),
    ];
    for (t, op) in cases {
        let (bytes, _) = enc(StatementKind::Arif(Register::B, t)).unwrap();
        assert_eq!(bytes, vec![op]);
        let (bytes_a, _) = enc(StatementKind::Arif(Register::A, t)).unwrap();
        assert_eq!(bytes_a, vec![op + 7]);
    }
}

#[test]
fn opcode_table_arithmetic_immediate_forms() {
    let cases: [(ArithmeticType, u8, &str); 8] = [
        (ArithmeticType::Add, 0xC6, "adi"),
        (ArithmeticType::Adc, 0xCE, "aci"),
        (ArithmeticType::Sub, 0xD6, "sui"),
        (ArithmeticType::Sbb, 0xDE, "sbi"),
        (ArithmeticType::And, 0xE6, "ani"),
        (ArithmeticType::Xor, 0xEE, "xri"),
        (ArithmeticType::Or, 0xF6, "ori"),
        (ArithmeticType::Cmp, 0xFE, "cpi"),
    ];
    for (t, op, name) in cases {
        let (bytes, text) = enc(StatementKind::Arifn(0x0A, t)).unwrap();
        assert_eq!(bytes, vec![op, 0x0A]);
        assert_eq!(text, format!("{} 0A", name));
    }
    assert!(enc(StatementKind::Arifn(256, ArithmeticType::Add)).is_none());
}

#[test]
fn opcode_table_increment_decrement() {
    let reg_cases: [(Register, u8, u8); 8] = [
        (Register::B, 0x04, 0x05),
        (Register::C, 0x0C, 0x0D),
        (Register::D, 0x14, 0x15),
        (Register::E, 0x1C, 0x1D),
        (Register::H, 0x24, 0x25),
        (Register::L, 0x2C, 0x2D),
        (Register::M, 0x34, 0x35),
        (Register::A, 0x3C, 0x3D),
    ];
    for (r, inr, dcr) in reg_cases {
        assert_eq!(first_byte(StatementKind::Inc(r)), inr);
        assert_eq!(first_byte(StatementKind::Dcr(r)), dcr);
    }
    let pair_cases: [(RegisterPair, u8, u8, u8); 4] = [
        (RegisterPair::BC, 0x03, 0x0B, 0x09),
        (RegisterPair::DE, 0x13, 0x1B, 0x19),
        (RegisterPair::HL, 0x23, 0x2B, 0x29),
        (RegisterPair::SP, 0x33, 0x3B, 0x39),
    ];
    for (p, inx, dcx, dad) in pair_cases {
        assert_eq!(first_byte(StatementKind::Incp(p)), inx);
        assert_eq!(first_byte(StatementKind::Dcrp(p)), dcx);
        assert_eq!(first_byte(StatementKind::Dad(p)), dad);
    }
}

#[test]
fn opcode_table_stack_operations() {
    let cases: [(RegisterPair, u8, u8); 3] = [
        (RegisterPair::BC, 0xC5, 0xC1),
        (RegisterPair::DE, 0xD5, 0xD1),
        (RegisterPair::HL, 0xE5, 0xE1),
    ];
    for (p, push, pop) in cases {
        assert_eq!(first_byte(StatementKind::Push(p)), push);
        assert_eq!(first_byte(StatementKind::Pop(p)), pop);
    }
    assert_eq!(first_byte(StatementKind::Pushpsw), 0xF5);
    assert_eq!(first_byte(StatementKind::Poppsw), 0xF1);
}

#[test]
fn push_pop_stack_pointer_rejected() {
    assert!(enc(StatementKind::Push(RegisterPair::SP)).is_none());
    assert!(enc(StatementKind::Pop(RegisterPair::SP)).is_none());
}

#[test]
fn rst_accepts_exactly_eight_vectors() {
    let valid: [(u8, u8); 8] = [
        (0, 0xC7),
        (8, 0xCF),
        (16, 0xD7),
        (24, 0xDF),
        (32, 0xE7),
        (40, 0xEF),
        (48, 0xF7),
        (56, 0xFF),
    ];
    for c in 0u16..=255u16 {
        let r = enc(StatementKind::Rst(c as u8));
        match valid.iter().find(|(v, _)| *v as u16 == c) {
            Some((_, op)) => {
                let (bytes, text) = r.expect("valid vector must encode");
                assert_eq!(bytes, vec![*op]);
                assert_eq!(text, format!("rst {}", c));
            }
            None => assert!(r.is_none()),
        }
    }
}

#[test]
fn port_io_two_bytes() {
    let (bytes, text) = enc(StatementKind::In(5)).unwrap();
    assert_eq!(bytes, vec![0xDB, 5]);
    assert_eq!(text, "in 5");
    let (bytes, text) = enc(StatementKind::Out(255)).unwrap();
    assert_eq!(bytes, vec![0xD3, 0xFF]);
    assert_eq!(text, "out 255");
    let (_, text) = enc(StatementKind::In(0)).unwrap();
    assert_eq!(text, "in 0");
    let (_, text) = enc(StatementKind::Out(100)).unwrap();
    assert_eq!(text, "out 100");
}

#[test]
fn raw_byte_emission() {
    let (bytes, text) = enc(StatementKind::Db(0x41)).unwrap();
    assert_eq!(bytes, vec![0x41]);
    assert_eq!(text, "41");
    assert!(enc(StatementKind::Db(256)).is_none());
    assert!(enc(StatementKind::Db(65535)).is_none());
    let (bytes, _) = enc(StatementKind::Db(255)).unwrap();
    assert_eq!(bytes, vec![0xFF]);
}

#[test]
fn raw_word_emission_big_endian() {
    let (bytes, text) = enc(StatementKind::Dw(0x1234)).unwrap();
    assert_eq!(bytes, vec![0x12, 0x34]);
    assert_eq!(text, "1234");
    let (bytes, _) = enc(StatementKind::Dw(0xFFFF)).unwrap();
    assert_eq!(bytes, vec![0xFF, 0xFF]);
}

#[test]
fn negate_targets() {
    let (bytes, text) = enc(StatementKind::Neg(Register::A)).unwrap();
    assert_eq!(bytes, vec![0x2F]);
    assert_eq!(text, "cma");
    let (bytes, text) = enc(StatementKind::Neg(Register::C)).unwrap();
    assert_eq!(bytes, vec![0x3F]);
    assert_eq!(text, "cmc");
    assert!(enc(StatementKind::Neg(Register::B)).is_none());
    assert!(enc(StatementKind::Neg(Register::M)).is_none());
}

#[test]
fn memory_move_forms() {
    let (bytes, text) =
        enc(StatementKind::Mov(MovArg::Register(Register::A), MovArg::MemoryDirect(0x8201)))
            .unwrap();
    assert_eq!(bytes, vec![0x3A, 0x01, 0x82]);
    assert_eq!(text, "lda 8201");
    let (bytes, text) =
        enc(StatementKind::Mov(MovArg::MemoryDirect(0x8201), MovArg::Register(Register::A)))
            .unwrap();
    assert_eq!(bytes, vec![0x32, 0x01, 0x82]);
    assert_eq!(text, "sta 8201");
    let (bytes, text) = enc(StatementKind::Mov(
        MovArg::RegisterPair(RegisterPair::HL),
        MovArg::MemoryDirect(0xABCD),
    ))
    .unwrap();
    assert_eq!(bytes, vec![0x2A, 0xCD, 0xAB]);
    assert_eq!(text, "lhld ABCD");
    let (bytes, text) = enc(StatementKind::Mov(
        MovArg::MemoryDirect(0xABCD),
        MovArg::RegisterPair(RegisterPair::HL),
    ))
    .unwrap();
    assert_eq!(bytes, vec![0x22, 0xCD, 0xAB]);
    assert_eq!(text, "shld ABCD");
}

#[test]
fn indirect_move_forms() {
    let (bytes, text) = enc(StatementKind::Mov(
        MovArg::Register(Register::A),
        MovArg::MemoryIndirect(RegisterPair::BC),
    ))
    .unwrap();
    assert_eq!(bytes, vec![0x0A]);
    assert_eq!(text, "ldax b");
    let (bytes, text) = enc(StatementKind::Mov(
        MovArg::Register(Register::A),
        MovArg::MemoryIndirect(RegisterPair::DE),
    ))
    .unwrap();
    assert_eq!(bytes, vec![0x1A]);
    assert_eq!(text, "ldax d");
    let (bytes, text) = enc(StatementKind::Mov(
        MovArg::MemoryIndirect(RegisterPair::BC),
        MovArg::Register(Register::A),
    ))
    .unwrap();
    assert_eq!(bytes, vec![0x02]);
    assert_eq!(text, "stax b");
    let (bytes, text) = enc(StatementKind::Mov(
        MovArg::MemoryIndirect(RegisterPair::DE),
        MovArg::Register(Register::A),
    ))
    .unwrap();
    assert_eq!(bytes, vec![0x12]);
    assert_eq!(text, "stax d");
    assert!(enc(StatementKind::Mov(
        MovArg::Register(Register::A),
        MovArg::MemoryIndirect(RegisterPair::HL)
    ))
    .is_none());
    assert!(enc(StatementKind::Mov(
        MovArg::Register(Register::B),
        MovArg::MemoryIndirect(RegisterPair::BC)
    ))
    .is_none());
    assert!(enc(StatementKind::Mov(
        MovArg::MemoryIndirect(RegisterPair::SP),
        MovArg::Register(Register::A)
    ))
    .is_none());
}

#[test]
fn register_pair_move_forms() {
    let (bytes, text) = enc(StatementKind::Mov(
        MovArg::RegisterPair(RegisterPair::SP),
        MovArg::Constant(0xFFFF),
    ))
    .unwrap();
    assert_eq!(bytes, vec![0x31, 0xFF, 0xFF]);
    assert_eq!(text, "lxi sp, FFFF");
    let (bytes, text) = enc(StatementKind::Mov(
        MovArg::RegisterPair(RegisterPair::BC),
        MovArg::Constant(0x1234),
    ))
    .unwrap();
    assert_eq!(bytes, vec![0x01, 0x34, 0x12]);
    assert_eq!(text, "lxi b, 1234");
    let (bytes, text) = enc(StatementKind::Mov(
        MovArg::RegisterPair(RegisterPair::SP),
        MovArg::RegisterPair(RegisterPair::HL),
    ))
    .unwrap();
    assert_eq!(bytes, vec![0xF9]);
    assert_eq!(text, "sphl");
    let (bytes, text) = enc(StatementKind::Mov(
        MovArg::RegisterPair(RegisterPair::DE),
        MovArg::RegisterPair(RegisterPair::HL),
    ))
    .unwrap();
    assert_eq!(bytes, vec![0xEB]);
    assert_eq!(text, "xchg");
    let (bytes, _) = enc(StatementKind::Mov(
        MovArg::RegisterPair(RegisterPair::HL),
        MovArg::RegisterPair(RegisterPair::DE),
    ))
    .unwrap();
    assert_eq!(bytes, vec![0xEB]);
    let (bytes, text) = enc(StatementKind::Mov(
        MovArg::RegisterPair(RegisterPair::HL),
        MovArg::MemoryIndirect(RegisterPair::SP),
    ))
    .unwrap();
    assert_eq!(bytes, vec![0xE3]);
    assert_eq!(text, "xthl");
    let (bytes, _) = enc(StatementKind::Mov(
        MovArg::MemoryIndirect(RegisterPair::SP),
        MovArg::RegisterPair(RegisterPair::HL),
    ))
    .unwrap();
    assert_eq!(bytes, vec![0xE3]);
}

#[test]
fn illegal_move_shapes_rejected() {
    assert!(enc(StatementKind::Mov(MovArg::Constant(1), MovArg::Register(Register::A))).is_none());
    assert!(enc(StatementKind::Mov(
        MovArg::Register(Register::A),
        MovArg::RegisterPair(RegisterPair::BC)
    ))
    .is_none());
    assert!(enc(StatementKind::Mov(
        MovArg::RegisterPair(RegisterPair::BC),
        MovArg::Register(Register::A)
    ))
    .is_none());
    assert!(enc(StatementKind::Mov(
        MovArg::RegisterPair(RegisterPair::BC),
        MovArg::RegisterPair(RegisterPair::DE)
    ))
    .is_none());
    assert!(enc(StatementKind::Mov(
        MovArg::RegisterPair(RegisterPair::BC),
        MovArg::MemoryDirect(0x1000)
    ))
    .is_none());
    assert!(enc(StatementKind::Mov(MovArg::Register(Register::B), MovArg::MemoryDirect(0x1000)))
        .is_none());
    assert!(enc(StatementKind::Mov(MovArg::MemoryDirect(0x1000), MovArg::Register(Register::B)))
        .is_none());
    assert!(enc(StatementKind::Mov(MovArg::MemoryDirect(0x1000), MovArg::Constant(7))).is_none());
    assert!(enc(StatementKind::Mov(
        MovArg::MemoryIndirect(RegisterPair::BC),
        MovArg::RegisterPair(RegisterPair::HL)
    ))
    .is_none());
    assert!(enc(StatementKind::Mov(
        MovArg::RegisterPair(RegisterPair::HL),
        MovArg::MemoryIndirect(RegisterPair::BC)
    ))
    .is_none());
}

#[test]
fn mov_register_register_matrix_sample() {
    let (bytes, text) =
        enc(StatementKind::Mov(MovArg::Register(Register::B), MovArg::Register(Register::C)))
            .unwrap();
    assert_eq!(bytes, vec![0x41]);
    assert_eq!(text, "mov b, c");
    let (bytes, text) =
        enc(StatementKind::Mov(MovArg::Register(Register::A), MovArg::Register(Register::M)))
            .unwrap();
    assert_eq!(bytes, vec![0x7E]);
    assert_eq!(text, "mov a, m");
    let (bytes, _) =
        enc(StatementKind::Mov(MovArg::Register(Register::M), MovArg::Register(Register::A)))
            .unwrap();
    assert_eq!(bytes, vec![0x77]);
}
