//! Operand and opcode model: the closed sets of registers, register pairs and
//! instruction families, each with the numeric encoding fragments (select
//! codes, base opcodes, block offsets) of the 8080 instruction set.

use vstd::prelude::*;

verus! {

/// One of the four 16-bit operands: the three general pairs and the stack
/// pointer.
#[derive(Clone, Copy, PartialEq, Eq, Structural, Debug)]
pub enum RegisterPair {
    BC,
    DE,
    HL,
    SP,
}

impl RegisterPair {
    /// The one-letter operand spelling used in the pretty-printed text.
    pub open spec fn spec_name(self) -> Seq<char> {
        match self {
            RegisterPair::BC => "b"@,
            RegisterPair::DE => "d"@,
            RegisterPair::HL => "h"@,
            RegisterPair::SP => "sp"@,
        }
    }

    pub fn name(&self) -> (r: &'static str)
        ensures
            r@ == self.spec_name(),
    {
        match self {
            RegisterPair::BC => "b",
            RegisterPair::DE => "d",
            RegisterPair::HL => "h",
            RegisterPair::SP => "sp",
        }
    }

    /// Block offset: the column of the pair in the left quadrant of the
    /// opcode table, added to a family's base opcode.
    pub open spec fn spec_left_table_x_off(self) -> u8 {
        match self {
            RegisterPair::BC => 0x00,
            RegisterPair::DE => 0x10,
            RegisterPair::HL => 0x20,
            RegisterPair::SP => 0x30,
        }
    }

    pub fn left_table_x_off(&self) -> (r: u8)
        ensures
            r == self.spec_left_table_x_off(),
    {
        match self {
            RegisterPair::BC => 0x00,
            RegisterPair::DE => 0x10,
            RegisterPair::HL => 0x20,
            RegisterPair::SP => 0x30,
        }
    }

    /// PUSH opcode of a general pair. The stack pointer has none: it is not
    /// push-able, and encoding rejects it before this lookup is reached.
    pub open spec fn spec_push_code(self) -> u8 {
        match self {
            RegisterPair::BC => 0xC5,
            RegisterPair::DE => 0xD5,
            RegisterPair::HL => 0xE5,
            RegisterPair::SP => arbitrary(),
        }
    }

    pub fn push_code(&self) -> (r: u8)
        requires
            *self != RegisterPair::SP,
        ensures
            r == self.spec_push_code(),
    {
        match self {
            RegisterPair::HL => 0xE5,
            RegisterPair::DE => 0xD5,
            RegisterPair::BC => 0xC5,
            RegisterPair::SP => unreached(),
        }
    }

    /// POP opcode of a general pair; as with `push_code`, never defined for
    /// the stack pointer.
    pub open spec fn spec_pop_code(self) -> u8 {
        match self {
            RegisterPair::BC => 0xC1,
            RegisterPair::DE => 0xD1,
            RegisterPair::HL => 0xE1,
            RegisterPair::SP => arbitrary(),
        }
    }

    pub fn pop_code(&self) -> (r: u8)
        requires
            *self != RegisterPair::SP,
        ensures
            r == self.spec_pop_code(),
    {
        match self {
            RegisterPair::HL => 0xE1,
            RegisterPair::DE => 0xD1,
            RegisterPair::BC => 0xC1,
            RegisterPair::SP => unreached(),
        }
    }
}


/// One of the 8 symbolic 8-bit operands, including the pseudo-register `M`
/// that denotes memory addressed through the HL pair.
#[derive(Clone, Copy, PartialEq, Eq, Structural, Debug)]
pub enum Register {
    A,
    B,
    C,
    D,
    E,
    H,
    L,
    M,
}

impl Register {
    /// 3-bit select code of the register in register-to-register opcode
    /// forms.
    pub open spec fn spec_code_off(self) -> u8 {
        match self {
            Register::A => 7,
            Register::B => 0,
            Register::C => 1,
            Register::D => 2,
            Register::E => 3,
            Register::H => 4,
            Register::L => 5,
            Register::M => 6,
        }
    }

    pub fn code_off(&self) -> (r: u8)
        ensures
            r == self.spec_code_off(),
    {
        match self {
            Register::A => 7,
            Register::B => 0,
            Register::C => 1,
            Register::D => 2,
            Register::E => 3,
            Register::H => 4,
            Register::L => 5,
            Register::M => 6,
        }
    }

    /// Base opcode of the register-to-register move row with this register
    /// as destination.
    pub open spec fn spec_mov_base_off(self) -> u8 {
        match self {
            Register::A => 0x78,
            Register::B => 0x40,
            Register::C => 0x48,
            Register::D => 0x50,
            Register::E => 0x58,
            Register::H => 0x60,
            Register::L => 0x68,
            Register::M => 0x70,
        }
    }

    pub fn mov_base_off(&self) -> (r: u8)
        ensures
            r == self.spec_mov_base_off(),
    {
        match self {
            Register::A => 0x78,
            Register::B => 0x40,
            Register::C => 0x48,
            Register::D => 0x50,
            Register::E => 0x58,
            Register::H => 0x60,
            Register::L => 0x68,
            Register::M => 0x70,
        }
    }

    /// The one-letter operand spelling used in the pretty-printed text.
    pub open spec fn spec_name(self) -> Seq<char> {
        match self {
            Register::A => "a"@,
            Register::B => "b"@,
            Register::C => "c"@,
            Register::D => "d"@,
            Register::E => "e"@,
            Register::H => "h"@,
            Register::L => "l"@,
            Register::M => "m"@,
        }
    }

    pub fn name(&self) -> (r: &'static str)
        ensures
            r@ == self.spec_name(),
    {
        match self {
            Register::A => "a",
            Register::B => "b",
            Register::C => "c",
            Register::D => "d",
            Register::E => "e",
            Register::H => "h",
            Register::L => "l",
            Register::M => "m",
        }
    }

    /// Block offset of the register in the left quadrant of the opcode
    /// table, shared by increment, decrement and immediate-move forms.
    pub open spec fn spec_left_table_x_off(self) -> u8 {
        match self {
            Register::A => 0x30,
            Register::B => 0x00,
            Register::C => 0x00,
            Register::D => 0x10,
            Register::E => 0x10,
            Register::H => 0x20,
            Register::L => 0x20,
            Register::M => 0x30,
        }
    }

    pub fn left_table_x_off(&self) -> (r: u8)
        ensures
            r == self.spec_left_table_x_off(),
    {
        match self {
            Register::A => 0x30,
            Register::B => 0x00,
            Register::C => 0x00,
            Register::D => 0x10,
            Register::E => 0x10,
            Register::H => 0x20,
            Register::L => 0x20,
            Register::M => 0x30,
        }
    }

    /// Row parity: whether the register sits in the lower row of its block
    /// in the left quadrant of the opcode table.
    pub open spec fn spec_left_table_is_down(self) -> bool {
        match self {
            Register::B | Register::D | Register::H | Register::M => false,
            Register::C | Register::E | Register::L | Register::A => true,
        }
    }

    pub fn left_table_is_down(&self) -> (r: bool)
        ensures
            r == self.spec_left_table_is_down(),
    {
        match self {
            Register::B | Register::D | Register::H | Register::M => false,
            Register::C | Register::E | Register::L | Register::A => true,
        }
    }
}

/// One operand of a move-family statement: exactly one shape per operand.
#[derive(Clone, Copy, PartialEq, Eq, Structural, Debug)]
pub enum MovArg {
    Register(Register),
    RegisterPair(RegisterPair),
    MemoryDirect(u16),
    MemoryIndirect(RegisterPair),
    Constant(u16),
}

/// A branch family member: jumps, calls and returns, each variant carrying
/// its condition-coded opcode and mnemonic.
#[derive(Clone, Copy, PartialEq, Eq, Structural, Debug)]
pub enum JmpType {
    Jmp,
    Jz,
    Jnz,
    Jc,
    Jnc,
    Jm,
    Jp,
    Jpo,
    Jpe,
    Call,
    Cz,
    Cnz,
    Cc,
    Cnc,
    Cpo,
    Cpe,
    Cp,
    Cm,
    Ret,
    Rz,
    Rnz,
    Rc,
    Rnc,
    Rpo,
    Rpe,
    Rp,
    Rm,
}

impl JmpType {
    /// The condition-coded opcode byte of the branch.
    pub open spec fn spec_code(self) -> u8 {
        match self {
            JmpType::Jmp => 0xC3,
            JmpType::Jz => 0xCA,
            JmpType::Jnz => 0xC2,
            JmpType::Jc => 0xDA,
            JmpType::Jnc => 0xD2,
            JmpType::Jm => 0xFA,
            JmpType::Jp => 0xF2,
            JmpType::Jpo => 0xE2,
            JmpType::Jpe => 0xEA,
            JmpType::Call => 0xCD,
            JmpType::Cz => 0xCC,
            JmpType::Cc => 0xDC,
            JmpType::Cpe => 0xEC,
            JmpType::Cm => 0xFC,
            JmpType::Cnz => 0xC4,
            JmpType::Cnc => 0xD4,
            JmpType::Cpo => 0xE4,
            JmpType::Cp => 0xF4,
            JmpType::Ret => 0xC9,
            JmpType::Rz => 0xC8,
            JmpType::Rc => 0xD8,
            JmpType::Rpe => 0xE8,
            JmpType::Rm => 0xF8,
            JmpType::Rnz => 0xC0,
            JmpType::Rnc => 0xD0,
            JmpType::Rpo => 0xE0,
            JmpType::Rp => 0xF0,
        }
    }

    pub fn code(&self) -> (r: u8)
        ensures
            r == self.spec_code(),
    {
        match self {
            JmpType::Jmp => 0xC3,
            JmpType::Jz => 0xCA,
            JmpType::Jnz => 0xC2,
            JmpType::Jc => 0xDA,
            JmpType::Jnc => 0xD2,
            JmpType::Jm => 0xFA,
            JmpType::Jp => 0xF2,
            JmpType::Jpo => 0xE2,
            JmpType::Jpe => 0xEA,
            JmpType::Call => 0xCD,
            JmpType::Cz => 0xCC,
            JmpType::Cc => 0xDC,
            JmpType::Cpe => 0xEC,
            JmpType::Cm => 0xFC,
            JmpType::Cnz => 0xC4,
            JmpType::Cnc => 0xD4,
            JmpType::Cpo => 0xE4,
            JmpType::Cp => 0xF4,
            JmpType::Ret => 0xC9,
            JmpType::Rz => 0xC8,
            JmpType::Rc => 0xD8,
            JmpType::Rpe => 0xE8,
            JmpType::Rm => 0xF8,
            JmpType::Rnz => 0xC0,
            JmpType::Rnc => 0xD0,
            JmpType::Rpo => 0xE0,
            JmpType::Rp => 0xF0,
        }
    }

    /// The mnemonic of the branch.
    pub open spec fn spec_name(self) -> Seq<char> {
        match self {
            JmpType::Jmp => "jmp"@,
            JmpType::Jz => "jz"@,
            JmpType::Jnz => "jnz"@,
            JmpType::Jc => "jc"@,
            JmpType::Jnc => "jnc"@,
            JmpType::Jp => "jp"@,
            JmpType::Jm => "jm"@,
            JmpType::Jpo => "jpo"@,
            JmpType::Jpe => "jpe"@,
            JmpType::Call => "call"@,
            JmpType::Cz => "cz"@,
            JmpType::Cc => "cc"@,
            JmpType::Cpe => "cpe"@,
            JmpType::Cm => "cm"@,
            JmpType::Cnz => "cnz"@,
            JmpType::Cnc => "cnc"@,
            JmpType::Cpo => "cpo"@,
            JmpType::Cp => "cp"@,
            JmpType::Ret => "ret"@,
            JmpType::Rz => "rz"@,
            JmpType::Rnz => "rnz"@,
            JmpType::Rc => "rc"@,
            JmpType::Rnc => "rnc"@,
            JmpType::Rpo => "rpo"@,
            JmpType::Rpe => "rpe"@,
            JmpType::Rp => "rp"@,
            JmpType::Rm => "rm"@,
        }
    }

    pub fn name(&self) -> (r: &'static str)
        ensures
            r@ == self.spec_name(),
    {
        match self {
            JmpType::Jmp => "jmp",
            JmpType::Jz => "jz",
            JmpType::Jnz => "jnz",
            JmpType::Jc => "jc",
            JmpType::Jnc => "jnc",
            JmpType::Jp => "jp",
            JmpType::Jm => "jm",
            JmpType::Jpo => "jpo",
            JmpType::Jpe => "jpe",
            JmpType::Call => "call",
            JmpType::Cz => "cz",
            JmpType::Cc => "cc",
            JmpType::Cpe => "cpe",
            JmpType::Cm => "cm",
            JmpType::Cnz => "cnz",
            JmpType::Cnc => "cnc",
            JmpType::Cpo => "cpo",
            JmpType::Cp => "cp",
            JmpType::Ret => "ret",
            JmpType::Rz => "rz",
            JmpType::Rnz => "rnz",
            JmpType::Rc => "rc",
            JmpType::Rnc => "rnc",
            JmpType::Rpo => "rpo",
            JmpType::Rpe => "rpe",
            JmpType::Rp => "rp",
            JmpType::Rm => "rm",
        }
    }
}

/// The unconditional return and the eight condition-coded returns.
#[derive(Clone, Copy, PartialEq, Eq, Structural, Debug)]
pub enum RetType {
    Ret,
    Rz,
    Rnz,
    Rc,
    Rnc,
    Rpo,
    Rpe,
    Rp,
    Rm,
}

impl RetType {
    /// The single opcode byte of the return.
    pub open spec fn spec_code(self) -> u8 {
        match self {
            RetType::Ret => 0xC9,
            RetType::Rz => 0xC8,
            RetType::Rc => 0xD8,
            RetType::Rpe => 0xE8,
            RetType::Rm => 0xF8,
            RetType::Rnz => 0xC0,
            RetType::Rnc => 0xD0,
            RetType::Rpo => 0xE0,
            RetType::Rp => 0xF0,
        }
    }

    pub fn code(&self) -> (r: u8)
        ensures
            r == self.spec_code(),
    {
        match self {
            RetType::Ret => 0xC9,
            RetType::Rz => 0xC8,
            RetType::Rc => 0xD8,
            RetType::Rpe => 0xE8,
            RetType::Rm => 0xF8,
            RetType::Rnz => 0xC0,
            RetType::Rnc => 0xD0,
            RetType::Rpo => 0xE0,
            RetType::Rp => 0xF0,
        }
    }

    /// The mnemonic of the return.
    pub open spec fn spec_name(self) -> Seq<char> {
        match self {
            RetType::Ret => "ret"@,
            RetType::Rz => "rz"@,
            RetType::Rnz => "rnz"@,
            RetType::Rc => "rc"@,
            RetType::Rnc => "rnc"@,
            RetType::Rpo => "rpo"@,
            RetType::Rpe => "rpe"@,
            RetType::Rp => "rp"@,
            RetType::Rm => "rm"@,
        }
    }

    pub fn name(&self) -> (r: &'static str)
        ensures
            r@ == self.spec_name(),
    {
        match self {
            RetType::Ret => "ret",
            RetType::Rz => "rz",
            RetType::Rnz => "rnz",
            RetType::Rc => "rc",
            RetType::Rnc => "rnc",
            RetType::Rpo => "rpo",
            RetType::Rpe => "rpe",
            RetType::Rp => "rp",
            RetType::Rm => "rm",
        }
    }
}

/// The eight accumulator arithmetic and logic families.
#[derive(Clone, Copy, PartialEq, Eq, Structural, Debug)]
pub enum ArithmeticType {
    Adc,
    Add,
    Sub,
    Sbb,
    And,
    Xor,
    Or,
    Cmp,
}

impl ArithmeticType {
    /// Base opcode of the register-operand form; the register select code is
    /// added to it.
    pub open spec fn spec_reg_code(self) -> u8 {
        match self {
            ArithmeticType::Adc => 0x88,
            ArithmeticType::Add => 0x80,
            ArithmeticType::Sub => 0x90,
            ArithmeticType::Sbb => 0x98,
            ArithmeticType::And => 0xA0,
            ArithmeticType::Xor => 0xA8,
            ArithmeticType::Or => 0xB0,
            ArithmeticType::Cmp => 0xB8,
        }
    }

    pub fn reg_code(&self) -> (r: u8)
        ensures
            r == self.spec_reg_code(),
    {
        match self {
            ArithmeticType::Adc => 0x88,
            ArithmeticType::Add => 0x80,
            ArithmeticType::Sub => 0x90,
            ArithmeticType::Sbb => 0x98,
            ArithmeticType::And => 0xA0,
            ArithmeticType::Xor => 0xA8,
            ArithmeticType::Or => 0xB0,
            ArithmeticType::Cmp => 0xB8,
        }
    }

    /// Fixed opcode of the immediate-operand form.
    pub open spec fn spec_const_code(self) -> u8 {
        match self {
            ArithmeticType::Adc => 0xCE,
            ArithmeticType::Add => 0xC6,
            ArithmeticType::Sub => 0xD6,
            ArithmeticType::Sbb => 0xDE,
            ArithmeticType::And => 0xE6,
            ArithmeticType::Xor => 0xEE,
            ArithmeticType::Or => 0xF6,
            ArithmeticType::Cmp => 0xFE,
        }
    }

    pub fn const_code(&self) -> (r: u8)
        ensures
            r == self.spec_const_code(),
    {
        match self {
            ArithmeticType::Adc => 0xCE,
            ArithmeticType::Add => 0xC6,
            ArithmeticType::Sub => 0xD6,
            ArithmeticType::Sbb => 0xDE,
            ArithmeticType::And => 0xE6,
            ArithmeticType::Xor => 0xEE,
            ArithmeticType::Or => 0xF6,
            ArithmeticType::Cmp => 0xFE,
        }
    }

    /// Mnemonic of the register-operand form.
    pub open spec fn spec_name(self) -> Seq<char> {
        match self {
            ArithmeticType::Adc => "adc"@,
            ArithmeticType::Add => "add"@,
            ArithmeticType::Sub => "sub"@,
            ArithmeticType::Sbb => "sbb"@,
            ArithmeticType::And => "ana"@,
            ArithmeticType::Xor => "xra"@,
            ArithmeticType::Or => "ora"@,
            ArithmeticType::Cmp => "cmp"@,
        }
    }

    pub fn name(&self) -> (r: &'static str)
        ensures
            r@ == self.spec_name(),
    {
        match self {
            ArithmeticType::Adc => "adc",
            ArithmeticType::Add => "add",
            ArithmeticType::Sub => "sub",
            ArithmeticType::Sbb => "sbb",
            ArithmeticType::And => "ana",
            ArithmeticType::Xor => "xra",
            ArithmeticType::Or => "ora",
            ArithmeticType::Cmp => "cmp",
        }
    }

    /// Mnemonic of the immediate-operand form.
    pub open spec fn spec_const_name(self) -> Seq<char> {
        match self {
            ArithmeticType::Adc => "aci"@,
            ArithmeticType::Add => "adi"@,
            ArithmeticType::Sub => "sui"@,
            ArithmeticType::Sbb => "sbi"@,
            ArithmeticType::And => "ani"@,
            ArithmeticType::Xor => "xri"@,
            ArithmeticType::Or => "ori"@,
            ArithmeticType::Cmp => "cpi"@,
        }
    }

    pub fn const_name(&self) -> (r: &'static str)
        ensures
            r@ == self.spec_const_name(),
    {
        match self {
            ArithmeticType::Adc => "aci",
            ArithmeticType::Add => "adi",
            ArithmeticType::Sub => "sui",
            ArithmeticType::Sbb => "sbi",
            ArithmeticType::And => "ani",
            ArithmeticType::Xor => "xri",
            ArithmeticType::Or => "ori",
            ArithmeticType::Cmp => "cpi",
        }
    }
}

/// One instruction kind, with its operands.
#[derive(Debug)]
pub enum StatementKind {
    Nop,
    Mov(MovArg, MovArg),
    Rlc,
    Rrc,
    Ral,
    Rar,
    Stc,
    Cmc,
    Arif(Register, ArithmeticType),
    Arifn(u16, ArithmeticType),
    Rst(u8),
    Out(u8),
    In(u8),
    Neg(Register),
    Inc(Register),
    Incp(RegisterPair),
    Dcr(Register),
    Dcrp(RegisterPair),
    Daa,
    Dad(RegisterPair),
    Hlt,
    Pchl,
    Jmp(String, JmpType),
    Ret(RetType),
    Cli,
    Sti,
    Push(RegisterPair),
    Pushpsw,
    Pop(RegisterPair),
    Poppsw,
    Db(u16),
    Dw(u16),
    /// Defines the statement's label at an explicit address instead of
    /// emitting code.
    Lset(u16),
}

/// An optional label name and exactly one instruction kind.
#[derive(Debug)]
pub struct Statement {
    pub label: Option<String>,
    pub kind: StatementKind,
}

/// An ordered statement sequence; order determines code-location assignment
/// and label visibility.
#[derive(Debug)]
pub struct File {
    pub statements: Vec<Box<Statement>>,
}

} // verus!
