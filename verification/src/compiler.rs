//! Encoder and assembly driver: one forward pass over the statement
//! sequence, defining labels as they are scanned and encoding each
//! statement into opcode bytes, pretty text and a diagnostic table row.

use vstd::prelude::*;
use vstd::string::StrSliceExecFns;
use vstd::string::StringExecFns;

use crate::ast::{
    ArithmeticType, File, JmpType, MovArg, Register, RegisterPair, RetType, Statement,
    StatementKind,
};
use crate::symtab::{dotted, SymbolTable};
use crate::text::{
    append_dec_byte, append_hex_byte, append_hex_word, dec3, hex2, hex4, hex_bytes, to_upper,
    upper_of,
};

verus! {

/// Code emission begins at this absolute address.
pub const BASE_ADDRESS: u16 = 0x8200;

/// The low byte of a 16-bit value.
pub open spec fn lo(w: u16) -> u8 {
    (w % 256) as u8
}

/// The high byte of a 16-bit value.
pub open spec fn hi(w: u16) -> u8 {
    (w / 256) as u8
}

/// A label reference spelled with the leading marker character has the
/// marker stripped for display.
pub open spec fn spec_format_label(l: Seq<char>) -> Seq<char> {
    if l.len() > 0 && l[0] == '.' {
        l.skip(1)
    } else {
        l
    }
}

/// The restart vector values with a hardware encoding.
pub open spec fn rst_valid(c: u8) -> bool {
    c == 0 || c == 8 || c == 16 || c == 24 || c == 32 || c == 40 || c == 48 || c == 56
}

/// Whether a move of shape `b` into shape `a` has a hardware encoding.
pub open spec fn mov_emits(a: MovArg, b: MovArg) -> bool {
    match (a, b) {
        (MovArg::Register(ar), MovArg::Register(br)) => !(ar == Register::M && br
            == Register::M),
        (MovArg::Register(_), MovArg::Constant(c)) => c < 256,
        (MovArg::Register(_), MovArg::RegisterPair(_)) => false,
        (MovArg::Register(ar), MovArg::MemoryDirect(_)) => ar == Register::A,
        (MovArg::Register(ar), MovArg::MemoryIndirect(p)) => ar == Register::A && (p
            == RegisterPair::BC || p == RegisterPair::DE),
        (MovArg::RegisterPair(_), MovArg::Constant(_)) => true,
        (MovArg::RegisterPair(_), MovArg::Register(_)) => false,
        (MovArg::RegisterPair(p), MovArg::RegisterPair(q)) => (p == RegisterPair::SP && q
            == RegisterPair::HL) || (p == RegisterPair::DE && q == RegisterPair::HL) || (p
            == RegisterPair::HL && q == RegisterPair::DE),
        (MovArg::RegisterPair(p), MovArg::MemoryDirect(_)) => p == RegisterPair::HL,
        (MovArg::RegisterPair(p), MovArg::MemoryIndirect(q)) => p == RegisterPair::HL && q
            == RegisterPair::SP,
        (MovArg::MemoryDirect(_), MovArg::Register(br)) => br == Register::A,
        (MovArg::MemoryDirect(_), MovArg::RegisterPair(q)) => q == RegisterPair::HL,
        (MovArg::MemoryDirect(_), _) => false,
        (MovArg::MemoryIndirect(p), MovArg::Register(br)) => br == Register::A && (p
            == RegisterPair::BC || p == RegisterPair::DE),
        (MovArg::MemoryIndirect(p), MovArg::RegisterPair(q)) => p == RegisterPair::SP && q
            == RegisterPair::HL,
        (MovArg::MemoryIndirect(_), _) => false,
        (MovArg::Constant(_), _) => false,
    }
}

/// The bytes of a move of shape `b` into shape `a`, for the shapes that
/// have a hardware encoding.
pub open spec fn mov_bytes(a: MovArg, b: MovArg) -> Seq<u8> {
    match (a, b) {
        (MovArg::Register(ar), MovArg::Register(br)) => seq![
            (ar.spec_mov_base_off() + br.spec_code_off()) as u8,
        ],
        (MovArg::Register(ar), MovArg::Constant(c)) => seq![
            ((if ar.spec_left_table_is_down() {
                0x0Eint
            } else {
                0x06int
            }) + ar.spec_left_table_x_off()) as u8,
            c as u8,
        ],
        (MovArg::Register(_), MovArg::MemoryDirect(mem)) => seq![0x3A, lo(mem), hi(mem)],
        (MovArg::Register(_), MovArg::MemoryIndirect(p)) => if p == RegisterPair::BC {
            seq![0x0A]
        } else {
            seq![0x1A]
        },
        (MovArg::RegisterPair(p), MovArg::Constant(c)) => seq![
            (0x01 + p.spec_left_table_x_off()) as u8,
            lo(c),
            hi(c),
        ],
        (MovArg::RegisterPair(p), MovArg::RegisterPair(_)) => if p == RegisterPair::SP {
            seq![0xF9]
        } else {
            seq![0xEB]
        },
        (MovArg::RegisterPair(_), MovArg::MemoryDirect(addr)) => seq![0x2A, lo(addr), hi(addr)],
        (MovArg::RegisterPair(_), MovArg::MemoryIndirect(_)) => seq![0xE3],
        (MovArg::MemoryDirect(mem), MovArg::Register(_)) => seq![0x32, lo(mem), hi(mem)],
        (MovArg::MemoryDirect(mem), MovArg::RegisterPair(_)) => seq![0x22, lo(mem), hi(mem)],
        (MovArg::MemoryIndirect(p), MovArg::Register(_)) => if p == RegisterPair::BC {
            seq![0x02]
        } else {
            seq![0x12]
        },
        (MovArg::MemoryIndirect(_), MovArg::RegisterPair(_)) => seq![0xE3],
        _ => Seq::empty(),
    }
}

/// The pretty text of a move with a hardware encoding.
pub open spec fn mov_text(a: MovArg, b: MovArg) -> Seq<char> {
    match (a, b) {
        (MovArg::Register(ar), MovArg::Register(br)) => "mov "@ + ar.spec_name() + ", "@
            + br.spec_name(),
        (MovArg::Register(ar), MovArg::Constant(c)) => "mvi "@ + ar.spec_name() + ", "@ + hex2(
            c as int,
        ),
        (MovArg::Register(_), MovArg::MemoryDirect(mem)) => "lda "@ + hex4(mem as int),
        (MovArg::Register(_), MovArg::MemoryIndirect(p)) => if p == RegisterPair::BC {
            "ldax b"@
        } else {
            "ldax d"@
        },
        (MovArg::RegisterPair(p), MovArg::Constant(c)) => "lxi "@ + p.spec_name() + ", "@ + hex4(
            c as int,
        ),
        (MovArg::RegisterPair(p), MovArg::RegisterPair(_)) => if p == RegisterPair::SP {
            "sphl"@
        } else {
            "xchg"@
        },
        (MovArg::RegisterPair(_), MovArg::MemoryDirect(addr)) => "lhld "@ + hex4(addr as int),
        (MovArg::RegisterPair(_), MovArg::MemoryIndirect(_)) => "xthl"@,
        (MovArg::MemoryDirect(mem), MovArg::Register(_)) => "sta "@ + hex4(mem as int),
        (MovArg::MemoryDirect(mem), MovArg::RegisterPair(_)) => "shld "@ + hex4(mem as int),
        (MovArg::MemoryIndirect(p), MovArg::Register(_)) => if p == RegisterPair::BC {
            "stax b"@
        } else {
            "stax d"@
        },
        (MovArg::MemoryIndirect(_), MovArg::RegisterPair(_)) => "xthl"@,
        _ => Seq::empty(),
    }
}

/// Whether encoding the statement kind emits bytes. Rejections here are
/// recoverable: the statement contributes nothing and the pass goes on.
/// Whether a branch resolves is a separate, fatal question (`stmt_fatal`).
pub open spec fn stmt_emits(kind: StatementKind) -> bool {
    match kind {
        StatementKind::Lset(_) => false,
        StatementKind::Db(dat) => dat <= 255,
        StatementKind::Arifn(c, _) => c <= 255,
        StatementKind::Rst(code) => rst_valid(code),
        StatementKind::Push(pair) => pair != RegisterPair::SP,
        StatementKind::Pop(pair) => pair != RegisterPair::SP,
        StatementKind::Neg(reg) => reg == Register::A || reg == Register::C,
        StatementKind::Mov(a, b) => mov_emits(a, b),
        _ => true,
    }
}

/// An unresolved branch target: the one fatal condition, aborting the run.
pub open spec fn stmt_fatal(kind: StatementKind, labels: Map<Seq<char>, u16>) -> bool {
    kind matches StatementKind::Jmp(l, _) && !labels.contains_key(l@)
}

/// How many bytes the statement emits when it emits.
pub open spec fn stmt_len(kind: StatementKind) -> nat {
    match kind {
        StatementKind::Lset(_) => 0,
        StatementKind::In(_) => 2,
        StatementKind::Out(_) => 2,
        StatementKind::Db(_) => 1,
        StatementKind::Dw(_) => 2,
        StatementKind::Jmp(_, _) => 3,
        StatementKind::Arifn(_, _) => 2,
        StatementKind::Mov(a, b) => match (a, b) {
            (MovArg::Register(_), MovArg::Constant(_)) => 2,
            (MovArg::Register(_), MovArg::MemoryDirect(_)) => 3,
            (MovArg::RegisterPair(_), MovArg::Constant(_)) => 3,
            (MovArg::RegisterPair(_), MovArg::MemoryDirect(_)) => 3,
            (MovArg::MemoryDirect(_), _) => 3,
            _ => 1,
        },
        _ => 1,
    }
}

/// The bytes a statement kind encodes to, given the labels visible at its
/// point in the pass. Meaningful when `stmt_emits` holds and, for a branch,
/// the target is present in `labels`.
pub open spec fn stmt_bytes(kind: StatementKind, labels: Map<Seq<char>, u16>) -> Seq<u8> {
    match kind {
        StatementKind::Lset(_) => Seq::empty(),
        StatementKind::Cmc => seq![0x3F],
        StatementKind::Nop => seq![0x00],
        StatementKind::Ral => seq![0x17],
        StatementKind::Rar => seq![0x1F],
        StatementKind::Rlc => seq![0x07],
        StatementKind::Rrc => seq![0x0F],
        StatementKind::Stc => seq![0x37],
        StatementKind::Daa => seq![0x27],
        StatementKind::Hlt => seq![0x76],
        StatementKind::Cli => seq![0xF3],
        StatementKind::Sti => seq![0xFB],
        StatementKind::Pchl => seq![0xE9],
        StatementKind::In(port) => seq![0xDB, port],
        StatementKind::Out(port) => seq![0xD3, port],
        StatementKind::Db(dat) => seq![dat as u8],
        StatementKind::Dw(dat) => seq![hi(dat), lo(dat)],
        StatementKind::Jmp(label, typ) => seq![
            typ.spec_code(),
            lo(labels[label@]),
            hi(labels[label@]),
        ],
        StatementKind::Ret(typ) => seq![typ.spec_code()],
        StatementKind::Rst(code) => seq![(0xC7 + code) as u8],
        StatementKind::Push(pair) => seq![pair.spec_push_code()],
        StatementKind::Pop(pair) => seq![pair.spec_pop_code()],
        StatementKind::Pushpsw => seq![0xF5],
        StatementKind::Poppsw => seq![0xF1],
        StatementKind::Arif(reg, typ) => seq![(typ.spec_reg_code() + reg.spec_code_off()) as u8],
        StatementKind::Arifn(c, typ) => seq![typ.spec_const_code(), c as u8],
        StatementKind::Dad(pair) => seq![(0x09 + pair.spec_left_table_x_off()) as u8],
        StatementKind::Incp(pair) => seq![(pair.spec_left_table_x_off() + 0x03) as u8],
        StatementKind::Dcrp(pair) => seq![(pair.spec_left_table_x_off() + 0x0B) as u8],
        StatementKind::Inc(reg) => seq![
            ((if reg.spec_left_table_is_down() {
                0x0Cint
            } else {
                0x04int
            }) + reg.spec_left_table_x_off()) as u8,
        ],
        StatementKind::Dcr(reg) => seq![
            ((if reg.spec_left_table_is_down() {
                0x0Dint
            } else {
                0x05int
            }) + reg.spec_left_table_x_off()) as u8,
        ],
        StatementKind::Neg(reg) => if reg == Register::A {
            seq![0x2F]
        } else {
            seq![0x3F]
        },
        StatementKind::Mov(a, b) => mov_bytes(a, b),
    }
}

/// The pretty text of a statement kind, lower case.
pub open spec fn stmt_text(kind: StatementKind) -> Seq<char> {
    match kind {
        StatementKind::Lset(_) => Seq::empty(),
        StatementKind::Cmc => "cmc"@,
        StatementKind::Nop => "nop"@,
        StatementKind::Ral => "ral"@,
        StatementKind::Rar => "rar"@,
        StatementKind::Rlc => "rlc"@,
        StatementKind::Rrc => "rrc"@,
        StatementKind::Stc => "stc"@,
        StatementKind::Daa => "daa"@,
        StatementKind::Hlt => "hlt"@,
        StatementKind::Cli => "di"@,
        StatementKind::Sti => "ei"@,
        StatementKind::Pchl => "pchl"@,
        StatementKind::In(port) => "in "@ + dec3(port as int),
        StatementKind::Out(port) => "out "@ + dec3(port as int),
        StatementKind::Db(dat) => hex2(dat as int),
        StatementKind::Dw(dat) => hex4(dat as int),
        StatementKind::Jmp(label, typ) => typ.spec_name() + " "@ + spec_format_label(label@),
        StatementKind::Ret(typ) => typ.spec_name(),
        StatementKind::Rst(code) => "rst "@ + dec3(code as int),
        StatementKind::Push(pair) => "push "@ + pair.spec_name(),
        StatementKind::Pop(pair) => "pop "@ + pair.spec_name(),
        StatementKind::Pushpsw => "push psw"@,
        StatementKind::Poppsw => "pop psw"@,
        StatementKind::Arif(reg, typ) => typ.spec_name() + " "@ + reg.spec_name(),
        StatementKind::Arifn(c, typ) => typ.spec_const_name() + " "@ + hex2(c as int),
        StatementKind::Dad(pair) => "dat "@ + pair.spec_name(),
        StatementKind::Incp(pair) => "inx "@ + pair.spec_name(),
        StatementKind::Dcrp(pair) => "dcx "@ + pair.spec_name(),
        StatementKind::Inc(reg) => "inr "@ + reg.spec_name(),
        StatementKind::Dcr(reg) => "dcr "@ + reg.spec_name(),
        StatementKind::Neg(reg) => if reg == Register::A {
            "cma"@
        } else {
            "cmc"@
        },
        StatementKind::Mov(a, b) => mov_text(a, b),
    }
}

/// The statement sequence of a source file.
pub open spec fn stmts_of(f: File) -> Seq<Statement> {
    f.statements@.map_values(|b: Box<Statement>| *b)
}

/// A label definition: the name and its marker-prefixed alias, both at
/// `addr`, overwrite whatever was there.
pub open spec fn define_in(m: Map<Seq<char>, u16>, name: Seq<char>, addr: u16) -> Map<
    Seq<char>,
    u16,
> {
    m.insert(name, addr).insert(dotted(name), addr)
}

/// The code-location counter before statement `i` of the pass.
pub open spec fn run_ptr(stmts: Seq<Statement>, i: int) -> int
    decreases i,
{
    if i <= 0 {
        BASE_ADDRESS as int
    } else if stmt_emits(stmts[i - 1].kind) {
        (run_ptr(stmts, i - 1) + stmt_len(stmts[i - 1].kind)) % 0x10000
    } else {
        run_ptr(stmts, i - 1)
    }
}

/// The labels visible after the first `i` statements have been scanned.
/// A labeled statement defines its label before it is encoded, at the
/// current counter, or at the explicit address of an address-setting kind.
pub open spec fn run_labels(stmts: Seq<Statement>, i: int) -> Map<Seq<char>, u16>
    decreases i,
{
    if i <= 0 {
        Map::empty()
    } else {
        let m = run_labels(stmts, i - 1);
        match stmts[i - 1].label {
            Some(l) => match stmts[i - 1].kind {
                StatementKind::Lset(addr) => define_in(m, l@, addr),
                _ => define_in(m, l@, run_ptr(stmts, i - 1) as u16),
            },
            None => m,
        }
    }
}

/// Whether statement `i` aborts the pass: a branch whose target is not yet
/// defined, the statement's own label included.
pub open spec fn fatal_at(stmts: Seq<Statement>, i: int) -> bool {
    stmt_fatal(stmts[i].kind, run_labels(stmts, i + 1))
}

/// No statement before `i` aborts the pass.
pub open spec fn ok_upto(stmts: Seq<Statement>, i: int) -> bool {
    forall|j: int| 0 <= j < i ==> !fatal_at(stmts, j)
}

/// The raw byte stream after the first `i` statements.
pub open spec fn run_data(stmts: Seq<Statement>, i: int) -> Seq<u8>
    decreases i,
{
    if i <= 0 {
        Seq::empty()
    } else if stmt_emits(stmts[i - 1].kind) {
        run_data(stmts, i - 1) + stmt_bytes(stmts[i - 1].kind, run_labels(stmts, i))
    } else {
        run_data(stmts, i - 1)
    }
}

/// The upper-cased pretty-printed instructions after the first `i`
/// statements.
pub open spec fn run_pretty(stmts: Seq<Statement>, i: int) -> Seq<Seq<char>>
    decreases i,
{
    if i <= 0 {
        Seq::empty()
    } else if stmt_emits(stmts[i - 1].kind) {
        run_pretty(stmts, i - 1).push(upper_of(stmt_text(stmts[i - 1].kind)))
    } else {
        run_pretty(stmts, i - 1)
    }
}

/// The label column of a table row: the statement's label or nothing.
pub open spec fn opt_label(label: Option<String>) -> Seq<char> {
    match label {
        Some(l) => l@,
        None => Seq::empty(),
    }
}

/// One diagnostic table row: address, space-separated hex bytes, label and
/// pretty text, separated by semicolons.
pub open spec fn table_row(
    addr: int,
    bytes: Seq<u8>,
    label: Option<String>,
    text: Seq<char>,
) -> Seq<char> {
    hex4(addr) + ";"@ + hex_bytes(bytes) + ";"@ + opt_label(label) + ";"@ + text
}

/// The diagnostic table after the first `i` statements.
pub open spec fn run_table(stmts: Seq<Statement>, i: int) -> Seq<Seq<char>>
    decreases i,
{
    if i <= 0 {
        Seq::empty()
    } else if stmt_emits(stmts[i - 1].kind) {
        run_table(stmts, i - 1).push(
            table_row(
                run_ptr(stmts, i - 1),
                stmt_bytes(stmts[i - 1].kind, run_labels(stmts, i)),
                stmts[i - 1].label,
                stmt_text(stmts[i - 1].kind),
            ),
        )
    } else {
        run_table(stmts, i - 1)
    }
}

/// The pass aborts over the unresolved label `label`: some statement is a
/// branch to `label`, `label` is not visible there, and no earlier
/// statement aborted the pass first.
pub open spec fn compile_fails(stmts: Seq<Statement>, label: Seq<char>) -> bool {
    exists|i: int| #[trigger] compile_fails_at(stmts, i, label)
}

/// The pass aborts at statement `i` over the unresolved label `label`, no
/// earlier statement having aborted it.
pub open spec fn compile_fails_at(stmts: Seq<Statement>, i: int, label: Seq<char>) -> bool {
    &&& 0 <= i < stmts.len()
    &&& ok_upto(stmts, i)
    &&& fatal_at(stmts, i)
    &&& stmts[i].kind matches StatementKind::Jmp(l, _) && l@ == label
}


/// The three outputs of one run: raw bytes, upper-cased pretty text, and
/// the per-instruction diagnostic table.
#[derive(Debug)]
pub struct CompilerResult {
    pub data: Vec<u8>,
    pub pretty_instructions: Vec<String>,
    pub table: Vec<String>,
}

/// The fatal error: a branch whose target label was not defined at or
/// before the point of use.
#[derive(Debug)]
pub struct UnresolvedLabelError {
    pub label: String,
}

pub struct Compiler {}

impl Compiler {
    pub fn new() -> Compiler {
        Compiler {  }
    }

    /// Strips the single leading marker character of a label reference, if
    /// present.
    pub fn format_label(label: &str) -> (r: &str)
        ensures
            r@ == spec_format_label(label@),
    {
        let n = label.unicode_len();
        if n > 0 && label.get_char(0) == '.' {
            let r = label.substring_char(1, n);
            proof {
                assert(r@ =~= label@.skip(1));
            }
            r
        } else {
            label
        }
    }

    /// An opcode byte followed by a little-endian 16-bit address.
    pub fn prepend_to_addr(val: u8, addr: u16) -> (r: Vec<u8>)
        ensures
            r@ == seq![val, lo(addr), hi(addr)],
    {
        let mut v = Vec::new();
        v.push(val);
        v.push((addr % 256) as u8);
        v.push((addr / 256) as u8);
        proof {
            assert(v@ =~= seq![val, lo(addr), hi(addr)]);
        }
        v
    }

    /// Whether a constant fits the 8-bit context it stands in.
    fn check_8bit_const(c: &u16) -> (r: bool)
        ensures
            r == (*c <= 255),
    {
        *c <= 255
    }
}

/// The zero padding that precedes the code when the stream is materialized
/// as a flat binary image starting at address 0.
pub fn build_offset(off: usize) -> (r: Vec<u8>)
    ensures
        r@ == Seq::new(off as nat, |i: int| 0u8),
{
    let mut v = Vec::<u8>::with_capacity(off);
    let mut i: usize = 0;
    while i < off
        invariant
            i <= off,
            v@ =~= Seq::new(i as nat, |j: int| 0u8),
        decreases off - i,
    {
        v.push(0);
        i = i + 1;
    }
    proof {
        assert(v@ =~= Seq::new(off as nat, |i: int| 0u8));
    }
    v
}


impl Compiler {
    fn compile_mov_register(a_reg: &Register, b: &MovArg) -> (r: Option<(Vec<u8>, String)>)
        ensures
            r is Some <==> mov_emits(MovArg::Register(*a_reg), *b),
            r matches Some((code, pretty)) ==> {
                &&& code@ == mov_bytes(MovArg::Register(*a_reg), *b)
                &&& code@.len() == stmt_len(StatementKind::Mov(MovArg::Register(*a_reg), *b))
                &&& pretty@ == mov_text(MovArg::Register(*a_reg), *b)
            },
    {
        match b {
            MovArg::Register(b_reg) => {
                if *a_reg == Register::M && *b_reg == Register::M {
                    None
                } else {
                    let mut s = "mov ".to_owned();
                    s.append(a_reg.name());
                    s.append(", ");
                    s.append(b_reg.name());
                    proof {
                        assert(s@ =~= mov_text(MovArg::Register(*a_reg), *b));
                    }
                    Some((vec![a_reg.mov_base_off() + b_reg.code_off()], s))
                }
            },
            MovArg::Constant(c) => {
                if *c >= 256u16 {
                    None
                } else {
                    let cmd = (if a_reg.left_table_is_down() {
                        0x0E
                    } else {
                        0x06
                    }) + a_reg.left_table_x_off();
                    let mut s = "mvi ".to_owned();
                    s.append(a_reg.name());
                    s.append(", ");
                    append_hex_byte(&mut s, *c as u8);
                    proof {
                        assert(s@ =~= mov_text(MovArg::Register(*a_reg), *b));
                    }
                    Some((vec![cmd, *c as u8], s))
                }
            },
            MovArg::RegisterPair(_) => None,
            MovArg::MemoryDirect(mem) => {
                if *a_reg != Register::A {
                    None
                } else {
                    let mut s = "lda ".to_owned();
                    append_hex_word(&mut s, *mem);
                    proof {
                        assert(s@ =~= mov_text(MovArg::Register(*a_reg), *b));
                    }
                    Some((Self::prepend_to_addr(0x3A, *mem), s))
                }
            },
            MovArg::MemoryIndirect(mem) => {
                if *a_reg != Register::A {
                    None
                } else {
                    match mem {
                        RegisterPair::BC => Some((vec![0x0A], "ldax b".to_owned())),
                        RegisterPair::DE => Some((vec![0x1A], "ldax d".to_owned())),
                        RegisterPair::HL | RegisterPair::SP => None,
                    }
                }
            },
        }
    }

    fn compile_mov_regpair(pair: &RegisterPair, b: &MovArg) -> (r: Option<(Vec<u8>, String)>)
        ensures
            r is Some <==> mov_emits(MovArg::RegisterPair(*pair), *b),
            r matches Some((code, pretty)) ==> {
                &&& code@ == mov_bytes(MovArg::RegisterPair(*pair), *b)
                &&& code@.len() == stmt_len(StatementKind::Mov(MovArg::RegisterPair(*pair), *b))
                &&& pretty@ == mov_text(MovArg::RegisterPair(*pair), *b)
            },
    {
        match b {
            MovArg::Constant(c) => {
                let mut s = "lxi ".to_owned();
                s.append(pair.name());
                s.append(", ");
                append_hex_word(&mut s, *c);
                proof {
                    assert(s@ =~= mov_text(MovArg::RegisterPair(*pair), *b));
                }
                Some((Self::prepend_to_addr(0x01 + pair.left_table_x_off(), *c), s))
            },
            MovArg::Register(_) => None,
            MovArg::RegisterPair(p) => {
                if *pair == RegisterPair::SP && *p == RegisterPair::HL {
                    Some((vec![0xF9], "sphl".to_owned()))
                } else if (*pair == RegisterPair::DE && *p == RegisterPair::HL) || (*pair
                    == RegisterPair::HL && *p == RegisterPair::DE) {
                    Some((vec![0xEB], "xchg".to_owned()))
                } else {
                    None
                }
            },
            MovArg::MemoryDirect(addr) => {
                if *pair != RegisterPair::HL {
                    None
                } else {
                    let mut s = "lhld ".to_owned();
                    append_hex_word(&mut s, *addr);
                    proof {
                        assert(s@ =~= mov_text(MovArg::RegisterPair(*pair), *b));
                    }
                    Some((Self::prepend_to_addr(0x2A, *addr), s))
                }
            },
            MovArg::MemoryIndirect(p) => {
                if *pair == RegisterPair::HL && *p == RegisterPair::SP {
                    Some((vec![0xE3], "xthl".to_owned()))
                } else {
                    None
                }
            },
        }
    }

    fn compile_mov_mem_indirect(b: &MovArg, pair: &RegisterPair) -> (r: Option<(Vec<u8>, String)>)
        ensures
            r is Some <==> mov_emits(MovArg::MemoryIndirect(*pair), *b),
            r matches Some((code, pretty)) ==> {
                &&& code@ == mov_bytes(MovArg::MemoryIndirect(*pair), *b)
                &&& code@.len() == stmt_len(StatementKind::Mov(MovArg::MemoryIndirect(*pair), *b))
                &&& pretty@ == mov_text(MovArg::MemoryIndirect(*pair), *b)
            },
    {
        match b {
            MovArg::Register(b_reg) => {
                if *b_reg != Register::A {
                    None
                } else {
                    match pair {
                        RegisterPair::BC => Some((vec![0x02], "stax b".to_owned())),
                        RegisterPair::DE => Some((vec![0x12], "stax d".to_owned())),
                        RegisterPair::HL | RegisterPair::SP => None,
                    }
                }
            },
            MovArg::RegisterPair(b_pair) => {
                if *pair == RegisterPair::SP && *b_pair == RegisterPair::HL {
                    Some((vec![0xE3], "xthl".to_owned()))
                } else {
                    None
                }
            },
            _ => None,
        }
    }

    fn compile_mov_mem_direct(mem: &u16, b: &MovArg) -> (r: Option<(Vec<u8>, String)>)
        ensures
            r is Some <==> mov_emits(MovArg::MemoryDirect(*mem), *b),
            r matches Some((code, pretty)) ==> {
                &&& code@ == mov_bytes(MovArg::MemoryDirect(*mem), *b)
                &&& code@.len() == stmt_len(StatementKind::Mov(MovArg::MemoryDirect(*mem), *b))
                &&& pretty@ == mov_text(MovArg::MemoryDirect(*mem), *b)
            },
    {
        match b {
            MovArg::Register(reg) => {
                if *reg != Register::A {
                    None
                } else {
                    let mut s = "sta ".to_owned();
                    append_hex_word(&mut s, *mem);
                    proof {
                        assert(s@ =~= mov_text(MovArg::MemoryDirect(*mem), *b));
                    }
                    Some((Self::prepend_to_addr(0x32, *mem), s))
                }
            },
            MovArg::RegisterPair(pair) => {
                if *pair != RegisterPair::HL {
                    None
                } else {
                    let mut s = "shld ".to_owned();
                    append_hex_word(&mut s, *mem);
                    proof {
                        assert(s@ =~= mov_text(MovArg::MemoryDirect(*mem), *b));
                    }
                    Some((Self::prepend_to_addr(0x22, *mem), s))
                }
            },
            _ => None,
        }
    }

    fn compile_rst(code: u8) -> (r: Option<(Vec<u8>, String)>)
        ensures
            r is Some <==> rst_valid(code),
            r matches Some((c, pretty)) ==> {
                &&& c@ == seq![(0xC7 + code) as u8]
                &&& c@.len() == 1
                &&& pretty@ == "rst "@ + dec3(code as int)
            },
    {
        match code {
            0 | 8 | 16 | 24 | 32 | 40 | 48 | 56 => {
                let mut s = "rst ".to_owned();
                append_dec_byte(&mut s, code);
                Some((vec![0xC7 + code], s))
            },
            _ => None,
        }
    }
}


impl Compiler {
    /// Encodes one statement against the labels visible so far. A statement
    /// whose operand shape or range has no hardware encoding yields
    /// `Ok(None)` and contributes nothing; a branch to an undefined label
    /// is the one fatal failure.
    #[verifier::rlimit(60)]
    pub fn compile_statement(statement: &Statement, label_map: &SymbolTable) -> (r: Result<
        Option<(Vec<u8>, String)>,
        UnresolvedLabelError,
    >)
        ensures
            r matches Err(e) ==> {
                &&& stmt_fatal(statement.kind, label_map@)
                &&& statement.kind matches StatementKind::Jmp(l, _) && e.label@ == l@
            },
            r matches Ok(Some((code, pretty))) ==> {
                &&& stmt_emits(statement.kind)
                &&& !stmt_fatal(statement.kind, label_map@)
                &&& code@ == stmt_bytes(statement.kind, label_map@)
                &&& code@.len() == stmt_len(statement.kind)
                &&& pretty@ == stmt_text(statement.kind)
            },
            r matches Ok(None) ==> !stmt_emits(statement.kind) && !stmt_fatal(
                statement.kind,
                label_map@,
            ),
    {
        match &statement.kind {
            StatementKind::Lset(_) => Ok(None),
            StatementKind::Cmc => Ok(Some((vec![0x3F], "cmc".to_owned()))),
            StatementKind::Nop => Ok(Some((vec![0x00], "nop".to_owned()))),
            StatementKind::Ral => Ok(Some((vec![0x17], "ral".to_owned()))),
            StatementKind::Rar => Ok(Some((vec![0x1F], "rar".to_owned()))),
            StatementKind::Rlc => Ok(Some((vec![0x07], "rlc".to_owned()))),
            StatementKind::Rrc => Ok(Some((vec![0x0F], "rrc".to_owned()))),
            StatementKind::Stc => Ok(Some((vec![0x37], "stc".to_owned()))),
            StatementKind::Daa => Ok(Some((vec![0x27], "daa".to_owned()))),
            StatementKind::Hlt => Ok(Some((vec![0x76], "hlt".to_owned()))),
            StatementKind::Cli => Ok(Some((vec![0xF3], "di".to_owned()))),
            StatementKind::Sti => Ok(Some((vec![0xFB], "ei".to_owned()))),
            StatementKind::Pchl => Ok(Some((vec![0xE9], "pchl".to_owned()))),
            StatementKind::In(port) => {
                let mut s = "in ".to_owned();
                append_dec_byte(&mut s, *port);
                Ok(Some((vec![0xDB, *port], s)))
            },
            StatementKind::Out(port) => {
                let mut s = "out ".to_owned();
                append_dec_byte(&mut s, *port);
                Ok(Some((vec![0xD3, *port], s)))
            },
            StatementKind::Db(dat) => {
                if Self::check_8bit_const(dat) {
                    let mut s = String::new();
                    append_hex_byte(&mut s, *dat as u8);
                    proof {
                        assert(s@ =~= hex2(*dat as int));
                    }
                    Ok(Some((vec![*dat as u8], s)))
                } else {
                    Ok(None)
                }
            },
            StatementKind::Dw(dat) => {
                let mut s = String::new();
                append_hex_word(&mut s, *dat);
                proof {
                    assert(s@ =~= hex4(*dat as int));
                }
                Ok(Some((vec![(*dat / 256) as u8, (*dat % 256) as u8], s)))
            },
            StatementKind::Jmp(label, typ) => {
                match label_map.resolve(label) {
                    Some(addr) => {
                        let mut s = typ.name().to_owned();
                        s.append(" ");
                        s.append(Self::format_label(label));
                        proof {
                            assert(s@ =~= stmt_text(statement.kind));
                        }
                        Ok(Some((Self::prepend_to_addr(typ.code(), addr), s)))
                    },
                    None => Err(UnresolvedLabelError { label: label.clone() }),
                }
            },
            StatementKind::Ret(typ) => Ok(Some((vec![typ.code()], typ.name().to_owned()))),
            StatementKind::Rst(code) => Ok(Self::compile_rst(*code)),
            StatementKind::Push(pair) => {
                if *pair == RegisterPair::SP {
                    Ok(None)
                } else {
                    let mut s = "push ".to_owned();
                    s.append(pair.name());
                    proof {
                        assert(s@ =~= stmt_text(statement.kind));
                    }
                    Ok(Some((vec![pair.push_code()], s)))
                }
            },
            StatementKind::Pop(pair) => {
                if *pair == RegisterPair::SP {
                    Ok(None)
                } else {
                    let mut s = "pop ".to_owned();
                    s.append(pair.name());
                    proof {
                        assert(s@ =~= stmt_text(statement.kind));
                    }
                    Ok(Some((vec![pair.pop_code()], s)))
                }
            },
            StatementKind::Pushpsw => Ok(Some((vec![0xF5], "push psw".to_owned()))),
            StatementKind::Poppsw => Ok(Some((vec![0xF1], "pop psw".to_owned()))),
            StatementKind::Arif(reg, typ) => {
                let mut s = typ.name().to_owned();
                s.append(" ");
                s.append(reg.name());
                proof {
                    assert(s@ =~= stmt_text(statement.kind));
                }
                Ok(Some((vec![typ.reg_code() + reg.code_off()], s)))
            },
            StatementKind::Arifn(c, typ) => {
                if Self::check_8bit_const(c) {
                    let mut s = typ.const_name().to_owned();
                    s.append(" ");
                    append_hex_byte(&mut s, *c as u8);
                    proof {
                        assert(s@ =~= stmt_text(statement.kind));
                    }
                    Ok(Some((vec![typ.const_code(), *c as u8], s)))
                } else {
                    Ok(None)
                }
            },
            StatementKind::Dad(pair) => {
                let mut s = "dat ".to_owned();
                s.append(pair.name());
                proof {
                    assert(s@ =~= stmt_text(statement.kind));
                }
                Ok(Some((vec![0x09 + pair.left_table_x_off()], s)))
            },
            StatementKind::Incp(pair) => {
                let mut s = "inx ".to_owned();
                s.append(pair.name());
                proof {
                    assert(s@ =~= stmt_text(statement.kind));
                }
                Ok(Some((vec![pair.left_table_x_off() + 0x03], s)))
            },
            StatementKind::Dcrp(pair) => {
                let mut s = "dcx ".to_owned();
                s.append(pair.name());
                proof {
                    assert(s@ =~= stmt_text(statement.kind));
                }
                Ok(Some((vec![pair.left_table_x_off() + 0x0B], s)))
            },
            StatementKind::Inc(reg) => {
                let cmd = (if reg.left_table_is_down() {
                    0x0C
                } else {
                    0x04
                }) + reg.left_table_x_off();
                let mut s = "inr ".to_owned();
                s.append(reg.name());
                proof {
                    assert(s@ =~= stmt_text(statement.kind));
                }
                Ok(Some((vec![cmd], s)))
            },
            StatementKind::Dcr(reg) => {
                let cmd = (if reg.left_table_is_down() {
                    0x0D
                } else {
                    0x05
                }) + reg.left_table_x_off();
                let mut s = "dcr ".to_owned();
                s.append(reg.name());
                proof {
                    assert(s@ =~= stmt_text(statement.kind));
                }
                Ok(Some((vec![cmd], s)))
            },
            StatementKind::Neg(reg) => {
                match reg {
                    Register::A => Ok(Some((vec![0x2F], "cma".to_owned()))),
                    Register::C => Ok(Some((vec![0x3F], "cmc".to_owned()))),
                    _ => Ok(None),
                }
            },
            StatementKind::Mov(a, b) => {
                match a {
                    MovArg::Constant(_) => Ok(None),
                    MovArg::Register(a_reg) => Ok(Self::compile_mov_register(a_reg, b)),
                    MovArg::RegisterPair(pair) => Ok(Self::compile_mov_regpair(pair, b)),
                    MovArg::MemoryIndirect(pair) => Ok(Self::compile_mov_mem_indirect(b, pair)),
                    MovArg::MemoryDirect(mem) => Ok(Self::compile_mov_mem_direct(mem, b)),
                }
            },
        }
    }
}


impl Compiler {
    /// One forward pass over the statement sequence. Labels are defined the
    /// moment their statement is scanned, before it is encoded, so a branch
    /// resolves exactly when its target was defined at or before the point
    /// of use; the first branch that does not resolve aborts the run. Each
    /// encoded statement appends its bytes, its upper-cased pretty text and
    /// one diagnostic table row, and advances the code-location counter;
    /// a rejected statement appends nothing.
    pub fn compile(&self, tokens: &File) -> (r: Result<CompilerResult, UnresolvedLabelError>)
        ensures
            r matches Ok(res) ==> {
                &&& ok_upto(stmts_of(*tokens), stmts_of(*tokens).len() as int)
                &&& res.data@ == run_data(stmts_of(*tokens), stmts_of(*tokens).len() as int)
                &&& res.pretty_instructions@.map_values(|s: String| s@) == run_pretty(
                    stmts_of(*tokens),
                    stmts_of(*tokens).len() as int,
                )
                &&& res.table@.map_values(|s: String| s@) == run_table(
                    stmts_of(*tokens),
                    stmts_of(*tokens).len() as int,
                )
            },
            r matches Err(e) ==> compile_fails(stmts_of(*tokens), e.label@),
    {
        let ghost stmts = stmts_of(*tokens);
        let mut labels = SymbolTable::new();
        let mut pretty_out: Vec<String> = Vec::new();
        let mut data: Vec<u8> = Vec::new();
        let mut table: Vec<String> = Vec::new();
        let mut code_ptr: u16 = BASE_ADDRESS;
        let n = tokens.statements.len();
        let mut idx: usize = 0;
        proof {
            assert(run_ptr(stmts, 0) == BASE_ADDRESS as int);
        }
        while idx < n
            invariant
                stmts == stmts_of(*tokens),
                n == tokens.statements.len(),
                stmts.len() == n,
                idx <= n,
                ok_upto(stmts, idx as int),
                labels@ == run_labels(stmts, idx as int),
                code_ptr as int == run_ptr(stmts, idx as int),
                data@ == run_data(stmts, idx as int),
                pretty_out@.map_values(|s: String| s@) == run_pretty(stmts, idx as int),
                table@.map_values(|s: String| s@) == run_table(stmts, idx as int),
            decreases n - idx,
        {
            let statement: &Statement = &tokens.statements[idx];
            proof {
                assert(stmts[idx as int] == *statement);
            }
            if let StatementKind::Lset(addr) = &statement.kind {
                if let Some(label) = &statement.label {
                    labels.define(label.as_str(), *addr);
                }
                proof {
                    assert(labels@ == run_labels(stmts, idx as int + 1));
                    assert(!fatal_at(stmts, idx as int));
                    assert(code_ptr as int == run_ptr(stmts, idx as int + 1));
                    assert(data@ == run_data(stmts, idx as int + 1));
                    assert(pretty_out@.map_values(|s: String| s@) == run_pretty(
                        stmts,
                        idx as int + 1,
                    ));
                    assert(table@.map_values(|s: String| s@) == run_table(stmts, idx as int + 1));
                }
                idx = idx + 1;
                continue;
            }
            if let Some(label) = &statement.label {
                labels.define(label.as_str(), code_ptr);
            }
            proof {
                assert(labels@ == run_labels(stmts, idx as int + 1));
            }
            match Self::compile_statement(statement, &labels) {
                Err(e) => {
                    proof {
                        assert(fatal_at(stmts, idx as int));
                        assert(compile_fails_at(stmts_of(*tokens), idx as int, e.label@));
                        assert(compile_fails(stmts_of(*tokens), e.label@));
                    }
                    return Err(e);
                },
                Ok(None) => {
                    proof {
                        assert(!fatal_at(stmts, idx as int));
                        assert(code_ptr as int == run_ptr(stmts, idx as int + 1));
                        assert(data@ == run_data(stmts, idx as int + 1));
                        assert(pretty_out@.map_values(|s: String| s@) == run_pretty(
                            stmts,
                            idx as int + 1,
                        ));
                        assert(table@.map_values(|s: String| s@) == run_table(
                            stmts,
                            idx as int + 1,
                        ));
                    }
                },
                Ok(Some((code, pretty))) => {
                    pretty_out.push(to_upper(pretty.as_str()));
                    let ghost data0 = data@;
                    let mut code_str = String::new();
                    proof {
                        assert(data@ =~= data0 + code@.take(0));
                        assert(code_str@ =~= hex_bytes(code@.take(0)));
                    }
                    let mut j: usize = 0;
                    while j < code.len()
                        invariant
                            j <= code.len(),
                            data@ == data0 + code@.take(j as int),
                            code_str@ == hex_bytes(code@.take(j as int)),
                        decreases code.len() - j,
                    {
                        data.push(code[j]);
                        append_hex_byte(&mut code_str, code[j]);
                        code_str.append(" ");
                        proof {
                            assert(code@.take(j as int + 1).drop_last() =~= code@.take(j as int));
                            assert(code@.take(j as int + 1).last() == code@[j as int]);
                            assert(code_str@ =~= hex_bytes(code@.take(j as int + 1)));
                            assert(data@ =~= data0 + code@.take(j as int + 1));
                        }
                        j = j + 1;
                    }
                    proof {
                        assert(code@.take(code.len() as int) =~= code@);
                    }
                    let mut row = String::new();
                    append_hex_word(&mut row, code_ptr);
                    row.append(";");
                    row.append(code_str.as_str());
                    row.append(";");
                    if let Some(l) = &statement.label {
                        row.append(l.as_str());
                    }
                    row.append(";");
                    row.append(pretty.as_str());
                    proof {
                        assert(row@ =~= table_row(
                            run_ptr(stmts, idx as int),
                            code@,
                            statement.label,
                            pretty@,
                        ));
                    }
                    table.push(row);
                    proof {
                        assert(code@.len() <= 3);
                    }
                    code_ptr = ((code_ptr as u32 + code.len() as u32) % 0x10000) as u16;
                    proof {
                        assert(!fatal_at(stmts, idx as int));
                        assert(code_ptr as int == run_ptr(stmts, idx as int + 1));
                        assert(data@ =~= run_data(stmts, idx as int + 1));
                        assert(pretty_out@.map_values(|s: String| s@) =~= run_pretty(
                            stmts,
                            idx as int + 1,
                        ));
                        assert(table@.map_values(|s: String| s@) =~= run_table(
                            stmts,
                            idx as int + 1,
                        ));
                    }
                },
            }
            idx = idx + 1;
        }
        Ok(CompilerResult { pretty_instructions: pretty_out, data, table })
    }
}

} // verus!
