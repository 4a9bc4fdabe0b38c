//! Encoding laws: properties of the operand-legality rules and of label
//! visibility that hold for every input, stated over the same spec
//! functions the encoder's contracts use.

use vstd::prelude::*;

use crate::ast::{JmpType, MovArg, Register, RegisterPair, Statement, StatementKind};
use crate::compiler::{
    fatal_at, run_labels, run_ptr, rst_valid, stmt_bytes, stmt_emits, stmt_len,
};
use crate::symtab::dotted;

verus! {

/// Moving any register other than the memory pseudo-register into itself
/// encodes, whatever labels are visible, as the single byte formed from
/// the register's move base opcode plus its select code.
pub proof fn lemma_mov_self_single_byte(r: Register, labels: Map<Seq<char>, u16>)
    requires
        r != Register::M,
    ensures
        stmt_emits(StatementKind::Mov(MovArg::Register(r), MovArg::Register(r))),
        stmt_bytes(StatementKind::Mov(MovArg::Register(r), MovArg::Register(r)), labels) == seq![
            (r.spec_mov_base_off() + r.spec_code_off()) as u8,
        ],
{
}

/// Moving the memory pseudo-register into itself is always rejected.
pub proof fn lemma_mov_memory_self_rejected()
    ensures
        !stmt_emits(
            StatementKind::Mov(MovArg::Register(Register::M), MovArg::Register(Register::M)),
        ),
{
}

/// Moving a constant into a register encodes, whatever labels are visible,
/// exactly when the constant fits 8 bits, and then as two bytes whose
/// second is the constant itself.
pub proof fn lemma_mov_register_constant(r: Register, c: u16, labels: Map<Seq<char>, u16>)
    ensures
        c <= 255 ==> {
            &&& stmt_emits(StatementKind::Mov(MovArg::Register(r), MovArg::Constant(c)))
            &&& stmt_bytes(
                StatementKind::Mov(MovArg::Register(r), MovArg::Constant(c)),
                labels,
            ).len() == 2
            &&& stmt_bytes(StatementKind::Mov(MovArg::Register(r), MovArg::Constant(c)), labels)[1]
                == c
        },
        c > 255 ==> !stmt_emits(StatementKind::Mov(MovArg::Register(r), MovArg::Constant(c))),
{
}

/// The stack-pointer pair is never accepted as a push or pop operand.
pub proof fn lemma_stack_pointer_not_stackable()
    ensures
        !stmt_emits(StatementKind::Push(RegisterPair::SP)),
        !stmt_emits(StatementKind::Pop(RegisterPair::SP)),
{
}

/// The restart instruction accepts exactly the eight vectors 0, 8, 16, 24,
/// 32, 40, 48 and 56, and rejects every other value.
pub proof fn lemma_rst_vectors(c: u8)
    ensures
        stmt_emits(StatementKind::Rst(c)) <==> (c == 0 || c == 8 || c == 16 || c == 24 || c == 32
            || c == 40 || c == 48 || c == 56),
        rst_valid(c) ==> stmt_bytes(StatementKind::Rst(c), Map::empty()) == seq![
            (0xC7 + c) as u8,
        ],
{
}

/// A labeled code statement makes its label visible to itself and to every
/// later statement, at the code-location counter the statement stands at.
/// In particular a branch to the statement's own label is not fatal.
pub proof fn lemma_label_visible_at_definition(stmts: Seq<Statement>, i: int)
    requires
        0 <= i < stmts.len(),
        stmts[i].label is Some,
        !(stmts[i].kind is Lset),
    ensures
        run_labels(stmts, i + 1).contains_key(stmts[i].label->0@),
        run_labels(stmts, i + 1)[stmts[i].label->0@] == run_ptr(stmts, i) as u16,
        run_labels(stmts, i + 1).contains_key(dotted(stmts[i].label->0@)),
        run_labels(stmts, i + 1)[dotted(stmts[i].label->0@)] == run_ptr(stmts, i) as u16,
        stmts[i].kind matches StatementKind::Jmp(l, _) && l@ == stmts[i].label->0@ ==> !fatal_at(
            stmts,
            i,
        ),
{
    let l = stmts[i].label->0@;
    assert(dotted(l).len() == l.len() + 1);
}

/// A branch statement always emits exactly three bytes when it encodes:
/// the condition-coded opcode, then the target address little-endian.
pub proof fn lemma_branch_three_bytes(label: String, typ: JmpType, labels: Map<Seq<char>, u16>)
    requires
        labels.contains_key(label@),
    ensures
        stmt_len(StatementKind::Jmp(label, typ)) == 3,
        stmt_bytes(StatementKind::Jmp(label, typ), labels) == seq![
            typ.spec_code(),
            (labels[label@] % 256) as u8,
            (labels[label@] / 256) as u8,
        ],
{
}

/// Whether statement `s` defines the name `k`, in the plain or in the
/// marker-prefixed spelling.
pub open spec fn defines_name(s: Statement, k: Seq<char>) -> bool {
    s.label matches Some(l) && (k == l@ || k == dotted(l@))
}

/// Label visibility is strictly backward-building: every name visible
/// after the first `i` statements was defined by one of them.
pub proof fn lemma_labels_from_definitions(stmts: Seq<Statement>, i: int, k: Seq<char>)
    requires
        run_labels(stmts, i).contains_key(k),
    ensures
        exists|j: int| 0 <= j < i && #[trigger] defines_name(stmts[j], k),
    decreases i,
{
    if i <= 0 {
    } else {
        match stmts[i - 1].label {
            Some(l) => {
                if k == l@ || k == dotted(l@) {
                    assert(defines_name(stmts[i - 1], k));
                } else {
                    lemma_labels_from_definitions(stmts, i - 1, k);
                }
            },
            None => {
                lemma_labels_from_definitions(stmts, i - 1, k);
            },
        }
    }
}

/// A branch whose target label no statement at or before it defines, in
/// either spelling, is fatal: a reference is resolvable only when the
/// defining statement occurs at or before the point of use.
pub proof fn lemma_forward_reference_fatal(stmts: Seq<Statement>, i: int, label: String, typ: JmpType)
    requires
        0 <= i < stmts.len(),
        stmts[i].kind == StatementKind::Jmp(label, typ),
        forall|j: int| 0 <= j <= i ==> !(#[trigger] defines_name(stmts[j], label@)),
    ensures
        fatal_at(stmts, i),
{
    if run_labels(stmts, i + 1).contains_key(label@) {
        lemma_labels_from_definitions(stmts, i + 1, label@);
        assert(false);
    }
}

} // verus!
