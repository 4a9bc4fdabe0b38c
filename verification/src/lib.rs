//! An assembler core for the 8080-class 8-bit CPU.
//!
//! Already-parsed statements (mnemonic plus operands) are encoded into raw
//! machine-code bytes. Label references are resolved to absolute addresses
//! through a symbol table built in the same single forward pass, so only
//! labels defined at or before the point of use resolve.

pub mod ast;
pub mod symtab;
pub mod text;
pub mod compiler;
pub mod laws;

