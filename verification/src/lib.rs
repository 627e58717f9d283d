//! Verified checking of QuickJS-style final bytecode.
pub mod bytecode;
pub mod checks;
pub mod control_flow;
mod copies;
pub mod encoding_laws;
pub mod function;
pub mod function_graph;
pub mod instruction;
pub mod opcode;
pub mod opcode_laws;
pub mod reserve;
pub mod text;
pub mod text_laws;
