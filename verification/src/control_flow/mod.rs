//! Fail-closed verification of final bytecode control flow and ordinary
//! JavaScript-value stack depths.
//!
//! Verification produces a control-flow certificate, not execution authority:
//! atom namespaces, constant kinds, nested functions, handlers, iterator
//! markers, finally return addresses and source tables are checked later.
pub mod baseline;
pub mod body_laws;
pub mod count_laws;
pub mod error;
pub mod error_laws;
pub mod header;
pub mod instruction_laws;
pub mod layouts;
pub mod limit_laws;
pub mod limits;
pub mod messages;
pub mod model;
pub mod opcode_semantics;
pub mod operands;
pub mod order_laws;
pub mod pipeline;
pub mod predecode;
pub mod stack;
pub mod stack_laws;
pub mod static_control_flow;
pub mod targets;
