//! Whole-graph verification of compiler output: from control-flow
//! certificates and metadata to bytecode that an engine may run.
pub mod acceptance_laws;
pub mod admission_laws;
pub mod atoms;
pub mod binding_laws;
pub mod closure_metadata;
pub mod closures;
pub mod cost_laws;
pub mod definition_laws;
pub mod edge_laws;
pub mod error;
pub mod executable;
pub mod function_initializers;
pub mod function_metadata;
pub mod global_initializers;
pub mod graph;
pub mod graph_laws;
pub mod group_laws;
pub mod initializer_laws;
pub mod initializer_pairs;
pub mod internal_laws;
pub mod internal_propagation;
pub mod internal_stack;
pub mod internal_step;
pub mod internal_transfer;
pub mod internal_unwind;
pub mod internal_verifier;
pub mod iteration_laws;
pub mod iteration_puts;
pub mod lexical_environment;
pub mod model;
pub mod module_record;
pub mod nesting_laws;
pub mod object_laws;
pub mod object_provenance;
pub mod object_verifier;
pub mod opcode_profile;
pub mod operand_use;
pub mod ownership;
pub mod preflight;
pub mod protected_regions;
pub mod provenance;
pub mod refusal_laws;
pub mod requirements;
pub mod scope_links;
pub mod source;
pub mod stack_error;
pub mod transfer_laws;
pub mod usage_laws;
pub mod use_laws;
pub mod variable_laws;
pub mod variables;
