//! Inputs and certificates of control-flow verification.
use crate::control_flow::body_laws::{covers_body, recorded_depths, stays_inside};
use crate::copies::copied;
use crate::function::{UnverifiedFunctionHeader, VerifiedFunctionHeader};
use crate::instruction::{BytecodePc, DecodedInstruction};
use crate::control_flow::predecode::{boundary_map, increasing_pcs, is_instruction_start, starts_at};
use crate::control_flow::targets::{instruction_index_at, decoded_of};
use std::sync::Arc;
use vstd::prelude::*;

verus! {

/// `Arc::<[T]>::default`: a shared slice without entries.
#[verifier::external_body]
fn no_entries<T>() -> (entries: Arc<[T]>)
    ensures
        entries@.len() == 0,
{
    Arc::<[T]>::default()
}

/// Function-local index-domain lengths needed for body verification.
///
/// These counts do not prove that any corresponding pool entry or metadata
/// record is valid.
#[derive(Clone, Copy, Debug, PartialEq, Eq, Hash, Structural)]
pub struct FunctionIndexDomains {
    /// The number of entries in the function-local atom pool.
    pub atom_pool_len: u32,
    /// The number of entries in the constant pool.
    pub constant_pool_len: u32,
    /// The function's argument count.
    pub argument_count: u32,
    /// The function's local-variable count.
    pub local_count: u32,
    /// The number of closure-variable entries.
    pub closure_var_count: u32,
}

impl Default for FunctionIndexDomains {
    fn default() -> (domains: Self)
        ensures
            domains == (FunctionIndexDomains {
                atom_pool_len: 0,
                constant_pool_len: 0,
                argument_count: 0,
                local_count: 0,
                closure_var_count: 0,
            }),
    {
        FunctionIndexDomains {
            atom_pool_len: 0,
            constant_pool_len: 0,
            argument_count: 0,
            local_count: 0,
            closure_var_count: 0,
        }
    }
}

impl FunctionIndexDomains {
    /// Creates the index domains for one bytecode function.
    pub fn new(
        atom_pool_len: u32,
        constant_pool_len: u32,
        argument_count: u32,
        local_count: u32,
        closure_var_count: u32,
    ) -> (value: Self)
        ensures
            value == (FunctionIndexDomains {
                atom_pool_len,
                constant_pool_len,
                argument_count,
                local_count,
                closure_var_count,
            }),
    {
        FunctionIndexDomains {
            atom_pool_len,
            constant_pool_len,
            argument_count,
            local_count,
            closure_var_count,
        }
    }

    /// Returns the number of entries in the function-local atom pool.
    pub fn atom_pool_len(self) -> (value: u32)
        ensures
            value == self.atom_pool_len,
    {
        self.atom_pool_len
    }

    /// Returns the number of entries in the constant pool.
    pub fn constant_pool_len(self) -> (value: u32)
        ensures
            value == self.constant_pool_len,
    {
        self.constant_pool_len
    }

    /// Returns the function's argument count.
    pub fn argument_count(self) -> (value: u32)
        ensures
            value == self.argument_count,
    {
        self.argument_count
    }

    /// Returns the function's local-variable count.
    pub fn local_count(self) -> (value: u32)
        ensures
            value == self.local_count,
    {
        self.local_count
    }

    /// Returns the number of closure-variable entries.
    pub fn closure_var_count(self) -> (value: u32)
        ensures
            value == self.closure_var_count,
    {
        self.closure_var_count
    }
}

/// One function-owned binding backed by a variable-reference cell.
///
/// Only a block-scoped local may be targeted by `close_loc`; arguments and
/// function-lifetime locals are closed by frame teardown.
#[derive(Clone, Copy, Debug, PartialEq, Eq, Hash, Structural)]
pub enum CompilerCapturedBinding {
    /// A captured function argument.
    Argument(u32),
    /// A captured local whose lifetime is the complete function frame.
    FunctionLocal(u32),
    /// A captured local whose lexical scope may end before frame teardown.
    ScopedLocal(u32),
}

/// Frame slot that a captured binding occupies, whatever its lifetime.
#[derive(Clone, Copy, Debug, PartialEq, Eq, Hash, Structural)]
pub enum CompilerCapturedBindingIdentity {
    /// An argument slot.
    Argument(u32),
    /// A local slot.
    Local(u32),
}

impl CompilerCapturedBinding {
    /// Frame slot of the binding.
    pub open spec fn spec_identity(self) -> CompilerCapturedBindingIdentity {
        match self {
            CompilerCapturedBinding::Argument(index) => CompilerCapturedBindingIdentity::Argument(
                index,
            ),
            CompilerCapturedBinding::FunctionLocal(index) => CompilerCapturedBindingIdentity::Local(
                index,
            ),
            CompilerCapturedBinding::ScopedLocal(index) => CompilerCapturedBindingIdentity::Local(
                index,
            ),
        }
    }

    /// Returns the frame slot of the binding.
    #[verifier::when_used_as_spec(spec_identity)]
    pub fn identity(self) -> (identity: CompilerCapturedBindingIdentity)
        ensures
            identity == self.spec_identity(),
    {
        match self {
            CompilerCapturedBinding::Argument(index) => CompilerCapturedBindingIdentity::Argument(
                index,
            ),
            CompilerCapturedBinding::FunctionLocal(index) => CompilerCapturedBindingIdentity::Local(
                index,
            ),
            CompilerCapturedBinding::ScopedLocal(index) => CompilerCapturedBindingIdentity::Local(
                index,
            ),
        }
    }
}

/// Compiler-owned capture metadata for one function frame.
///
/// Entries are ordered by dense variable-reference index.
#[derive(Clone, Debug, PartialEq, Eq, Hash)]
pub struct CompilerCaptureLayout {
    /// Binding of each variable-reference cell.
    pub bindings: Arc<[CompilerCapturedBinding]>,
    /// Formal positions mapped by a sloppy arguments object.
    pub mapped_arguments: Option<Arc<[u32]>>,
}

impl Default for CompilerCaptureLayout {
    fn default() -> (layout: Self)
        ensures
            layout.bindings@.len() == 0,
            layout.mapped_arguments.is_none(),
    {
        CompilerCaptureLayout { bindings: no_entries(), mapped_arguments: None }
    }
}

impl CompilerCaptureLayout {
    /// Creates a capture layout with variable-reference indices defined by
    /// `bindings` order.
    pub fn new(bindings: Arc<[CompilerCapturedBinding]>) -> (layout: Self)
        ensures
            layout.bindings == bindings,
            layout.mapped_arguments.is_none(),
    {
        CompilerCaptureLayout { bindings, mapped_arguments: None }
    }

    /// Attaches the ascending formal positions mapped by a sloppy arguments
    /// exotic object. An empty list is distinct from no list: it authorizes a
    /// zero-parameter mapped object.
    pub fn with_mapped_arguments(self, indices: Arc<[u32]>) -> (layout: Self)
        ensures
            layout.bindings == self.bindings,
            layout.mapped_arguments == Some(indices),
    {
        CompilerCaptureLayout { bindings: self.bindings, mapped_arguments: Some(indices) }
    }

    /// Returns the dense variable-reference binding table.
    pub fn bindings(&self) -> (bindings: &[CompilerCapturedBinding])
        ensures
            bindings@ == self.bindings@,
    {
        &self.bindings
    }

    /// Binding of one dense variable-reference index.
    pub open spec fn spec_binding_for_variable_reference(&self, index: u32) -> Option<
        CompilerCapturedBinding,
    > {
        if index < self.bindings@.len() {
            Some(self.bindings@[index as int])
        } else {
            None
        }
    }

    /// Resolves one dense variable-reference index.
    pub fn binding_for_variable_reference(&self, index: u32) -> (binding: Option<
        CompilerCapturedBinding,
    >)
        ensures
            binding == self.spec_binding_for_variable_reference(index),
    {
        let index: usize = index as usize;
        if index < self.bindings.len() {
            Some(self.bindings[index])
        } else {
            None
        }
    }

    /// Returns the compiler-authorized mapped formal positions.
    pub fn mapped_arguments(&self) -> (indices: Option<&[u32]>)
        ensures
            match indices {
                Some(indices) => self.mapped_arguments.is_some() && indices@
                    == self.mapped_arguments.unwrap()@,
                None => self.mapped_arguments.is_none(),
            },
    {
        match &self.mapped_arguments {
            Some(indices) => Some(indices),
            None => None,
        }
    }

    /// Returns a shared handle on the mapped formal positions.
    pub fn mapped_arguments_arc(&self) -> (indices: Option<Arc<[u32]>>)
        ensures
            indices == self.mapped_arguments,
    {
        match &self.mapped_arguments {
            Some(indices) => Some(Arc::clone(indices)),
            None => None,
        }
    }
}

/// Compiler-known runtime kind of one constant-pool entry.
#[derive(Clone, Copy, Debug, PartialEq, Eq, Hash, Structural)]
pub enum CompilerConstantKind {
    /// An ordinary JavaScript value.
    Value,
    /// A compiler-declared nested bytecode-function template.
    Function,
}

impl CompilerConstantKind {
    /// Words that name the value in messages.
    pub open spec fn spec_label(self) -> Seq<char> {
        match self {
            CompilerConstantKind::Value => "value"@,
            CompilerConstantKind::Function => "function"@,
        }
    }

    /// Returns the words that name the value in messages.
    pub fn label(self) -> (label: &'static str)
        ensures
            label@ == self.spec_label(),
    {
        match self {
            CompilerConstantKind::Value => "value",
            CompilerConstantKind::Function => "function",
        }
    }
}

/// Compiler-owned type layout for one function's constant pool.
#[derive(Clone, Debug, PartialEq, Eq, Hash)]
pub struct CompilerConstantLayout {
    /// Kind of each constant-pool entry.
    pub kinds: Arc<[CompilerConstantKind]>,
}

impl Default for CompilerConstantLayout {
    fn default() -> (layout: Self)
        ensures
            layout.kinds@.len() == 0,
    {
        CompilerConstantLayout { kinds: no_entries() }
    }
}

impl CompilerConstantLayout {
    /// Creates a constant layout indexed by `kinds` order.
    pub fn new(kinds: Arc<[CompilerConstantKind]>) -> (layout: Self)
        ensures
            layout.kinds == kinds,
    {
        CompilerConstantLayout { kinds }
    }

    /// Returns the complete constant-kind table.
    pub fn kinds(&self) -> (kinds: &[CompilerConstantKind])
        ensures
            kinds@ == self.kinds@,
    {
        &self.kinds
    }

    /// Kind of one constant-pool index.
    pub open spec fn spec_kind(&self, index: u32) -> Option<CompilerConstantKind> {
        if index < self.kinds@.len() {
            Some(self.kinds@[index as int])
        } else {
            None
        }
    }

    /// Resolves one constant-pool index.
    pub fn kind(&self, index: u32) -> (kind: Option<CompilerConstantKind>)
        ensures
            kind == self.spec_kind(index),
    {
        let index: usize = index as usize;
        if index < self.kinds.len() {
            Some(self.kinds[index])
        } else {
            None
        }
    }
}

/// Owned bytecode and structural counts that have not been verified.
#[derive(Clone, Debug, PartialEq, Eq)]
pub struct UnverifiedFunctionBody {
    /// The raw final-bytecode bytes.
    pub bytecode: Vec<u8>,
    /// The serialized or compiler-declared maximum stack size.
    pub expected_stack_size: u32,
    /// The declared index-domain lengths.
    pub domains: FunctionIndexDomains,
    /// The raw function execution metadata.
    pub function_header: UnverifiedFunctionHeader,
}

impl UnverifiedFunctionBody {
    /// Creates an unverified body.
    pub fn new(
        bytecode: Vec<u8>,
        expected_stack_size: u32,
        domains: FunctionIndexDomains,
        function_header: UnverifiedFunctionHeader,
    ) -> (value: Self)
        ensures
            value == (UnverifiedFunctionBody {
                bytecode,
                expected_stack_size,
                domains,
                function_header,
            }),
    {
        UnverifiedFunctionBody {
            bytecode,
            expected_stack_size,
            domains,
            function_header,
        }
    }

    /// Returns the raw final-bytecode bytes.
    pub fn bytecode(&self) -> (value: &[u8])
        ensures
            value@ == self.bytecode@,
    {
        &self.bytecode
    }

    /// Returns the serialized or compiler-declared maximum stack size.
    pub fn expected_stack_size(&self) -> (value: u32)
        ensures
            value == self.expected_stack_size,
    {
        self.expected_stack_size
    }

    /// Returns the declared index-domain lengths.
    pub fn domains(&self) -> (value: FunctionIndexDomains)
        ensures
            value == self.domains,
    {
        self.domains
    }

    /// Returns the raw function execution metadata.
    pub fn function_header(&self) -> (value: UnverifiedFunctionHeader)
        ensures
            value == self.function_header,
    {
        self.function_header
    }
}

/// Compiler-generated bytecode whose exact maximum stack size is not yet known.
#[derive(Clone, Debug, PartialEq, Eq)]
pub struct UnverifiedCompilerFunctionBody {
    /// The raw final-bytecode bytes.
    pub bytecode: Vec<u8>,
    /// The declared index-domain lengths.
    pub domains: FunctionIndexDomains,
    /// The raw function execution metadata.
    pub function_header: UnverifiedFunctionHeader,
    /// The compiler-owned capture layout.
    pub capture_layout: Option<CompilerCaptureLayout>,
    /// The compiler-owned constant-pool type layout.
    pub constant_layout: Option<CompilerConstantLayout>,
}

impl UnverifiedCompilerFunctionBody {
    /// Creates compiler-generated input requiring complete control-flow
    /// verification.
    pub fn new(
        bytecode: Vec<u8>,
        domains: FunctionIndexDomains,
        function_header: UnverifiedFunctionHeader,
    ) -> (value: Self)
        ensures
            value == (UnverifiedCompilerFunctionBody {
                bytecode,
                domains,
                function_header,
                capture_layout: None,
                constant_layout: None,
            }),
    {
        UnverifiedCompilerFunctionBody {
            bytecode,
            domains,
            function_header,
            capture_layout: None,
            constant_layout: None,
        }
    }

    /// Attaches the compiler-owned capture layout.
    pub fn with_capture_layout(self, capture_layout: CompilerCaptureLayout) -> (value: Self)
        ensures
            value == (UnverifiedCompilerFunctionBody {
                capture_layout: Some(capture_layout),
                ..self
            }),
    {
        UnverifiedCompilerFunctionBody { capture_layout: Some(capture_layout), ..self }
    }

    /// Attaches the compiler-owned constant-pool type layout.
    pub fn with_constant_layout(self, constant_layout: CompilerConstantLayout) -> (value: Self)
        ensures
            value == (UnverifiedCompilerFunctionBody {
                constant_layout: Some(constant_layout),
                ..self
            }),
    {
        UnverifiedCompilerFunctionBody { constant_layout: Some(constant_layout), ..self }
    }

    /// Returns the raw final-bytecode bytes.
    pub fn bytecode(&self) -> (value: &[u8])
        ensures
            value@ == self.bytecode@,
    {
        &self.bytecode
    }

    /// Returns the declared index-domain lengths.
    pub fn domains(&self) -> (value: FunctionIndexDomains)
        ensures
            value == self.domains,
    {
        self.domains
    }

    /// Returns the raw function execution metadata.
    pub fn function_header(&self) -> (value: UnverifiedFunctionHeader)
        ensures
            value == self.function_header,
    {
        self.function_header
    }

    /// Returns the compiler-owned capture layout.
    pub fn capture_layout(&self) -> (value: Option<&CompilerCaptureLayout>)
        ensures
            match value {
                Some(value) => self.capture_layout == Some(*value),
                None => self.capture_layout.is_none(),
            },
    {
        self.capture_layout.as_ref()
    }

    /// Returns the compiler-owned constant-pool type layout.
    pub fn constant_layout(&self) -> (value: Option<&CompilerConstantLayout>)
        ensures
            match value {
                Some(value) => self.constant_layout == Some(*value),
                None => self.constant_layout.is_none(),
            },
    {
        self.constant_layout.as_ref()
    }
}

/// An opaque path to a function; only the root function has one.
#[derive(Clone, Copy, Debug, PartialEq, Eq, Hash, Structural)]
pub struct FunctionPath {}

impl Default for FunctionPath {
    fn default() -> (path: Self)
        ensures
            path == (FunctionPath {  }),
    {
        FunctionPath {  }
    }
}

impl FunctionPath {
    /// Returns the root function path.
    pub fn root() -> (path: Self)
        ensures
            path == (FunctionPath {  }),
    {
        FunctionPath {  }
    }

    /// Returns whether this is the root function.
    pub fn is_root(self) -> (root: bool)
        ensures
            root,
    {
        true
    }

    /// Returns the text that names the path in messages.
    pub fn label(self) -> (label: &'static str)
        ensures
            label@ == "<root>"@,
    {
        "<root>"
    }
}

/// A validated index into one [`VerifiedControlFlow`] instruction array.
///
/// Construction is private so arbitrary integers cannot be presented as
/// verified instruction identities.
#[derive(Clone, Copy, Debug, PartialEq, Eq, PartialOrd, Ord, Hash, Structural)]
pub struct InstructionIndex(pub(crate) u32);

impl InstructionIndex {
    /// The numeric instruction position.
    pub open(crate) spec fn spec_get(self) -> u32 {
        self.0
    }

    /// Returns the numeric instruction position.
    #[verifier::when_used_as_spec(spec_get)]
    pub fn get(self) -> (position: u32)
        ensures
            position == self.spec_get(),
    {
        self.0
    }
}

/// The statically validated successor shape of an instruction.
#[derive(Clone, Copy, Debug, PartialEq, Eq, Hash, Structural)]
pub enum VerifiedSuccessorKind {
    /// One ordinary fallthrough edge.
    Fallthrough,
    /// A target edge and a continuation fallthrough edge.
    Branch,
    /// One unconditional jump edge.
    Jump,
    /// No normal successor.
    Terminate,
}

/// Validated successor instruction indices.
///
/// The representation and constructors are private; instances can only be
/// obtained from a [`VerifiedInstruction`].
#[derive(Clone, Copy, Debug, PartialEq, Eq, Hash, Structural)]
pub struct VerifiedSuccessors(pub(crate) VerifiedSuccessorsRepr);

#[derive(Clone, Copy, Debug, PartialEq, Eq, Hash, Structural)]
pub(crate) enum VerifiedSuccessorsRepr {
    Fallthrough(InstructionIndex),
    Branch { taken: InstructionIndex, not_taken: InstructionIndex },
    Jump(InstructionIndex),
    Terminate,
}

impl VerifiedSuccessors {
    /// The successor shape.
    pub open(crate) spec fn spec_kind(self) -> VerifiedSuccessorKind {
        match self.0 {
            VerifiedSuccessorsRepr::Fallthrough(_) => VerifiedSuccessorKind::Fallthrough,
            VerifiedSuccessorsRepr::Branch { .. } => VerifiedSuccessorKind::Branch,
            VerifiedSuccessorsRepr::Jump(_) => VerifiedSuccessorKind::Jump,
            VerifiedSuccessorsRepr::Terminate => VerifiedSuccessorKind::Terminate,
        }
    }

    /// Returns the successor shape.
    #[verifier::when_used_as_spec(spec_kind)]
    pub fn kind(self) -> (value: VerifiedSuccessorKind)
        ensures
            value == self.spec_kind(),
    {
        match self.0 {
            VerifiedSuccessorsRepr::Fallthrough(_) => VerifiedSuccessorKind::Fallthrough,
            VerifiedSuccessorsRepr::Branch { .. } => VerifiedSuccessorKind::Branch,
            VerifiedSuccessorsRepr::Jump(_) => VerifiedSuccessorKind::Jump,
            VerifiedSuccessorsRepr::Terminate => VerifiedSuccessorKind::Terminate,
        }
    }

    /// An ordinary or not-taken fallthrough successor.
    pub open(crate) spec fn spec_fallthrough(self) -> Option<InstructionIndex> {
        match self.0 {
            VerifiedSuccessorsRepr::Fallthrough(index) => Some(index),
            VerifiedSuccessorsRepr::Branch { not_taken, .. } => Some(not_taken),
            VerifiedSuccessorsRepr::Jump(_) => None,
            VerifiedSuccessorsRepr::Terminate => None,
        }
    }

    /// Returns an ordinary or not-taken fallthrough successor.
    #[verifier::when_used_as_spec(spec_fallthrough)]
    pub fn fallthrough(self) -> (value: Option<InstructionIndex>)
        ensures
            value == self.spec_fallthrough(),
    {
        match self.0 {
            VerifiedSuccessorsRepr::Fallthrough(index) => Some(index),
            VerifiedSuccessorsRepr::Branch { not_taken, .. } => Some(not_taken),
            VerifiedSuccessorsRepr::Jump(_) => None,
            VerifiedSuccessorsRepr::Terminate => None,
        }
    }

    /// The taken branch, handler, or subroutine target.
    pub open(crate) spec fn spec_branch_target(self) -> Option<InstructionIndex> {
        match self.0 {
            VerifiedSuccessorsRepr::Branch { taken, .. } => Some(taken),
            VerifiedSuccessorsRepr::Fallthrough(_) => None,
            VerifiedSuccessorsRepr::Jump(_) => None,
            VerifiedSuccessorsRepr::Terminate => None,
        }
    }

    /// Returns the taken branch, handler, or subroutine target.
    #[verifier::when_used_as_spec(spec_branch_target)]
    pub fn branch_target(self) -> (value: Option<InstructionIndex>)
        ensures
            value == self.spec_branch_target(),
    {
        match self.0 {
            VerifiedSuccessorsRepr::Branch { taken, .. } => Some(taken),
            VerifiedSuccessorsRepr::Fallthrough(_) => None,
            VerifiedSuccessorsRepr::Jump(_) => None,
            VerifiedSuccessorsRepr::Terminate => None,
        }
    }

    /// An unconditional jump target.
    pub open(crate) spec fn spec_jump_target(self) -> Option<InstructionIndex> {
        match self.0 {
            VerifiedSuccessorsRepr::Jump(index) => Some(index),
            VerifiedSuccessorsRepr::Fallthrough(_) => None,
            VerifiedSuccessorsRepr::Branch { .. } => None,
            VerifiedSuccessorsRepr::Terminate => None,
        }
    }

    /// Returns an unconditional jump target.
    #[verifier::when_used_as_spec(spec_jump_target)]
    pub fn jump_target(self) -> (value: Option<InstructionIndex>)
        ensures
            value == self.spec_jump_target(),
    {
        match self.0 {
            VerifiedSuccessorsRepr::Jump(index) => Some(index),
            VerifiedSuccessorsRepr::Fallthrough(_) => None,
            VerifiedSuccessorsRepr::Branch { .. } => None,
            VerifiedSuccessorsRepr::Terminate => None,
        }
    }
}

/// One decoded instruction with validated successors and an analyzed entry
/// stack depth.
///
/// `None` entry depth denotes a structurally valid but unreachable instruction.
#[derive(Clone, Copy, Debug, PartialEq, Eq, Hash, Structural)]
pub struct VerifiedInstruction {
    /// The checked decoded instruction.
    pub(crate) decoded: DecodedInstruction,
    /// The analyzed entry stack depth, or `None` when unreachable.
    pub(crate) entry_stack_depth: Option<u32>,
    /// The validated successor indices.
    pub(crate) successors: VerifiedSuccessors,
}

impl VerifiedInstruction {
    /// The checked decoded instruction.
    pub open(crate) spec fn spec_decoded(self) -> DecodedInstruction {
        self.decoded
    }

    /// Returns the checked decoded instruction.
    #[verifier::when_used_as_spec(spec_decoded)]
    pub fn decoded(self) -> (value: DecodedInstruction)
        ensures
            value == self.spec_decoded(),
    {
        self.decoded
    }

    /// The analyzed entry stack depth, or `None` when unreachable.
    pub open(crate) spec fn spec_entry_stack_depth(self) -> Option<u32> {
        self.entry_stack_depth
    }

    /// Returns the analyzed entry stack depth, or `None` when unreachable.
    #[verifier::when_used_as_spec(spec_entry_stack_depth)]
    pub fn entry_stack_depth(self) -> (value: Option<u32>)
        ensures
            value == self.spec_entry_stack_depth(),
    {
        self.entry_stack_depth
    }

    /// The validated successor indices.
    pub open(crate) spec fn spec_successors(self) -> VerifiedSuccessors {
        self.successors
    }

    /// Returns the validated successor indices.
    #[verifier::when_used_as_spec(spec_successors)]
    pub fn successors(self) -> (value: VerifiedSuccessors)
        ensures
            value == self.spec_successors(),
    {
        self.successors
    }
}

/// Completely predecoded and ordinary-stack-verified control flow.
///
/// This is deliberately not execution authority. It does not validate actual
/// pool contents, atom namespaces, nested functions, debug payloads, internal
/// handler slots, or source tables.
#[derive(Debug, PartialEq, Eq)]
pub struct VerifiedControlFlow {
    /// The immutable raw bytecode retained by this certificate.
    pub(crate) bytecode: Vec<u8>,
    /// All verified instructions in bytecode order.
    pub(crate) instructions: Vec<VerifiedInstruction>,
    /// One bit per byte, set where an instruction starts.
    pub(crate) instruction_start_bitmap: Vec<u64>,
    /// The recomputed maximum operand-stack depth.
    pub(crate) computed_stack_size: u32,
    /// The number of reachable abstract transfer evaluations.
    pub(crate) transfer_evaluations: u64,
    /// The structural index domains against which operands were
    /// checked.
    pub(crate) domains: FunctionIndexDomains,
    /// The validated function execution metadata.
    pub(crate) function_header: VerifiedFunctionHeader,
    /// The validated compiler capture layout, `None` for serialized
    /// bytecode.
    pub(crate) compiler_capture_layout: Option<CompilerCaptureLayout>,
    /// The validated compiler constant-pool type layout, `None` for
    /// serialized bytecode.
    pub(crate) compiler_constant_layout: Option<CompilerConstantLayout>,
}

impl Clone for VerifiedControlFlow {
    fn clone(&self) -> (copy: Self)
        ensures
            copy.spec_bytecode() == self.spec_bytecode(),
            copy.spec_instructions() == self.spec_instructions(),
            copy.spec_instruction_start_bitmap() == self.spec_instruction_start_bitmap(),
            copy.spec_computed_stack_size() == self.spec_computed_stack_size(),
            copy.spec_transfer_evaluations() == self.spec_transfer_evaluations(),
            copy.spec_domains() == self.spec_domains(),
            copy.spec_function_header() == self.spec_function_header(),
            copy.spec_compiler_capture_layout() == self.spec_compiler_capture_layout(),
            copy.spec_compiler_constant_layout() == self.spec_compiler_constant_layout(),
    {
        proof {
            use_type_invariant(self);
        }
        VerifiedControlFlow {
            bytecode: copied(&self.bytecode),
            instructions: copied(&self.instructions),
            instruction_start_bitmap: copied(&self.instruction_start_bitmap),
            computed_stack_size: self.computed_stack_size,
            transfer_evaluations: self.transfer_evaluations,
            domains: self.domains,
            function_header: self.function_header,
            compiler_capture_layout: match &self.compiler_capture_layout {
                Some(layout) => Some(
                    CompilerCaptureLayout {
                        bindings: Arc::clone(&layout.bindings),
                        mapped_arguments: match &layout.mapped_arguments {
                            Some(indices) => Some(Arc::clone(indices)),
                            None => None,
                        },
                    },
                ),
                None => None,
            },
            compiler_constant_layout: match &self.compiler_constant_layout {
                Some(layout) => Some(CompilerConstantLayout { kinds: Arc::clone(&layout.kinds) }),
                None => None,
            },
        }
    }
}

impl VerifiedControlFlow {
    /// The immutable raw bytecode retained by this certificate.
    pub open(crate) spec fn spec_bytecode(&self) -> Seq<u8> {
        self.bytecode@
    }

    /// Returns the immutable raw bytecode retained by this certificate.
    pub fn bytecode(&self) -> (value: &[u8])
        ensures
            value@ == self.spec_bytecode(),
    {
        &self.bytecode
    }

    /// All verified instructions in bytecode order.
    pub open(crate) spec fn spec_instructions(&self) -> Seq<VerifiedInstruction> {
        self.instructions@
    }

    /// Returns all verified instructions in bytecode order.
    ///
    /// They cover the bytecode without gap or overlap, and control stays among
    /// them.
    pub fn instructions(&self) -> (value: &[VerifiedInstruction])
        ensures
            value@ == self.spec_instructions(),
            covers_body(self.spec_bytecode(), value@),
            stays_inside(value@),
    {
        proof {
            use_type_invariant(self);
        }
        &self.instructions
    }

    /// One bit per byte, set where an instruction starts.
    pub open(crate) spec fn spec_instruction_start_bitmap(&self) -> Seq<u64> {
        self.instruction_start_bitmap@
    }

    /// The recomputed maximum operand-stack depth.
    pub open(crate) spec fn spec_computed_stack_size(&self) -> u32 {
        self.computed_stack_size
    }

    /// Returns the recomputed maximum operand-stack depth.
    #[verifier::when_used_as_spec(spec_computed_stack_size)]
    pub fn computed_stack_size(&self) -> (value: u32)
        ensures
            value == self.spec_computed_stack_size(),
    {
        self.computed_stack_size
    }

    /// The number of reachable abstract transfer evaluations.
    pub open(crate) spec fn spec_transfer_evaluations(&self) -> u64 {
        self.transfer_evaluations
    }

    /// Returns the number of reachable abstract transfer evaluations.
    #[verifier::when_used_as_spec(spec_transfer_evaluations)]
    pub fn transfer_evaluations(&self) -> (value: u64)
        ensures
            value == self.spec_transfer_evaluations(),
            value == recorded_depths(self.spec_instructions()),
    {
        proof {
            use_type_invariant(self);
        }
        self.transfer_evaluations
    }

    /// The structural index domains against which operands were
    /// checked.
    pub open(crate) spec fn spec_domains(&self) -> FunctionIndexDomains {
        self.domains
    }

    /// Returns the structural index domains against which operands were
    /// checked.
    #[verifier::when_used_as_spec(spec_domains)]
    pub fn domains(&self) -> (value: FunctionIndexDomains)
        ensures
            value == self.spec_domains(),
    {
        self.domains
    }

    /// The validated function execution metadata.
    pub open(crate) spec fn spec_function_header(&self) -> VerifiedFunctionHeader {
        self.function_header
    }

    /// Returns the validated function execution metadata.
    pub fn function_header(&self) -> (value: &VerifiedFunctionHeader)
        ensures
            *value == self.spec_function_header(),
    {
        &self.function_header
    }

    /// The validated compiler capture layout, `None` for serialized
    /// bytecode.
    pub open(crate) spec fn spec_compiler_capture_layout(&self) -> Option<CompilerCaptureLayout> {
        self.compiler_capture_layout
    }

    /// Returns the validated compiler capture layout, `None` for serialized
    /// bytecode.
    pub fn compiler_capture_layout(&self) -> (value: Option<&CompilerCaptureLayout>)
        ensures
            match value {
                Some(value) => self.spec_compiler_capture_layout() == Some(*value),
                None => self.spec_compiler_capture_layout().is_none(),
            },
    {
        self.compiler_capture_layout.as_ref()
    }

    /// The validated compiler constant-pool type layout, `None` for
    /// serialized bytecode.
    pub open(crate) spec fn spec_compiler_constant_layout(&self) -> Option<CompilerConstantLayout> {
        self.compiler_constant_layout
    }

    /// Returns the validated compiler constant-pool type layout, `None` for
    /// serialized bytecode.
    pub fn compiler_constant_layout(&self) -> (value: Option<&CompilerConstantLayout>)
        ensures
            match value {
                Some(value) => self.spec_compiler_constant_layout() == Some(*value),
                None => self.spec_compiler_constant_layout().is_none(),
            },
    {
        self.compiler_constant_layout.as_ref()
    }

    /// The instructions cover the bytecode without gap or overlap and stand in
    /// increasing byte order, the boundary map marks exactly their offsets,
    /// control stays inside the body, and each instruction that records a
    /// depth was evaluated once.
    pub open(crate) spec fn well_formed(&self) -> bool {
        &&& covers_body(self.bytecode@, self.instructions@)
        &&& stays_inside(self.instructions@)
        &&& self.transfer_evaluations == recorded_depths(self.instructions@)
        &&& self.instruction_start_bitmap@.len() == (self.bytecode@.len() + 63) / 64
        &&& increasing_pcs(decoded_of(self.instructions@))
        &&& boundary_map(
            self.instruction_start_bitmap@,
            self.bytecode@.len(),
            decoded_of(self.instructions@),
        )
        &&& self.instructions@.len() <= u32::MAX
        &&& successors_in_range(self.instructions@)
    }

    #[verifier::type_invariant]
    pub(crate) open(crate) spec fn certificate_holds(&self) -> bool {
        self.well_formed()
    }

    /// Returns whether `pc` starts an instruction.
    pub fn is_instruction_start(&self, pc: BytecodePc) -> (starts: bool)
        ensures
            starts <==> exists|i: int|
                0 <= i < self.spec_instructions().len() && (
                #[trigger] self.spec_instructions()[i]).spec_decoded().pc == pc,
    {
        proof {
            use_type_invariant(self);
        }
        let starts = is_instruction_start(&self.instruction_start_bitmap, self.bytecode.len(), pc);
        proof {
            let decoded = decoded_of(self.instructions@);
            assert(starts == starts_at(decoded, pc.0));
            if starts {
                let i = choose|i: int|
                    0 <= i < decoded.len() && (#[trigger] decoded[i]).pc.0 == pc.0;
                assert(self.spec_instructions()[i].spec_decoded().pc == pc);
            }
            if exists|i: int|
                0 <= i < self.spec_instructions().len() && (
                #[trigger] self.spec_instructions()[i]).spec_decoded().pc == pc {
                let i = choose|i: int|
                    0 <= i < self.spec_instructions().len() && (
                    #[trigger] self.spec_instructions()[i]).spec_decoded().pc == pc;
                assert(decoded[i].pc == pc);
            }
        }
        starts
    }

    /// Resolves an instruction-start PC to its validated index.
    pub fn instruction_index_at(&self, pc: BytecodePc) -> (index: Option<InstructionIndex>)
        ensures
            match index {
                Some(index) => index.spec_get() < self.spec_instructions().len()
                    && self.spec_instructions()[index.spec_get() as int].spec_decoded().pc == pc,
                None => forall|i: int|
                    0 <= i < self.spec_instructions().len() ==> (
                    #[trigger] self.spec_instructions()[i]).spec_decoded().pc != pc,
            },
    {
        proof {
            use_type_invariant(self);
        }
        let index = instruction_index_at(
            &self.instructions,
            &self.instruction_start_bitmap,
            self.bytecode.len(),
            pc,
        );
        proof {
            let decoded = decoded_of(self.instructions@);
            if index.is_none() {
                assert forall|i: int| 0 <= i < self.spec_instructions().len() implies (
                #[trigger] self.spec_instructions()[i]).spec_decoded().pc != pc by {
                    assert(decoded[i].pc == self.spec_instructions()[i].spec_decoded().pc);
                }
            } else {
                let i = index.unwrap().0 as int;
                assert(decoded[i].pc == self.spec_instructions()[i].spec_decoded().pc);
            }
        }
        index
    }

    /// Returns one verified instruction.
    pub fn instruction(&self, index: InstructionIndex) -> (instruction: Option<
        &VerifiedInstruction,
    >)
        ensures
            match instruction {
                Some(instruction) => index.spec_get() < self.spec_instructions().len()
                    && *instruction == self.spec_instructions()[index.spec_get() as int],
                None => index.spec_get() >= self.spec_instructions().len(),
            },
    {
        let index: usize = index.0 as usize;
        if index < self.instructions.len() {
            Some(&self.instructions[index])
        } else {
            None
        }
    }
}

/// Every successor of an instruction is an instruction of the same body.
pub(crate) open(crate) spec fn successors_in_range(
    instructions: Seq<VerifiedInstruction>,
) -> bool {
    forall|i: int|
        0 <= i < instructions.len() ==> successor_in_range(
            (#[trigger] instructions[i]).successors,
            instructions.len(),
        )
}

/// Every target of `successors` is below `len`.
pub(crate) open(crate) spec fn successor_in_range(successors: VerifiedSuccessors, len: nat) -> bool {
    match successors.0 {
        VerifiedSuccessorsRepr::Fallthrough(index) => index.0 < len,
        VerifiedSuccessorsRepr::Branch { taken, not_taken } => taken.0 < len && not_taken.0 < len,
        VerifiedSuccessorsRepr::Jump(index) => index.0 < len,
        VerifiedSuccessorsRepr::Terminate => true,
    }
}

} // verus!
