//! The tree of compiled functions that whole-graph verification starts from.
use crate::control_flow::model::VerifiedControlFlow;
use crate::instruction::AtomPoolIndex;
use vstd::prelude::*;

verus! {

/// Identity of one function of a graph: its position.
#[derive(Clone, Copy, Debug, PartialEq, Eq, Hash, Structural)]
pub struct FunctionTemplateId(pub u32);

impl FunctionTemplateId {
    /// Creates an identity.
    pub fn new(position: u32) -> (id: Self)
        ensures
            id == FunctionTemplateId(position),
    {
        FunctionTemplateId(position)
    }

    /// Returns the position.
    pub fn get(self) -> (position: u32)
        ensures
            position == self.0,
    {
        self.0
    }
}

/// A compile-time string as UTF-16 code units.
#[derive(Clone, Debug, PartialEq, Eq)]
pub struct CompilerString {
    /// Code units of the string.
    pub units: Vec<u16>,
    /// Whether the string stands for an integer-tagged atom.
    pub tagged_integer: bool,
}

impl CompilerString {
    /// Creates a string.
    pub fn new(units: Vec<u16>, tagged_integer: bool) -> (string: Self)
        ensures
            string.units == units,
            string.tagged_integer == tagged_integer,
    {
        CompilerString { units, tagged_integer }
    }

    /// Returns the code units.
    pub fn code_units(&self) -> (units: &[u16])
        ensures
            units@ == self.units@,
    {
        &self.units
    }

    /// Returns whether the string stands for an integer-tagged atom.
    pub fn is_tagged_integer_atom(&self) -> (tagged: bool)
        ensures
            tagged == self.tagged_integer,
    {
        self.tagged_integer
    }
}

/// One entry of a function-local atom pool.
#[derive(Clone, Debug, PartialEq, Eq)]
pub struct CompilerAtom {
    /// Text of the atom.
    pub string: CompilerString,
    /// Whether only static property operands may use the atom.
    pub static_property_only: bool,
}

impl CompilerAtom {
    /// Creates an atom.
    pub fn new(string: CompilerString, static_property_only: bool) -> (atom: Self)
        ensures
            atom.string == string,
            atom.static_property_only == static_property_only,
    {
        CompilerAtom { string, static_property_only }
    }

    /// Returns the text of the atom.
    pub fn string(&self) -> (string: &CompilerString)
        ensures
            *string == self.string,
    {
        &self.string
    }

    /// Returns whether only static property operands may use the atom.
    pub fn is_static_property_only(&self) -> (reserved: bool)
        ensures
            reserved == self.static_property_only,
    {
        self.static_property_only
    }
}

/// One entry of a constant pool, as far as verification distinguishes them.
#[derive(Clone, Copy, Debug, PartialEq, Eq, Hash, Structural)]
pub enum CompilerConstant {
    /// An ordinary value.
    Value,
    /// A nested function template.
    Function(FunctionTemplateId),
}

/// Where a closure variable comes from.
#[derive(Clone, Copy, Debug, PartialEq, Eq, Hash, Structural)]
pub enum CompilerClosureSource {
    /// A variable-reference cell of the parent.
    ParentVariableReference(u32),
    /// A closure variable of the parent.
    ParentClosure(u32),
    /// A global of the constructor's realm.
    ConstructorRealmGlobal(AtomPoolIndex),
    /// A binding of a direct eval's caller.
    DirectEvalBinding {
        /// Position of the binding in the caller's environment.
        index: u32,
    },
    /// A variable that a direct eval creates.
    DirectEvalVariable {
        /// Position of the variable in the eval's environment.
        index: u32,
    },
    /// A cell of the module environment.
    Module {
        /// Position of the cell.
        index: u32,
    },
}

/// One compiled function with its pools.
#[derive(Debug, PartialEq, Eq)]
pub struct VerifiedCompilerFunction {
    /// Verified control flow of the body.
    pub control_flow: VerifiedControlFlow,
    /// Constant pool.
    pub constants: Vec<CompilerConstant>,
    /// Atom pool.
    pub atoms: Vec<CompilerAtom>,
    /// Source of each closure variable.
    pub closure_sources: Vec<CompilerClosureSource>,
    /// Instruction at which function initializers may start.
    pub function_initializer_prefix_start: u32,
}

impl VerifiedCompilerFunction {
    /// Creates a function from its parts.
    pub fn new(
        control_flow: VerifiedControlFlow,
        constants: Vec<CompilerConstant>,
        atoms: Vec<CompilerAtom>,
        closure_sources: Vec<CompilerClosureSource>,
        function_initializer_prefix_start: u32,
    ) -> (function: Self)
        ensures
            function.control_flow == control_flow,
            function.constants == constants,
            function.atoms == atoms,
            function.closure_sources == closure_sources,
            function.function_initializer_prefix_start == function_initializer_prefix_start,
    {
        VerifiedCompilerFunction {
            control_flow,
            constants,
            atoms,
            closure_sources,
            function_initializer_prefix_start,
        }
    }

    /// Returns the verified control flow of the body.
    pub fn control_flow(&self) -> (flow: &VerifiedControlFlow)
        ensures
            *flow == self.control_flow,
    {
        &self.control_flow
    }

    /// Returns the constant pool.
    pub fn constants(&self) -> (constants: &[CompilerConstant])
        ensures
            constants@ == self.constants@,
    {
        &self.constants
    }

    /// Returns the atom pool.
    pub fn atoms(&self) -> (atoms: &[CompilerAtom])
        ensures
            atoms@ == self.atoms@,
    {
        &self.atoms
    }

    /// Returns the source of each closure variable.
    pub fn closure_sources(&self) -> (sources: &[CompilerClosureSource])
        ensures
            sources@ == self.closure_sources@,
    {
        &self.closure_sources
    }

    /// Returns the instruction at which function initializers may start.
    pub fn function_initializer_prefix_start(&self) -> (start: u32)
        ensures
            start == self.function_initializer_prefix_start,
    {
        self.function_initializer_prefix_start
    }
}

/// The functions of one compilation, with their root.
#[derive(Debug, PartialEq, Eq)]
pub struct VerifiedCompilerFunctionGraph {
    /// Identity of the root function.
    pub root_id: FunctionTemplateId,
    /// Functions by position.
    pub functions: Vec<VerifiedCompilerFunction>,
    /// Closure edges evaluated while the graph was built.
    pub closure_edge_evaluations: u64,
}

impl VerifiedCompilerFunctionGraph {
    /// Creates a graph from its functions.
    pub fn new(
        root_id: FunctionTemplateId,
        functions: Vec<VerifiedCompilerFunction>,
        closure_edge_evaluations: u64,
    ) -> (graph: Self)
        ensures
            graph.root_id == root_id,
            graph.functions == functions,
            graph.closure_edge_evaluations == closure_edge_evaluations,
    {
        VerifiedCompilerFunctionGraph { root_id, functions, closure_edge_evaluations }
    }

    /// Returns the identity of the root function.
    pub fn root_id(&self) -> (id: FunctionTemplateId)
        ensures
            id == self.root_id,
    {
        self.root_id
    }

    /// Returns the functions by position.
    pub fn functions(&self) -> (functions: &[VerifiedCompilerFunction])
        ensures
            functions@ == self.functions@,
    {
        &self.functions
    }

    /// Returns one function.
    pub fn function(&self, id: FunctionTemplateId) -> (function: Option<&VerifiedCompilerFunction>)
        ensures
            match function {
                Some(function) => id.0 < self.functions@.len() && *function
                    == self.functions@[id.0 as int],
                None => id.0 >= self.functions@.len(),
            },
    {
        let index: usize = id.0 as usize;
        if index < self.functions.len() {
            Some(&self.functions[index])
        } else {
            None
        }
    }
}

} // verus!
