//! What a graph is charged before its functions are checked.
use crate::bytecode::error::{
    BytecodeVerificationError, BytecodeVerificationErrorKind, graph_error,
};
use crate::bytecode::model::{
    BytecodeGraphResource, BytecodeGraphUsage, BytecodeGraphVerificationLimits,
    UnverifiedFunctionMetadata, no_usage,
};
use crate::bytecode::stack_error::{charge, charged};
use crate::function_graph::{VerifiedCompilerFunction, VerifiedCompilerFunctionGraph};
use crate::reserve::reserve_vec_exact;
use std::sync::Arc;
use vstd::prelude::*;
use vstd::string::StringSliceAdditionalSpecFns;

verus! {

/// Calls `Arc::ptr_eq`, which tells whether two handles point to the same
/// allocation. One allocation holds one text. Whether equal texts share an
/// allocation rests on how they were made and is left open.
#[verifier::external_body]
pub(crate) fn shares_text(left: &Arc<str>, right: &Arc<str>) -> (shared: bool)
    ensures
        shared ==> left@ == right@,
{
    Arc::ptr_eq(left, right)
}

/// Which of the texts retained by each record are counted: those whose
/// allocation no earlier record retains.
pub struct RetainedTexts {
    /// Whether each record's source text is counted.
    pub texts: Vec<bool>,
    /// Whether each record's display name is counted.
    pub names: Vec<bool>,
}

/// Which texts are counted, as sequences.
pub struct TextCounts {
    /// Whether each record's source text is counted.
    pub texts: Seq<bool>,
    /// Whether each record's display name is counted.
    pub names: Seq<bool>,
}

impl RetainedTexts {
    /// Which texts are counted.
    pub open spec fn counts(&self) -> TextCounts {
        TextCounts { texts: self.texts@, names: self.names@ }
    }
}

/// Whether a text is counted exactly where it was found to share its allocation
/// with none of the texts counted before it. `told` says how the comparison of
/// an earlier text with a later one came out.
pub open spec fn counts_first_handles(
    told: spec_fn(int, int, bool) -> bool,
    counted: Seq<bool>,
) -> bool {
    forall|i: int| 0 <= i < counted.len() ==> #[trigger] counted_if_first(told, counted, i)
}

/// Whether text `at` is counted exactly where no text counted before it was
/// found to share its allocation.
pub open spec fn counted_if_first(
    told: spec_fn(int, int, bool) -> bool,
    counted: Seq<bool>,
    at: int,
) -> bool {
    if counted[at] {
        forall|j: int| 0 <= j < at && #[trigger] counted[j] ==> told(j, at, false)
    } else {
        exists|j: int| 0 <= j < at && #[trigger] counted[j] && told(j, at, true)
    }
}

/// Whether the comparison of two handles came out as `shared`.
pub open(crate) spec fn compared(left: Arc<str>, right: Arc<str>, shared: bool) -> bool {
    call_ensures(shares_text, (&left, &right), shared)
}

/// How the comparisons of the records' source texts came out.
pub open spec fn texts_told(metadata: Seq<UnverifiedFunctionMetadata>) -> spec_fn(
    int,
    int,
    bool,
) -> bool {
    |j: int, i: int, shared: bool|
        compared(metadata[j].source.text, metadata[i].source.text, shared)
}

/// How the comparisons of the records' display names came out.
pub open spec fn names_told(metadata: Seq<UnverifiedFunctionMetadata>) -> spec_fn(
    int,
    int,
    bool,
) -> bool {
    |j: int, i: int, shared: bool|
        compared(metadata[j].source.display_name, metadata[i].source.display_name, shared)
}

/// Whether the counted texts are the first handle of each allocation, as the
/// comparisons of the handles came out.
pub open spec fn counts_each_allocation(
    counts: TextCounts,
    metadata: Seq<UnverifiedFunctionMetadata>,
) -> bool {
    &&& counts.texts.len() == metadata.len()
    &&& counts.names.len() == metadata.len()
    &&& counts_first_handles(texts_told(metadata), counts.texts)
    &&& counts_first_handles(names_told(metadata), counts.names)
}

/// Whether each uncounted text is one that an earlier record has counted.
pub open spec fn counts_every_text(counts: TextCounts, metadata: Seq<
    UnverifiedFunctionMetadata,
>) -> bool {
    &&& counts.texts.len() == metadata.len()
    &&& counts.names.len() == metadata.len()
    &&& forall|i: int|
        0 <= i < metadata.len() && !(#[trigger] counts.texts[i]) ==> exists|j: int|
            0 <= j < i && #[trigger] counts.texts[j] && metadata[j].source.text@
                == metadata[i].source.text@
    &&& forall|i: int|
        0 <= i < metadata.len() && !(#[trigger] counts.names[i]) ==> exists|j: int|
            0 <= j < i && #[trigger] counts.names[j] && metadata[j].source.display_name@
                == metadata[i].source.display_name@
}

/// No text is lost: one that is not counted equals one that is.
pub proof fn lemma_every_text_is_counted(
    counts: TextCounts,
    metadata: Seq<UnverifiedFunctionMetadata>,
)
    requires
        counts_each_allocation(counts, metadata),
    ensures
        counts_every_text(counts, metadata),
{
    assert forall|i: int| 0 <= i < metadata.len() && !(#[trigger] counts.texts[i]) implies exists|
        j: int,
    |
        0 <= j < i && #[trigger] counts.texts[j] && metadata[j].source.text@
            == metadata[i].source.text@ by {
        assert(counted_if_first(texts_told(metadata), counts.texts, i));
        let j = choose|j: int|
            0 <= j < i && #[trigger] counts.texts[j] && texts_told(metadata)(j, i, true);
        assert(counts.texts[j]);
    }
    assert forall|i: int| 0 <= i < metadata.len() && !(#[trigger] counts.names[i]) implies exists|
        j: int,
    |
        0 <= j < i && #[trigger] counts.names[j] && metadata[j].source.display_name@
            == metadata[i].source.display_name@ by {
        assert(counted_if_first(names_told(metadata), counts.names, i));
        let j = choose|j: int|
            0 <= j < i && #[trigger] counts.names[j] && names_told(metadata)(j, i, true);
        assert(counts.names[j]);
    }
}

/// Whether no text before `at` has the same allocation.
pub open spec fn first_of_allocation(same: spec_fn(int, int) -> bool, at: int) -> bool {
    forall|j: int| 0 <= j < at ==> !#[trigger] same(j, at)
}

/// Whether the comparisons tell which texts have the same allocation.
pub open spec fn tells_allocations(
    told: spec_fn(int, int, bool) -> bool,
    same: spec_fn(int, int) -> bool,
) -> bool {
    &&& forall|j: int, i: int, shared: bool| #[trigger]
        told(j, i, shared) ==> shared == same(j, i)
    &&& forall|k: int, j: int, i: int| #[trigger]
        same(k, j) && #[trigger] same(j, i) ==> same(k, i)
}

/// Where the comparisons tell allocations apart, exactly the first text of each
/// allocation is counted: texts in one allocation once, equal texts in two
/// allocations twice.
pub proof fn lemma_first_of_each_allocation_is_counted(
    told: spec_fn(int, int, bool) -> bool,
    same: spec_fn(int, int) -> bool,
    counted: Seq<bool>,
    at: int,
)
    requires
        counts_first_handles(told, counted),
        tells_allocations(told, same),
        0 <= at < counted.len(),
    ensures
        counted[at] == first_of_allocation(same, at),
{
    assert(counted_if_first(told, counted, at));
    if counted[at] {
        assert forall|j: int| 0 <= j < at implies !#[trigger] same(j, at) by {
            if counted[j] {
                assert(told(j, at, false));
            } else if same(j, at) {
                assert(counted_if_first(told, counted, j));
                let k = choose|k: int| 0 <= k < j && #[trigger] counted[k] && told(k, j, true);
                assert(same(k, j));
                assert(same(k, at));
                assert(counted[k]);
                assert(told(k, at, false));
            }
        }
    } else {
        let j = choose|j: int| 0 <= j < at && #[trigger] counted[j] && told(j, at, true);
        assert(same(j, at));
    }
}

/// Usage with more variable definitions.
pub open spec fn with_variables(
    usage: Result<BytecodeGraphUsage, BytecodeVerificationError>,
    amount: int,
    limits: BytecodeGraphVerificationLimits,
) -> Result<BytecodeGraphUsage, BytecodeVerificationError> {
    match usage {
        Err(error) => Err(error),
        Ok(usage) => match charged(
            usage.variable_definitions,
            amount as u64,
            limits.max_variable_definitions,
            BytecodeGraphResource::VariableDefinitions,
        ) {
            Ok(sum) => Ok(BytecodeGraphUsage { variable_definitions: sum, ..usage }),
            Err(kind) => Err(graph_error(kind)),
        },
    }
}

/// Usage with more closure definitions.
pub open spec fn with_closures(
    usage: Result<BytecodeGraphUsage, BytecodeVerificationError>,
    amount: int,
    limits: BytecodeGraphVerificationLimits,
) -> Result<BytecodeGraphUsage, BytecodeVerificationError> {
    match usage {
        Err(error) => Err(error),
        Ok(usage) => match charged(
            usage.closure_definitions,
            amount as u64,
            limits.max_closure_definitions,
            BytecodeGraphResource::ClosureDefinitions,
        ) {
            Ok(sum) => Ok(BytecodeGraphUsage { closure_definitions: sum, ..usage }),
            Err(kind) => Err(graph_error(kind)),
        },
    }
}

/// Usage with more source mappings.
pub open spec fn with_mappings(
    usage: Result<BytecodeGraphUsage, BytecodeVerificationError>,
    amount: int,
    limits: BytecodeGraphVerificationLimits,
) -> Result<BytecodeGraphUsage, BytecodeVerificationError> {
    match usage {
        Err(error) => Err(error),
        Ok(usage) => match charged(
            usage.source_mappings,
            amount as u64,
            limits.max_source_mappings,
            BytecodeGraphResource::SourceMappings,
        ) {
            Ok(sum) => Ok(BytecodeGraphUsage { source_mappings: sum, ..usage }),
            Err(kind) => Err(graph_error(kind)),
        },
    }
}

/// Usage with one more frame-state entry for each instruction and followed
/// binding.
pub open spec fn with_frame_states(
    usage: Result<BytecodeGraphUsage, BytecodeVerificationError>,
    instructions: int,
    followed: int,
    limits: BytecodeGraphVerificationLimits,
) -> Result<BytecodeGraphUsage, BytecodeVerificationError> {
    match usage {
        Err(error) => Err(error),
        Ok(usage) => if instructions * followed > u64::MAX {
            Err(
                graph_error(
                    BytecodeVerificationErrorKind::LimitExceeded {
                        resource: BytecodeGraphResource::FrameStateEntries,
                        limit: limits.max_frame_state_entries,
                        observed: u64::MAX,
                    },
                ),
            )
        } else {
            match charged(
                usage.frame_state_entries,
                (instructions * followed) as u64,
                limits.max_frame_state_entries,
                BytecodeGraphResource::FrameStateEntries,
            ) {
                Ok(sum) => Ok(BytecodeGraphUsage { frame_state_entries: sum, ..usage }),
                Err(kind) => Err(graph_error(kind)),
            }
        },
    }
}

/// Usage with more source bytes, where they are counted.
pub open spec fn with_source_bytes(
    usage: Result<BytecodeGraphUsage, BytecodeVerificationError>,
    counted: bool,
    amount: int,
    limits: BytecodeGraphVerificationLimits,
) -> Result<BytecodeGraphUsage, BytecodeVerificationError> {
    match usage {
        Err(error) => Err(error),
        Ok(usage) => if !counted {
            Ok(usage)
        } else if amount > u64::MAX {
            Err(
                graph_error(
                    BytecodeVerificationErrorKind::LimitExceeded {
                        resource: BytecodeGraphResource::SourceBytes,
                        limit: limits.max_source_bytes,
                        observed: u64::MAX,
                    },
                ),
            )
        } else {
            match charged(
                usage.source_bytes,
                amount as u64,
                limits.max_source_bytes,
                BytecodeGraphResource::SourceBytes,
            ) {
                Ok(sum) => Ok(BytecodeGraphUsage { source_bytes: sum, ..usage }),
                Err(kind) => Err(graph_error(kind)),
            }
        },
    }
}

/// What a graph is charged for: its functions and records, the bindings whose
/// state each function follows, and the texts that are counted.
pub struct PreflightInput {
    /// Functions of the graph.
    pub functions: Seq<VerifiedCompilerFunction>,
    /// Records of the functions.
    pub metadata: Seq<UnverifiedFunctionMetadata>,
    /// Number of followed bindings of each function.
    pub followed: Seq<usize>,
    /// Which texts are counted.
    pub counts: TextCounts,
    /// Graph-wide limits.
    pub limits: BytecodeGraphVerificationLimits,
}

/// Usage with one more function.
pub open(crate) spec fn with_function(
    input: PreflightInput,
    at: int,
    usage: BytecodeGraphUsage,
) -> Result<BytecodeGraphUsage, BytecodeVerificationError> {
    let metadata = input.metadata[at];
    let instructions = input.functions[at].control_flow.instructions@.len() as int;
    let variables = with_variables(Ok(usage), metadata.variables@.len() as int, input.limits);
    let closures = with_closures(variables, metadata.closures@.len() as int, input.limits);
    let mappings = with_mappings(closures, metadata.source.mappings@.len() as int, input.limits);
    let states = with_frame_states(
        mappings,
        instructions,
        input.followed[at] as int,
        input.limits,
    );
    let text = with_source_bytes(
        states,
        input.counts.texts[at],
        metadata.source.text.spec_bytes().len() as int,
        input.limits,
    );
    with_source_bytes(
        text,
        input.counts.names[at],
        metadata.source.display_name.spec_bytes().len() as int,
        input.limits,
    )
}

/// Usage with the functions from `at` on.
pub open(crate) spec fn with_functions_from(
    input: PreflightInput,
    at: int,
    usage: BytecodeGraphUsage,
) -> Result<BytecodeGraphUsage, BytecodeVerificationError>
    decreases input.metadata.len() - at,
{
    if at >= input.metadata.len() {
        Ok(usage)
    } else {
        match with_function(input, at, usage) {
            Ok(next) => with_functions_from(input, at + 1, next),
            Err(error) => Err(error),
        }
    }
}

/// What a graph is charged before its functions are checked: the closure edges
/// that were evaluated to build it, then each function.
pub open(crate) spec fn preflight(
    input: PreflightInput,
    closure_edge_evaluations: u64,
) -> Result<BytecodeGraphUsage, BytecodeVerificationError> {
    match charged(
        0,
        closure_edge_evaluations,
        input.limits.max_policy_transfers,
        BytecodeGraphResource::PolicyTransfers,
    ) {
        Err(kind) => Err(graph_error(kind)),
        Ok(policy_transfers) => with_functions_from(
            input,
            0,
            BytecodeGraphUsage { policy_transfers, ..no_usage() },
        ),
    }
}

/// Whether usage stays within limits.
pub open spec fn within_limits(
    usage: BytecodeGraphUsage,
    limits: BytecodeGraphVerificationLimits,
) -> bool {
    &&& usage.variable_definitions <= limits.max_variable_definitions
    &&& usage.closure_definitions <= limits.max_closure_definitions
    &&& usage.source_bytes <= limits.max_source_bytes
    &&& usage.source_mappings <= limits.max_source_mappings
    &&& usage.frame_state_entries <= limits.max_frame_state_entries
    &&& usage.policy_transfers <= limits.max_policy_transfers
}

/// Variable definitions of the records from `at` on.
pub open spec fn variables_from(metadata: Seq<UnverifiedFunctionMetadata>, at: int) -> nat
    decreases metadata.len() - at,
{
    if at < 0 || at >= metadata.len() {
        0
    } else {
        metadata[at].variables@.len() + variables_from(metadata, at + 1)
    }
}

/// Closure definitions of the records from `at` on.
pub open spec fn closures_from(metadata: Seq<UnverifiedFunctionMetadata>, at: int) -> nat
    decreases metadata.len() - at,
{
    if at < 0 || at >= metadata.len() {
        0
    } else {
        metadata[at].closures@.len() + closures_from(metadata, at + 1)
    }
}

/// Source mappings of the records from `at` on.
pub open spec fn mappings_from(metadata: Seq<UnverifiedFunctionMetadata>, at: int) -> nat
    decreases metadata.len() - at,
{
    if at < 0 || at >= metadata.len() {
        0
    } else {
        metadata[at].source.mappings@.len() + mappings_from(metadata, at + 1)
    }
}

/// Bytes of the counted texts of the records from `at` on.
pub open spec fn counted_bytes_from(
    metadata: Seq<UnverifiedFunctionMetadata>,
    counts: TextCounts,
    at: int,
) -> nat
    decreases metadata.len() - at,
{
    if at < 0 || at >= metadata.len() {
        0
    } else {
        (if counts.texts[at] {
            metadata[at].source.text.spec_bytes().len()
        } else {
            0
        }) + (if counts.names[at] {
            metadata[at].source.display_name.spec_bytes().len()
        } else {
            0
        }) + counted_bytes_from(metadata, counts, at + 1)
    }
}

/// Bytes of the first text and the first display name of each allocation, of the
/// records from `at` on.
pub open spec fn allocated_bytes_from(
    metadata: Seq<UnverifiedFunctionMetadata>,
    same_text: spec_fn(int, int) -> bool,
    same_name: spec_fn(int, int) -> bool,
    at: int,
) -> nat
    decreases metadata.len() - at,
{
    if at < 0 || at >= metadata.len() {
        0
    } else {
        (if first_of_allocation(same_text, at) {
            metadata[at].source.text.spec_bytes().len()
        } else {
            0
        }) + (if first_of_allocation(same_name, at) {
            metadata[at].source.display_name.spec_bytes().len()
        } else {
            0
        }) + allocated_bytes_from(metadata, same_text, same_name, at + 1)
    }
}

/// Where the comparisons tell allocations apart, the bytes that are counted are
/// those of the distinct allocations.
pub proof fn lemma_counted_bytes_are_allocated(
    metadata: Seq<UnverifiedFunctionMetadata>,
    counts: TextCounts,
    same_text: spec_fn(int, int) -> bool,
    same_name: spec_fn(int, int) -> bool,
    at: int,
)
    requires
        counts_each_allocation(counts, metadata),
        tells_allocations(texts_told(metadata), same_text),
        tells_allocations(names_told(metadata), same_name),
        0 <= at <= metadata.len(),
    ensures
        counted_bytes_from(metadata, counts, at) == allocated_bytes_from(
            metadata,
            same_text,
            same_name,
            at,
        ),
    decreases metadata.len() - at,
{
    if at < metadata.len() {
        lemma_first_of_each_allocation_is_counted(
            texts_told(metadata),
            same_text,
            counts.texts,
            at,
        );
        lemma_first_of_each_allocation_is_counted(
            names_told(metadata),
            same_name,
            counts.names,
            at,
        );
        lemma_counted_bytes_are_allocated(metadata, counts, same_text, same_name, at + 1);
    }
}

proof fn lemma_sizes_fit(metadata: UnverifiedFunctionMetadata)
    ensures
        metadata.variables@.len() <= u64::MAX,
        metadata.closures@.len() <= u64::MAX,
        metadata.source.mappings@.len() <= u64::MAX,
{
    assert(vstd::slice::spec_slice_len(&*metadata.variables) == metadata.variables@.len());
    assert(vstd::slice::spec_slice_len(&*metadata.closures) == metadata.closures@.len());
    assert(vstd::slice::spec_slice_len(&*metadata.source.mappings) == metadata.source.mappings@.len());
}

proof fn lemma_functions_are_summed(input: PreflightInput, at: int, usage: BytecodeGraphUsage)
    requires
        0 <= at <= input.metadata.len(),
        within_limits(usage, input.limits),
        with_functions_from(input, at, usage).is_ok(),
    ensures
        ({
            let end = with_functions_from(input, at, usage)->Ok_0;
            &&& within_limits(end, input.limits)
            &&& end.variable_definitions == usage.variable_definitions + variables_from(
                input.metadata,
                at,
            )
            &&& end.closure_definitions == usage.closure_definitions + closures_from(
                input.metadata,
                at,
            )
            &&& end.source_mappings == usage.source_mappings + mappings_from(
                input.metadata,
                at,
            )
            &&& end.source_bytes == usage.source_bytes + counted_bytes_from(
                input.metadata,
                input.counts,
                at,
            )
            &&& end.policy_transfers == usage.policy_transfers
        }),
    decreases input.metadata.len() - at,
{
    if at < input.metadata.len() {
        let next = with_function(input, at, usage)->Ok_0;
        lemma_sizes_fit(input.metadata[at]);
        lemma_functions_are_summed(input, at + 1, next);
    }
}

/// A graph that is accepted stays within its limits, and is charged exactly the
/// definitions of its records.
pub proof fn lemma_preflight_sums_within_limits(
    input: PreflightInput,
    closure_edge_evaluations: u64,
)
    requires
        preflight(input, closure_edge_evaluations).is_ok(),
    ensures
        ({
            let usage = preflight(input, closure_edge_evaluations)->Ok_0;
            &&& within_limits(usage, input.limits)
            &&& usage.variable_definitions == variables_from(input.metadata, 0)
            &&& usage.closure_definitions == closures_from(input.metadata, 0)
            &&& usage.source_mappings == mappings_from(input.metadata, 0)
            &&& usage.source_bytes == counted_bytes_from(input.metadata, input.counts, 0)
            &&& usage.policy_transfers == closure_edge_evaluations
        }),
{
    lemma_functions_are_summed(
        input,
        0,
        BytecodeGraphUsage { policy_transfers: closure_edge_evaluations, ..no_usage() },
    );
}

fn charge_function(
    function: &VerifiedCompilerFunction,
    metadata: &UnverifiedFunctionMetadata,
    followed: usize,
    counts_text: bool,
    counts_name: bool,
    limits: BytecodeGraphVerificationLimits,
    usage: &mut BytecodeGraphUsage,
    Ghost(input): Ghost<PreflightInput>,
    Ghost(at): Ghost<int>,
) -> (outcome: Result<(), BytecodeVerificationError>)
    requires
        0 <= at < input.metadata.len(),
        *function == input.functions[at],
        *metadata == input.metadata[at],
        followed == input.followed[at],
        counts_text == input.counts.texts[at],
        counts_name == input.counts.names[at],
        limits == input.limits,
    ensures
        match outcome {
            Ok(_) => with_function(input, at, *old(usage)) == Ok::<
                BytecodeGraphUsage,
                BytecodeVerificationError,
            >(*final(usage)),
            Err(error) => with_function(input, at, *old(usage)) == Err::<
                BytecodeGraphUsage,
                BytecodeVerificationError,
            >(error),
        },
{
    let source = &metadata.source;
    charge(
        &mut usage.variable_definitions,
        metadata.variables.len() as u64,
        limits.max_variable_definitions,
        BytecodeGraphResource::VariableDefinitions,
    )?;
    charge(
        &mut usage.closure_definitions,
        metadata.closures.len() as u64,
        limits.max_closure_definitions,
        BytecodeGraphResource::ClosureDefinitions,
    )?;
    charge(
        &mut usage.source_mappings,
        source.mappings.len() as u64,
        limits.max_source_mappings,
        BytecodeGraphResource::SourceMappings,
    )?;
    let instructions: u64 = function.control_flow().instructions().len() as u64;
    let entries: u64 = match instructions.checked_mul(followed as u64) {
        Some(entries) => entries,
        None => {
            return Err(
                BytecodeVerificationError::graph(
                    BytecodeVerificationErrorKind::LimitExceeded {
                        resource: BytecodeGraphResource::FrameStateEntries,
                        limit: limits.max_frame_state_entries,
                        observed: u64::MAX,
                    },
                ),
            );
        },
    };
    charge(
        &mut usage.frame_state_entries,
        entries,
        limits.max_frame_state_entries,
        BytecodeGraphResource::FrameStateEntries,
    )?;
    if counts_text {
        let length: usize = source.text.as_bytes().len();
        charge(
            &mut usage.source_bytes,
            length as u64,
            limits.max_source_bytes,
            BytecodeGraphResource::SourceBytes,
        )?;
    }
    if counts_name {
        let length: usize = source.display_name.as_bytes().len();
        charge(
            &mut usage.source_bytes,
            length as u64,
            limits.max_source_bytes,
            BytecodeGraphResource::SourceBytes,
        )?;
    }
    Ok(())
}

/// Returns what a graph is charged before its functions are checked, given the
/// texts that are counted.
pub fn preflight_usage_of_texts(
    graph: &VerifiedCompilerFunctionGraph,
    metadata: &[UnverifiedFunctionMetadata],
    followed: &[usize],
    retained: &RetainedTexts,
    limits: BytecodeGraphVerificationLimits,
) -> (usage: Result<BytecodeGraphUsage, BytecodeVerificationError>)
    requires
        metadata@.len() == graph.functions@.len(),
        followed@.len() == metadata@.len(),
        retained.texts@.len() == metadata@.len(),
        retained.names@.len() == metadata@.len(),
    ensures
        usage == preflight(
            (PreflightInput {
                functions: graph.functions@,
                metadata: metadata@,
                followed: followed@,
                counts: retained.counts(),
                limits,
            }),
            graph.closure_edge_evaluations,
        ),
{
    let ghost input = PreflightInput {
        functions: graph.functions@,
        metadata: metadata@,
        followed: followed@,
        counts: retained.counts(),
        limits,
    };
    let mut usage = BytecodeGraphUsage::default();
    charge(
        &mut usage.policy_transfers,
        graph.closure_edge_evaluations,
        limits.max_policy_transfers,
        BytecodeGraphResource::PolicyTransfers,
    )?;
    let ghost first = usage;
    let functions = graph.functions();
    let mut at: usize = 0;
    while at < metadata.len()
        invariant
            at <= metadata@.len(),
            functions@ == graph.functions@,
            metadata@.len() == graph.functions@.len(),
            followed@.len() == metadata@.len(),
            retained.texts@.len() == metadata@.len(),
            retained.names@.len() == metadata@.len(),
            input == (PreflightInput {
                functions: graph.functions@,
                metadata: metadata@,
                followed: followed@,
                counts: retained.counts(),
                limits,
            }),
            preflight(input, graph.closure_edge_evaluations) == with_functions_from(
                input,
                at as int,
                usage,
            ),
        decreases metadata@.len() - at,
    {
        charge_function(
            &functions[at],
            &metadata[at],
            followed[at],
            retained.texts[at],
            retained.names[at],
            limits,
            &mut usage,
            Ghost(input),
            Ghost(at as int),
        )?;
        at = at + 1;
    }
    Ok(usage)
}

/// Failure to reserve the tables of the texts that `records` records retain.
pub open spec fn texts_failure(records: nat) -> BytecodeVerificationError {
    graph_error(
        BytecodeVerificationErrorKind::AllocationFailed {
            resource: BytecodeGraphResource::SourceBytes,
            requested: records as u64,
        },
    )
}

fn source_bytes_failure(records: usize) -> (error: BytecodeVerificationError)
    ensures
        error == texts_failure(records as nat),
{
    BytecodeVerificationError::graph(
        BytecodeVerificationErrorKind::AllocationFailed {
            resource: BytecodeGraphResource::SourceBytes,
            requested: records as u64,
        },
    )
}

/// Returns which of `count` handles are counted, given how each compares with
/// an earlier one: those that share their allocation with none counted before.
pub fn count_first_handles<F: Fn(usize, usize) -> bool>(count: usize, shares: F) -> (outcome:
    Result<Vec<bool>, BytecodeVerificationError>)
    requires
        forall|j: usize, i: usize| j < i < count ==> #[trigger] shares.requires((j, i)),
    ensures
        match outcome {
            Ok(counted) => counted@.len() == count && counts_first_handles(
                |j: int, i: int, shared: bool| shares.ensures((j as usize, i as usize), shared),
                counted@,
            ),
            Err(error) => error == texts_failure(count as nat),
        },
{
    let ghost told = |j: int, i: int, shared: bool|
        shares.ensures((j as usize, i as usize), shared);
    let mut counted: Vec<bool> = Vec::new();
    let mut positions: Vec<usize> = Vec::new();
    if reserve_vec_exact(&mut counted, count).is_err() || reserve_vec_exact(
        &mut positions,
        count,
    ).is_err() {
        return Err(source_bytes_failure(count));
    }
    let mut at: usize = 0;
    while at < count
        invariant
            at <= count,
            counted@.len() == at,
            told == (|j: int, i: int, shared: bool|
                shares.ensures((j as usize, i as usize), shared)),
            forall|j: usize, i: usize| j < i < count ==> #[trigger] shares.requires((j, i)),
            forall|k: int|
                0 <= k < positions@.len() ==> #[trigger] positions@[k] < at
                    && counted@[positions@[k] as int],
            forall|j: int|
                0 <= j < at && #[trigger] counted@[j] ==> positions@.contains(j as usize),
            counts_first_handles(told, counted@),
        decreases count - at,
    {
        let ghost earlier = counted@;
        let mut shared: bool = false;
        let mut k: usize = 0;
        while k < positions.len() && !shared
            invariant
                k <= positions@.len(),
                at < count,
                told == (|j: int, i: int, shared: bool|
                    shares.ensures((j as usize, i as usize), shared)),
                forall|j: usize, i: usize| j < i < count ==> #[trigger] shares.requires((j, i)),
                forall|k: int| 0 <= k < positions@.len() ==> #[trigger] positions@[k] < at,
                if shared {
                    0 < k && told(positions@[k - 1] as int, at as int, true)
                } else {
                    forall|l: int|
                        0 <= l < k ==> told(#[trigger] positions@[l] as int, at as int, false)
                },
            decreases positions@.len() - k,
        {
            shared = shares(positions[k], at);
            k = k + 1;
        }
        counted.push(!shared);
        proof {
            assert forall|i: int| 0 <= i < counted@.len() implies #[trigger] counted_if_first(
                told,
                counted@,
                i,
            ) by {
                if i < at {
                    assert(counted_if_first(told, earlier, i));
                    if earlier[i] {
                        assert forall|j: int| 0 <= j < i && #[trigger] counted@[j] implies told(
                            j,
                            i,
                            false,
                        ) by {
                            assert(earlier[j]);
                        }
                    } else {
                        let j = choose|j: int|
                            0 <= j < i && #[trigger] earlier[j] && told(j, i, true);
                        assert(counted@[j]);
                    }
                } else if shared {
                    assert(counted@[positions@[k - 1] as int]);
                } else {
                    assert forall|j: int| 0 <= j < i && #[trigger] counted@[j] implies told(
                        j,
                        i,
                        false,
                    ) by {
                        assert(earlier[j]);
                        assert(positions@.contains(j as usize));
                    }
                }
            }
        }
        let ghost before = positions@;
        if !shared {
            positions.push(at);
        }
        proof {
            assert forall|j: int| 0 <= j < at + 1 && #[trigger] counted@[j] implies positions@.contains(
            j as usize) by {
                if j < at {
                    assert(earlier[j]);
                    assert(before.contains(j as usize));
                    let l = choose|l: int| 0 <= l < before.len() && before[l] == j as usize;
                    assert(positions@[l] == j as usize);
                } else {
                    assert(positions@[positions@.len() - 1] == j as usize);
                }
            }
        }
        at = at + 1;
    }
    Ok(counted)
}

/// What more is told keeps the same texts counted.
proof fn lemma_counted_as_told(
    told: spec_fn(int, int, bool) -> bool,
    more: spec_fn(int, int, bool) -> bool,
    counted: Seq<bool>,
)
    requires
        counts_first_handles(told, counted),
        forall|j: int, i: int, shared: bool|
            0 <= j < i < counted.len() && #[trigger] told(j, i, shared) ==> more(j, i, shared),
    ensures
        counts_first_handles(more, counted),
{
    assert forall|i: int| 0 <= i < counted.len() implies #[trigger] counted_if_first(
        more,
        counted,
        i,
    ) by {
        assert(counted_if_first(told, counted, i));
        if counted[i] {
            assert forall|j: int| 0 <= j < i && #[trigger] counted[j] implies more(j, i, false) by {
                assert(told(j, i, false));
            }
        } else {
            let j = choose|j: int| 0 <= j < i && #[trigger] counted[j] && told(j, i, true);
            assert(counted[j] && more(j, i, true));
        }
    }
}

/// Returns which texts of the records are counted: one handle of each
/// allocation, the first.
pub fn find_retained_texts(metadata: &[UnverifiedFunctionMetadata]) -> (retained: Result<
    RetainedTexts,
    BytecodeVerificationError,
>)
    ensures
        match retained {
            Ok(retained) => counts_each_allocation(retained.counts(), metadata@)
                && counts_every_text(retained.counts(), metadata@),
            Err(error) => error == texts_failure(metadata@.len()),
        },
{
    let share_text = |j: usize, i: usize| -> (shared: bool)
        requires
            j < metadata@.len(),
            i < metadata@.len(),
        ensures
            compared(
                metadata@[j as int].source.text,
                metadata@[i as int].source.text,
                shared,
            ),
        { shares_text(&metadata[j].source.text, &metadata[i].source.text) };
    let share_name = |j: usize, i: usize| -> (shared: bool)
        requires
            j < metadata@.len(),
            i < metadata@.len(),
        ensures
            compared(
                metadata@[j as int].source.display_name,
                metadata@[i as int].source.display_name,
                shared,
            ),
        { shares_text(&metadata[j].source.display_name, &metadata[i].source.display_name) };
    let texts = count_first_handles(metadata.len(), share_text)?;
    let names = count_first_handles(metadata.len(), share_name)?;
    let retained = RetainedTexts { texts, names };
    proof {
        lemma_counted_as_told(
            |j: int, i: int, shared: bool| share_text.ensures((j as usize, i as usize), shared),
            texts_told(metadata@),
            retained.texts@,
        );
        lemma_counted_as_told(
            |j: int, i: int, shared: bool| share_name.ensures((j as usize, i as usize), shared),
            names_told(metadata@),
            retained.names@,
        );
        lemma_every_text_is_counted(retained.counts(), metadata@);
    }
    Ok(retained)
}

} // verus!
