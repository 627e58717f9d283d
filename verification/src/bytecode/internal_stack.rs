//! Typed operand stacks: the internal markers that bytecode keeps between
//! ordinary values, and the certificate that their analysis yields.
use crate::control_flow::model::{InstructionIndex, VerifiedInstruction};
use crate::instruction::BytecodePc;
use crate::opcode::FinalOpcode;
use vstd::prelude::*;

verus! {

/// How a delegated generator calls its iterator.
#[derive(Clone, Copy, Debug, PartialEq, Eq, Hash, Structural)]
pub enum YieldStarCallKind {
    /// Calls the `return` method.
    Return,
    /// Calls the `throw` method.
    Throw,
    /// Closes the iterator.
    Close,
}

/// A JavaScript value on the operand stack, with what is known of its origin.
#[derive(Clone, Copy, Debug, PartialEq, Eq, Hash, Structural)]
pub enum JavaScriptStackValue {
    /// A value of unknown origin.
    Ordinary,
    /// See the marker of the same name.
    ForInKey(BytecodePc),
    /// See the marker of the same name.
    ForInDone(BytecodePc),
    /// See the marker of the same name.
    ForInHeadKey(BytecodePc),
    /// See the marker of the same name.
    ForOfValue(BytecodePc),
    /// See the marker of the same name.
    ForOfDone(BytecodePc),
    /// See the marker of the same name.
    ForOfHeadValue(BytecodePc),
    /// See the marker of the same name.
    ForOfReturnValue(BytecodePc),
    /// See the marker of the same name.
    CatchException(BytecodePc),
}

/// A slot of the typed operand stack. A site is the offset of the instruction
/// that created the marker.
#[allow(inconsistent_fields)]
#[derive(Clone, Copy, Debug, PartialEq, Eq, Hash, Structural)]
pub enum InternalStackValue {
    /// A JavaScript value of unknown origin.
    Ordinary,
    /// The active derived constructor.
    DerivedActiveConstructor(BytecodePc),
    /// The superclass constructor.
    DerivedSuperConstructor(BytecodePc),
    /// `new.target` for the superclass constructor.
    DerivedSuperNewTarget(BytecodePc),
    /// The result of `super(..)`.
    DerivedSuperResult(BytecodePc),
    /// The checked completion of `super(..)`.
    DerivedSuperCompletion(BytecodePc),
    /// A for-in enumeration.
    ForInIterator(BytecodePc),
    /// The key of a for-in step.
    ForInKey(BytecodePc),
    /// The done flag of a for-in step.
    ForInDone(BytecodePc),
    /// The key that a for-in head binds.
    ForInHeadKey(BytecodePc),
    /// The iterator of an active for-of record.
    ForOfIterator(BytecodePc),
    /// The next method of an active for-of record.
    ForOfNextMethod(BytecodePc),
    /// The catch slot of an active for-of record.
    ForOfCatch(BytecodePc),
    /// The catch slot while a step is awaited.
    ForOfDisabledCatch(BytecodePc),
    /// The promise of a for-await step.
    ForOfAwaitResult(BytecodePc),
    /// The awaited result of a for-await step.
    ForOfAwaitedResult(BytecodePc),
    /// The iterator of an exhausted record.
    ForOfExhaustedIterator(BytecodePc),
    /// The next method of an exhausted record.
    ForOfExhaustedNextMethod(BytecodePc),
    /// The catch slot of an exhausted record.
    ForOfExhaustedCatch(BytecodePc),
    /// The iterator of a record that may be exhausted.
    ForOfClosableIterator(BytecodePc),
    /// The next method of a record that may be exhausted.
    ForOfClosableNextMethod(BytecodePc),
    /// The catch slot of a record that may be exhausted.
    ForOfClosableCatch(BytecodePc),
    /// The value of a for-of step.
    ForOfValue(BytecodePc),
    /// The done flag of a for-of step.
    ForOfDone(BytecodePc),
    /// The value that a for-of head binds.
    ForOfHeadValue(BytecodePc),
    /// The completion that leaves a for-of loop.
    ForOfReturnValue(BytecodePc),
    /// The iterator of a record being closed.
    ForOfCloseIterator(BytecodePc),
    /// The next method of a record being closed.
    ForOfCloseNextMethod(BytecodePc),
    /// The filler of a record being closed.
    ForOfCloseDummy(BytecodePc),
    /// The iterator of a delegation.
    YieldStarIterator(BytecodePc),
    /// The next method of a delegation.
    YieldStarNextMethod(BytecodePc),
    /// The filler of a delegation.
    YieldStarDummy(BytecodePc),
    /// A result object of the delegate.
    YieldStarIteratorResult(BytecodePc),
    /// The done flag of a result object.
    YieldStarDone(BytecodePc),
    /// A result object to yield.
    YieldStarYieldResult(BytecodePc),
    /// The value of a result object to yield.
    YieldStarYieldValue(BytecodePc),
    /// The final result object.
    YieldStarFinalResult(BytecodePc),
    /// The value a delegation is resumed with.
    YieldStarResumeValue(BytecodePc),
    /// How a delegation is resumed.
    YieldStarResumeMode(BytecodePc),
    /// A copy of the resume mode to test.
    YieldStarResumeModeTest(BytecodePc),
    /// Whether a delegation is resumed by a throw.
    YieldStarIsThrow(BytecodePc),
    /// The value of a call to the delegate.
    YieldStarCallValue(BytecodePc, YieldStarCallKind),
    /// Whether the delegate lacks the called method.
    YieldStarMethodMissing(BytecodePc, YieldStarCallKind),
    /// A catch region.
    CatchMarker { site: BytecodePc, handler: InstructionIndex },
    /// A caught exception.
    CatchException(BytecodePc),
    /// The value kept aside while a finally subroutine runs.
    FinallyPending { target: InstructionIndex, original: JavaScriptStackValue },
    /// The return address of a finally subroutine.
    FinallyReturn { target: InstructionIndex },
}

impl JavaScriptStackValue {
    /// The JavaScript value in a slot, if the slot holds one.
    pub open spec fn spec_from_internal(value: InternalStackValue) -> Option<JavaScriptStackValue> {
        match value {
            InternalStackValue::ForInKey(site) => Some(JavaScriptStackValue::ForInKey(site)),
            InternalStackValue::ForInDone(site) => Some(JavaScriptStackValue::ForInDone(site)),
            InternalStackValue::ForInHeadKey(site) => Some(JavaScriptStackValue::ForInHeadKey(site)),
            InternalStackValue::ForOfValue(site) => Some(JavaScriptStackValue::ForOfValue(site)),
            InternalStackValue::ForOfDone(site) => Some(JavaScriptStackValue::ForOfDone(site)),
            InternalStackValue::ForOfHeadValue(site) => Some(JavaScriptStackValue::ForOfHeadValue(site)),
            InternalStackValue::ForOfReturnValue(site) => Some(JavaScriptStackValue::ForOfReturnValue(site)),
            InternalStackValue::CatchException(site) => Some(JavaScriptStackValue::CatchException(site)),
            InternalStackValue::ForInIterator(_)
            | InternalStackValue::DerivedActiveConstructor(_)
            | InternalStackValue::DerivedSuperConstructor(_)
            | InternalStackValue::DerivedSuperNewTarget(_)
            | InternalStackValue::DerivedSuperCompletion(_)
            | InternalStackValue::ForOfIterator(_)
            | InternalStackValue::ForOfNextMethod(_)
            | InternalStackValue::ForOfCatch(_)
            | InternalStackValue::ForOfDisabledCatch(_)
            | InternalStackValue::ForOfExhaustedIterator(_)
            | InternalStackValue::ForOfExhaustedNextMethod(_)
            | InternalStackValue::ForOfExhaustedCatch(_)
            | InternalStackValue::ForOfClosableIterator(_)
            | InternalStackValue::ForOfClosableNextMethod(_)
            | InternalStackValue::ForOfClosableCatch(_)
            | InternalStackValue::ForOfCloseIterator(_)
            | InternalStackValue::ForOfCloseNextMethod(_)
            | InternalStackValue::ForOfCloseDummy(_)
            | InternalStackValue::YieldStarIterator(_)
            | InternalStackValue::YieldStarNextMethod(_)
            | InternalStackValue::YieldStarDummy(_)
            | InternalStackValue::CatchMarker { .. }
            | InternalStackValue::FinallyPending { .. }
            | InternalStackValue::FinallyReturn { .. } => None,
            _ => Some(JavaScriptStackValue::Ordinary),
        }
    }

    /// Returns the JavaScript value in a slot, if the slot holds one.
    #[verifier::when_used_as_spec(spec_from_internal)]
    pub fn from_internal(value: InternalStackValue) -> (result: Option<JavaScriptStackValue>)
        ensures
            result == Self::spec_from_internal(value),
    {
        match value {
            InternalStackValue::ForInKey(site) => Some(JavaScriptStackValue::ForInKey(site)),
            InternalStackValue::ForInDone(site) => Some(JavaScriptStackValue::ForInDone(site)),
            InternalStackValue::ForInHeadKey(site) => Some(JavaScriptStackValue::ForInHeadKey(site)),
            InternalStackValue::ForOfValue(site) => Some(JavaScriptStackValue::ForOfValue(site)),
            InternalStackValue::ForOfDone(site) => Some(JavaScriptStackValue::ForOfDone(site)),
            InternalStackValue::ForOfHeadValue(site) => Some(JavaScriptStackValue::ForOfHeadValue(site)),
            InternalStackValue::ForOfReturnValue(site) => Some(JavaScriptStackValue::ForOfReturnValue(site)),
            InternalStackValue::CatchException(site) => Some(JavaScriptStackValue::CatchException(site)),
            InternalStackValue::ForInIterator(_)
            | InternalStackValue::DerivedActiveConstructor(_)
            | InternalStackValue::DerivedSuperConstructor(_)
            | InternalStackValue::DerivedSuperNewTarget(_)
            | InternalStackValue::DerivedSuperCompletion(_)
            | InternalStackValue::ForOfIterator(_)
            | InternalStackValue::ForOfNextMethod(_)
            | InternalStackValue::ForOfCatch(_)
            | InternalStackValue::ForOfDisabledCatch(_)
            | InternalStackValue::ForOfExhaustedIterator(_)
            | InternalStackValue::ForOfExhaustedNextMethod(_)
            | InternalStackValue::ForOfExhaustedCatch(_)
            | InternalStackValue::ForOfClosableIterator(_)
            | InternalStackValue::ForOfClosableNextMethod(_)
            | InternalStackValue::ForOfClosableCatch(_)
            | InternalStackValue::ForOfCloseIterator(_)
            | InternalStackValue::ForOfCloseNextMethod(_)
            | InternalStackValue::ForOfCloseDummy(_)
            | InternalStackValue::YieldStarIterator(_)
            | InternalStackValue::YieldStarNextMethod(_)
            | InternalStackValue::YieldStarDummy(_)
            | InternalStackValue::CatchMarker { .. }
            | InternalStackValue::FinallyPending { .. }
            | InternalStackValue::FinallyReturn { .. } => None,
            _ => Some(JavaScriptStackValue::Ordinary),
        }
    }

    /// The slot that holds the value.
    pub open spec fn spec_into_internal(self) -> InternalStackValue {
        match self {
            JavaScriptStackValue::Ordinary => InternalStackValue::Ordinary,
            JavaScriptStackValue::ForInKey(site) => InternalStackValue::ForInKey(site),
            JavaScriptStackValue::ForInDone(site) => InternalStackValue::ForInDone(site),
            JavaScriptStackValue::ForInHeadKey(site) => InternalStackValue::ForInHeadKey(site),
            JavaScriptStackValue::ForOfValue(site) => InternalStackValue::ForOfValue(site),
            JavaScriptStackValue::ForOfDone(site) => InternalStackValue::ForOfDone(site),
            JavaScriptStackValue::ForOfHeadValue(site) => InternalStackValue::ForOfHeadValue(site),
            JavaScriptStackValue::ForOfReturnValue(site) => InternalStackValue::ForOfReturnValue(site),
            JavaScriptStackValue::CatchException(site) => InternalStackValue::CatchException(site),
        }
    }

    /// Returns the slot that holds the value.
    #[verifier::when_used_as_spec(spec_into_internal)]
    pub fn into_internal(self) -> (result: InternalStackValue)
        ensures
            result == self.spec_into_internal(),
    {
        match self {
            JavaScriptStackValue::Ordinary => InternalStackValue::Ordinary,
            JavaScriptStackValue::ForInKey(site) => InternalStackValue::ForInKey(site),
            JavaScriptStackValue::ForInDone(site) => InternalStackValue::ForInDone(site),
            JavaScriptStackValue::ForInHeadKey(site) => InternalStackValue::ForInHeadKey(site),
            JavaScriptStackValue::ForOfValue(site) => InternalStackValue::ForOfValue(site),
            JavaScriptStackValue::ForOfDone(site) => InternalStackValue::ForOfDone(site),
            JavaScriptStackValue::ForOfHeadValue(site) => InternalStackValue::ForOfHeadValue(site),
            JavaScriptStackValue::ForOfReturnValue(site) => InternalStackValue::ForOfReturnValue(site),
            JavaScriptStackValue::CatchException(site) => InternalStackValue::CatchException(site),
        }
    }
}

/// Putting a JavaScript value into a slot and reading it back gives the value.
pub proof fn lemma_javascript_value_round_trip(value: JavaScriptStackValue)
    ensures
        JavaScriptStackValue::spec_from_internal(value.spec_into_internal()) == Some(value),
        value.spec_into_internal().spec_is_javascript_value(),
{
}

/// Exactly the slots with a JavaScript value can be set aside.
pub proof fn lemma_javascript_values_can_be_set_aside(value: InternalStackValue)
    ensures
        JavaScriptStackValue::spec_from_internal(value).is_some()
            <==> value.spec_is_javascript_value(),
{
}

impl InternalStackValue {
    /// The slot holds a value that JavaScript code may see.
    pub open spec fn spec_is_javascript_value(self) -> bool {
        match self {
            InternalStackValue::ForInIterator(_)
            | InternalStackValue::DerivedActiveConstructor(_)
            | InternalStackValue::DerivedSuperConstructor(_)
            | InternalStackValue::DerivedSuperNewTarget(_)
            | InternalStackValue::DerivedSuperCompletion(_)
            | InternalStackValue::ForOfIterator(_)
            | InternalStackValue::ForOfNextMethod(_)
            | InternalStackValue::ForOfCatch(_)
            | InternalStackValue::ForOfDisabledCatch(_)
            | InternalStackValue::ForOfExhaustedIterator(_)
            | InternalStackValue::ForOfExhaustedNextMethod(_)
            | InternalStackValue::ForOfExhaustedCatch(_)
            | InternalStackValue::ForOfClosableIterator(_)
            | InternalStackValue::ForOfClosableNextMethod(_)
            | InternalStackValue::ForOfClosableCatch(_)
            | InternalStackValue::ForOfCloseIterator(_)
            | InternalStackValue::ForOfCloseNextMethod(_)
            | InternalStackValue::ForOfCloseDummy(_)
            | InternalStackValue::YieldStarIterator(_)
            | InternalStackValue::YieldStarNextMethod(_)
            | InternalStackValue::YieldStarDummy(_)
            | InternalStackValue::CatchMarker { .. }
            | InternalStackValue::FinallyPending { .. }
            | InternalStackValue::FinallyReturn { .. } => false,
            _ => true,
        }
    }

    /// Returns whether: the slot holds a value that JavaScript code may see.
    #[verifier::when_used_as_spec(spec_is_javascript_value)]
    pub fn is_javascript_value(self) -> (value: bool)
        ensures
            value == self.spec_is_javascript_value(),
    {
        match self {
            InternalStackValue::ForInIterator(_)
            | InternalStackValue::DerivedActiveConstructor(_)
            | InternalStackValue::DerivedSuperConstructor(_)
            | InternalStackValue::DerivedSuperNewTarget(_)
            | InternalStackValue::DerivedSuperCompletion(_)
            | InternalStackValue::ForOfIterator(_)
            | InternalStackValue::ForOfNextMethod(_)
            | InternalStackValue::ForOfCatch(_)
            | InternalStackValue::ForOfDisabledCatch(_)
            | InternalStackValue::ForOfExhaustedIterator(_)
            | InternalStackValue::ForOfExhaustedNextMethod(_)
            | InternalStackValue::ForOfExhaustedCatch(_)
            | InternalStackValue::ForOfClosableIterator(_)
            | InternalStackValue::ForOfClosableNextMethod(_)
            | InternalStackValue::ForOfClosableCatch(_)
            | InternalStackValue::ForOfCloseIterator(_)
            | InternalStackValue::ForOfCloseNextMethod(_)
            | InternalStackValue::ForOfCloseDummy(_)
            | InternalStackValue::YieldStarIterator(_)
            | InternalStackValue::YieldStarNextMethod(_)
            | InternalStackValue::YieldStarDummy(_)
            | InternalStackValue::CatchMarker { .. }
            | InternalStackValue::FinallyPending { .. }
            | InternalStackValue::FinallyReturn { .. } => false,
            _ => true,
        }
    }

    /// The slot belongs to a catch region.
    pub open spec fn spec_is_catch_value(self) -> bool {
        match self {
            InternalStackValue::CatchMarker { .. }
            | InternalStackValue::CatchException(_) => true,
            _ => false,
        }
    }

    /// Returns whether: the slot belongs to a catch region.
    #[verifier::when_used_as_spec(spec_is_catch_value)]
    pub fn is_catch_value(self) -> (value: bool)
        ensures
            value == self.spec_is_catch_value(),
    {
        match self {
            InternalStackValue::CatchMarker { .. }
            | InternalStackValue::CatchException(_) => true,
            _ => false,
        }
    }

    /// The slot belongs to a finally subroutine.
    pub open spec fn spec_is_finally_value(self) -> bool {
        match self {
            InternalStackValue::FinallyPending { .. }
            | InternalStackValue::FinallyReturn { .. } => true,
            _ => false,
        }
    }

    /// Returns whether: the slot belongs to a finally subroutine.
    #[verifier::when_used_as_spec(spec_is_finally_value)]
    pub fn is_finally_value(self) -> (value: bool)
        ensures
            value == self.spec_is_finally_value(),
    {
        match self {
            InternalStackValue::FinallyPending { .. }
            | InternalStackValue::FinallyReturn { .. } => true,
            _ => false,
        }
    }

    /// The slot belongs to a for-of loop or a delegation.
    pub open spec fn spec_is_for_of_value(self) -> bool {
        match self {
            InternalStackValue::ForOfIterator(_)
            | InternalStackValue::ForOfNextMethod(_)
            | InternalStackValue::ForOfCatch(_)
            | InternalStackValue::ForOfDisabledCatch(_)
            | InternalStackValue::ForOfAwaitResult(_)
            | InternalStackValue::ForOfAwaitedResult(_)
            | InternalStackValue::ForOfExhaustedIterator(_)
            | InternalStackValue::ForOfExhaustedNextMethod(_)
            | InternalStackValue::ForOfExhaustedCatch(_)
            | InternalStackValue::ForOfClosableIterator(_)
            | InternalStackValue::ForOfClosableNextMethod(_)
            | InternalStackValue::ForOfClosableCatch(_)
            | InternalStackValue::ForOfValue(_)
            | InternalStackValue::ForOfDone(_)
            | InternalStackValue::ForOfHeadValue(_)
            | InternalStackValue::ForOfReturnValue(_)
            | InternalStackValue::ForOfCloseIterator(_)
            | InternalStackValue::ForOfCloseNextMethod(_)
            | InternalStackValue::ForOfCloseDummy(_)
            | InternalStackValue::YieldStarIterator(_)
            | InternalStackValue::YieldStarNextMethod(_)
            | InternalStackValue::YieldStarDummy(_)
            | InternalStackValue::YieldStarIteratorResult(_)
            | InternalStackValue::YieldStarDone(_)
            | InternalStackValue::YieldStarYieldResult(_)
            | InternalStackValue::YieldStarYieldValue(_)
            | InternalStackValue::YieldStarFinalResult(_)
            | InternalStackValue::YieldStarResumeValue(_)
            | InternalStackValue::YieldStarResumeMode(_)
            | InternalStackValue::YieldStarResumeModeTest(_)
            | InternalStackValue::YieldStarIsThrow(_)
            | InternalStackValue::YieldStarCallValue(_, _)
            | InternalStackValue::YieldStarMethodMissing(_, _) => true,
            _ => false,
        }
    }

    /// Returns whether: the slot belongs to a for-of loop or a delegation.
    #[verifier::when_used_as_spec(spec_is_for_of_value)]
    pub fn is_for_of_value(self) -> (value: bool)
        ensures
            value == self.spec_is_for_of_value(),
    {
        match self {
            InternalStackValue::ForOfIterator(_)
            | InternalStackValue::ForOfNextMethod(_)
            | InternalStackValue::ForOfCatch(_)
            | InternalStackValue::ForOfDisabledCatch(_)
            | InternalStackValue::ForOfAwaitResult(_)
            | InternalStackValue::ForOfAwaitedResult(_)
            | InternalStackValue::ForOfExhaustedIterator(_)
            | InternalStackValue::ForOfExhaustedNextMethod(_)
            | InternalStackValue::ForOfExhaustedCatch(_)
            | InternalStackValue::ForOfClosableIterator(_)
            | InternalStackValue::ForOfClosableNextMethod(_)
            | InternalStackValue::ForOfClosableCatch(_)
            | InternalStackValue::ForOfValue(_)
            | InternalStackValue::ForOfDone(_)
            | InternalStackValue::ForOfHeadValue(_)
            | InternalStackValue::ForOfReturnValue(_)
            | InternalStackValue::ForOfCloseIterator(_)
            | InternalStackValue::ForOfCloseNextMethod(_)
            | InternalStackValue::ForOfCloseDummy(_)
            | InternalStackValue::YieldStarIterator(_)
            | InternalStackValue::YieldStarNextMethod(_)
            | InternalStackValue::YieldStarDummy(_)
            | InternalStackValue::YieldStarIteratorResult(_)
            | InternalStackValue::YieldStarDone(_)
            | InternalStackValue::YieldStarYieldResult(_)
            | InternalStackValue::YieldStarYieldValue(_)
            | InternalStackValue::YieldStarFinalResult(_)
            | InternalStackValue::YieldStarResumeValue(_)
            | InternalStackValue::YieldStarResumeMode(_)
            | InternalStackValue::YieldStarResumeModeTest(_)
            | InternalStackValue::YieldStarIsThrow(_)
            | InternalStackValue::YieldStarCallValue(_, _)
            | InternalStackValue::YieldStarMethodMissing(_, _) => true,
            _ => false,
        }
    }

    /// The slot belongs to a record being closed.
    pub open spec fn spec_is_close_value(self) -> bool {
        match self {
            InternalStackValue::ForOfCloseIterator(_)
            | InternalStackValue::ForOfCloseNextMethod(_)
            | InternalStackValue::ForOfCloseDummy(_) => true,
            _ => false,
        }
    }

    /// Returns whether: the slot belongs to a record being closed.
    #[verifier::when_used_as_spec(spec_is_close_value)]
    pub fn is_close_value(self) -> (value: bool)
        ensures
            value == self.spec_is_close_value(),
    {
        match self {
            InternalStackValue::ForOfCloseIterator(_)
            | InternalStackValue::ForOfCloseNextMethod(_)
            | InternalStackValue::ForOfCloseDummy(_) => true,
            _ => false,
        }
    }

    /// The slot remembers the step or handler that produced its value.
    pub open spec fn spec_has_iteration_provenance(self) -> bool {
        match self {
            InternalStackValue::ForInKey(_)
            | InternalStackValue::ForInDone(_)
            | InternalStackValue::ForInHeadKey(_)
            | InternalStackValue::ForOfValue(_)
            | InternalStackValue::ForOfDone(_)
            | InternalStackValue::ForOfHeadValue(_)
            | InternalStackValue::ForOfReturnValue(_)
            | InternalStackValue::CatchException(_) => true,
            _ => false,
        }
    }

    /// Returns whether: the slot remembers the step or handler that produced its value.
    #[verifier::when_used_as_spec(spec_has_iteration_provenance)]
    pub fn has_iteration_provenance(self) -> (value: bool)
        ensures
            value == self.spec_has_iteration_provenance(),
    {
        match self {
            InternalStackValue::ForInKey(_)
            | InternalStackValue::ForInDone(_)
            | InternalStackValue::ForInHeadKey(_)
            | InternalStackValue::ForOfValue(_)
            | InternalStackValue::ForOfDone(_)
            | InternalStackValue::ForOfHeadValue(_)
            | InternalStackValue::ForOfReturnValue(_)
            | InternalStackValue::CatchException(_) => true,
            _ => false,
        }
    }
}

/// A class of slots that the analysis looks for.
#[derive(Clone, Copy, Debug, PartialEq, Eq, Hash, Structural)]
pub enum SlotClass {
    /// No JavaScript value.
    NotJavaScript,
    /// Anything but a value of unknown origin.
    NotOrdinary,
    /// Belongs to a catch region.
    Catch,
    /// Marks a catch region.
    CatchMarker,
    /// Marks a handler that an inner throw reaches: a catch region or an active
    /// for-of record.
    InnerHandler,
    /// Belongs to a finally subroutine.
    Finally,
    /// Belongs to a for-of loop or a delegation.
    ForOf,
    /// Belongs to a record being closed.
    Close,
    /// A for-in enumeration.
    ForInIterator,
}

/// Whether a slot is of a class.
pub open spec fn in_class(value: InternalStackValue, class: SlotClass) -> bool {
    match class {
        SlotClass::NotJavaScript => !value.spec_is_javascript_value(),
        SlotClass::NotOrdinary => value != InternalStackValue::Ordinary,
        SlotClass::Catch => value.spec_is_catch_value(),
        SlotClass::CatchMarker => value is CatchMarker,
        SlotClass::InnerHandler => value is CatchMarker || value is ForOfCatch,
        SlotClass::Finally => value.spec_is_finally_value(),
        SlotClass::ForOf => value.spec_is_for_of_value(),
        SlotClass::Close => value.spec_is_close_value(),
        SlotClass::ForInIterator => value is ForInIterator,
    }
}

fn slot_in_class(value: InternalStackValue, class: SlotClass) -> (member: bool)
    ensures
        member == in_class(value, class),
{
    match class {
        SlotClass::NotJavaScript => !value.is_javascript_value(),
        SlotClass::NotOrdinary => !matches!(value, InternalStackValue::Ordinary),
        SlotClass::Catch => value.is_catch_value(),
        SlotClass::CatchMarker => matches!(value, InternalStackValue::CatchMarker { .. }),
        SlotClass::InnerHandler => matches!(
            value,
            InternalStackValue::CatchMarker { .. } | InternalStackValue::ForOfCatch(_)
        ),
        SlotClass::Finally => value.is_finally_value(),
        SlotClass::ForOf => value.is_for_of_value(),
        SlotClass::Close => value.is_close_value(),
        SlotClass::ForInIterator => matches!(value, InternalStackValue::ForInIterator(_)),
    }
}

/// Whether a slot at or above `from` is of a class.
pub open spec fn holds_class(state: Seq<InternalStackValue>, from: int, class: SlotClass) -> bool {
    exists|i: int| from <= i < state.len() && in_class(#[trigger] state[i], class)
}

/// Returns whether a slot at or above `from` and below `end` is of a class.
pub(crate) fn any_slot(state: &[InternalStackValue], from: usize, end: usize, class: SlotClass) -> (
found: bool)
    requires
        end <= state@.len(),
    ensures
        found == holds_class(state@.take(end as int), from as int, class),
{
    let mut i: usize = from;
    let ghost prefix = state@.take(end as int);
    while i < end
        invariant
            from <= i,
            end <= state@.len(),
            prefix == state@.take(end as int),
            forall|j: int| from <= j < i && j < end ==> !in_class(#[trigger] prefix[j], class),
        decreases end - i,
    {
        if slot_in_class(state[i], class) {
            assert(in_class(prefix[i as int], class));
            return true;
        }
        i = i + 1;
    }
    false
}

/// Returns whether any slot is of a class.
pub(crate) fn any_slot_of(state: &[InternalStackValue], class: SlotClass) -> (found: bool)
    ensures
        found == holds_class(state@, 0, class),
{
    assert(state@.take(state@.len() as int) =~= state@);
    any_slot(state, 0, state.len(), class)
}

/// The slot without memory of the step or handler that produced its value.
pub open spec fn forgotten(value: InternalStackValue) -> InternalStackValue {
    if value.spec_has_iteration_provenance() {
        InternalStackValue::Ordinary
    } else {
        value
    }
}

/// The stack with the slots below `count` forgotten.
pub open spec fn forget_below(state: Seq<InternalStackValue>, count: int) -> Seq<
    InternalStackValue,
> {
    Seq::new(state.len(), |i: int| if i < count { forgotten(state[i]) } else { state[i] })
}

/// The stack with every slot forgotten.
pub open spec fn forget(state: Seq<InternalStackValue>) -> Seq<InternalStackValue> {
    state.map_values(|value: InternalStackValue| forgotten(value))
}

/// Forgets the slots below `count`.
pub(crate) fn invalidate_internal_value_provenance(
    state: &mut Vec<InternalStackValue>,
    count: usize,
)
    requires
        count <= old(state)@.len(),
    ensures
        final(state)@ == forget_below(old(state)@, count as int),
        count == old(state)@.len() ==> final(state)@ == forget(old(state)@),
{
    let ghost before = state@;
    let mut i: usize = 0;
    while i < count
        invariant
            i <= count,
            count <= before.len(),
            state@ == forget_below(before, i as int),
        decreases count - i,
    {
        let value = state[i];
        if value.has_iteration_provenance() {
            state.set(i, InternalStackValue::Ordinary);
        }
        i = i + 1;
        assert(state@ =~= forget_below(before, i as int));
    }
    proof {
        if count == before.len() {
            assert(state@ =~= forget(before));
        }
        assert(state@ =~= forget_below(before, count as int));
    }
}

/// What a three-slot record is.
#[derive(Clone, Copy, Debug, PartialEq, Eq, Hash, Structural)]
pub enum RecordKind {
    /// An active for-of record.
    Active,
    /// An exhausted for-of record.
    Exhausted,
    /// A for-of record that may be exhausted.
    Closable,
    /// A for-of record being closed.
    Close,
    /// A delegation.
    YieldStar,
}

/// Site of the record of this kind that the three slots form.
pub open spec fn record_site(
    kind: RecordKind,
    first: InternalStackValue,
    second: InternalStackValue,
    third: InternalStackValue,
) -> Option<BytecodePc> {
    match kind {
        RecordKind::Active => match (first, second, third) {
            (
                InternalStackValue::ForOfIterator(iterator),
                InternalStackValue::ForOfNextMethod(next),
                InternalStackValue::ForOfCatch(last),
            ) => if iterator == next && next == last {
                Some(iterator)
            } else {
                None
            },
            _ => None,
        },
        RecordKind::Exhausted => match (first, second, third) {
            (
                InternalStackValue::ForOfExhaustedIterator(iterator),
                InternalStackValue::ForOfExhaustedNextMethod(next),
                InternalStackValue::ForOfExhaustedCatch(last),
            ) => if iterator == next && next == last {
                Some(iterator)
            } else {
                None
            },
            _ => None,
        },
        RecordKind::Closable => match (first, second, third) {
            (
                InternalStackValue::ForOfClosableIterator(iterator),
                InternalStackValue::ForOfClosableNextMethod(next),
                InternalStackValue::ForOfClosableCatch(last),
            ) => if iterator == next && next == last {
                Some(iterator)
            } else {
                None
            },
            _ => None,
        },
        RecordKind::Close => match (first, second, third) {
            (
                InternalStackValue::ForOfCloseIterator(iterator),
                InternalStackValue::ForOfCloseNextMethod(next),
                InternalStackValue::ForOfCloseDummy(last),
            ) => if iterator == next && next == last {
                Some(iterator)
            } else {
                None
            },
            _ => None,
        },
        RecordKind::YieldStar => match (first, second, third) {
            (
                InternalStackValue::YieldStarIterator(iterator),
                InternalStackValue::YieldStarNextMethod(next),
                InternalStackValue::YieldStarDummy(last),
            ) => if iterator == next && next == last {
                Some(iterator)
            } else {
                None
            },
            _ => None,
        },
    }
}

/// Site of the record of this kind at `base`.
pub open spec fn record_at(
    kind: RecordKind,
    state: Seq<InternalStackValue>,
    base: int,
) -> Option<BytecodePc> {
    if 0 <= base && base + 3 <= state.len() {
        record_site(kind, state[base], state[base + 1], state[base + 2])
    } else {
        None
    }
}

/// Returns the site of the record of this kind at `base`.
pub(crate) fn find_record(kind: RecordKind, state: &[InternalStackValue], base: usize) -> (site:
    Option<BytecodePc>)
    ensures
        site == record_at(kind, state@, base as int),
{
    if state.len() < 3 || base > state.len() - 3 {
        return None;
    }
    let (first, second, third) = (state[base], state[base + 1], state[base + 2]);
    match kind {
        RecordKind::Active => match (first, second, third) {
            (
                InternalStackValue::ForOfIterator(iterator),
                InternalStackValue::ForOfNextMethod(next),
                InternalStackValue::ForOfCatch(last),
            ) => if iterator == next && next == last {
                Some(iterator)
            } else {
                None
            },
            _ => None,
        },
        RecordKind::Exhausted => match (first, second, third) {
            (
                InternalStackValue::ForOfExhaustedIterator(iterator),
                InternalStackValue::ForOfExhaustedNextMethod(next),
                InternalStackValue::ForOfExhaustedCatch(last),
            ) => if iterator == next && next == last {
                Some(iterator)
            } else {
                None
            },
            _ => None,
        },
        RecordKind::Closable => match (first, second, third) {
            (
                InternalStackValue::ForOfClosableIterator(iterator),
                InternalStackValue::ForOfClosableNextMethod(next),
                InternalStackValue::ForOfClosableCatch(last),
            ) => if iterator == next && next == last {
                Some(iterator)
            } else {
                None
            },
            _ => None,
        },
        RecordKind::Close => match (first, second, third) {
            (
                InternalStackValue::ForOfCloseIterator(iterator),
                InternalStackValue::ForOfCloseNextMethod(next),
                InternalStackValue::ForOfCloseDummy(last),
            ) => if iterator == next && next == last {
                Some(iterator)
            } else {
                None
            },
            _ => None,
        },
        RecordKind::YieldStar => match (first, second, third) {
            (
                InternalStackValue::YieldStarIterator(iterator),
                InternalStackValue::YieldStarNextMethod(next),
                InternalStackValue::YieldStarDummy(last),
            ) => if iterator == next && next == last {
                Some(iterator)
            } else {
                None
            },
            _ => None,
        },
    }
}

/// A local written by the head of an iteration.
#[derive(Clone, Copy, Debug, PartialEq, Eq, Hash, Structural)]
pub struct CertifiedIterationLocalPut {
    /// The written local.
    pub local: u32,
    /// The instruction that started the iteration.
    pub cursor_site: BytecodePc,
}

/// A local written by a catch clause.
#[derive(Clone, Copy, Debug, PartialEq, Eq, Hash, Structural)]
pub struct CertifiedCatchLocalPut {
    /// The written local.
    pub local: u32,
}

/// How `nip_catch` rearranges the stack.
#[derive(Clone, Copy, Debug, PartialEq, Eq, Hash, Structural)]
pub struct CertifiedNipCatchTransform {
    /// Depth before the instruction.
    pub input_depth: u32,
    /// Slots that stay below the result.
    pub retained_prefix: u32,
}

/// What the typed operand-stack analysis proves of each instruction.
#[derive(Debug, PartialEq, Eq)]
pub struct InternalStackCertificate {
    pub(crate) iteration_local_puts: Vec<Option<CertifiedIterationLocalPut>>,
    pub(crate) catch_local_puts: Vec<Option<CertifiedCatchLocalPut>>,
    pub(crate) nip_catch_transforms: Vec<Option<CertifiedNipCatchTransform>>,
    pub(crate) finally_continuations: Vec<Vec<InstructionIndex>>,
    pub(crate) ret_finalizers: Vec<Option<InstructionIndex>>,
}

/// The entry at `index`, none past the end.
pub open spec fn entry_at<T>(entries: Seq<Option<T>>, index: int) -> Option<T> {
    if 0 <= index < entries.len() {
        entries[index]
    } else {
        None
    }
}

/// One edge of the effective control flow.
#[derive(Clone, Copy, Debug, PartialEq, Eq, Hash, Structural)]
pub struct EffectiveEdge {
    /// Instruction that the edge reaches.
    pub target: InstructionIndex,
    /// Whether the edge is the taken edge of a branch.
    pub is_branch_target: bool,
    /// Whether the edge enters a finally subroutine.
    pub enters_finally: bool,
}

/// An ordinary edge.
pub open spec fn plain_edge(target: InstructionIndex) -> EffectiveEdge {
    EffectiveEdge { target, is_branch_target: false, enters_finally: false }
}

/// The edge over an optional successor.
pub open spec fn optional_edge(
    target: Option<InstructionIndex>,
    is_branch_target: bool,
    enters_finally: bool,
) -> Seq<EffectiveEdge> {
    match target {
        Some(target) => seq![EffectiveEdge { target, is_branch_target, enters_finally }],
        None => Seq::empty(),
    }
}

/// The sequences behind vectors.
pub open spec fn lists_of<T>(lists: Seq<Vec<T>>) -> Seq<Seq<T>> {
    lists.map_values(|list: Vec<T>| list@)
}

/// Continuations of the finally subroutine that a `ret` belongs to.
pub open spec fn continuations_of(
    finally_continuations: Seq<Seq<InstructionIndex>>,
    ret_finalizer: Option<InstructionIndex>,
) -> Seq<InstructionIndex> {
    match ret_finalizer {
        Some(target) => if target.spec_get() < finally_continuations.len() {
            finally_continuations[target.spec_get() as int]
        } else {
            Seq::empty()
        },
        None => Seq::empty(),
    }
}

/// Edges of the effective control flow: a `gosub` only enters its subroutine,
/// a `ret` continues after each `gosub` of its subroutine, and every other
/// instruction has its structural successors.
pub open spec fn effective_edges(
    instructions: Seq<VerifiedInstruction>,
    instruction: int,
    finally_continuations: Seq<Seq<InstructionIndex>>,
    ret_finalizer: Option<InstructionIndex>,
) -> Seq<EffectiveEdge> {
    if !(0 <= instruction < instructions.len()) {
        Seq::empty()
    } else {
        let verified = instructions[instruction];
        let successors = verified.spec_successors();
        match verified.spec_decoded().instruction.opcode {
            FinalOpcode::Gosub => optional_edge(successors.spec_branch_target(), false, true),
            FinalOpcode::Ret => continuations_of(
                finally_continuations,
                ret_finalizer,
            ).map_values(|target: InstructionIndex| plain_edge(target)),
            _ => optional_edge(successors.spec_fallthrough(), false, false) + optional_edge(
                successors.spec_branch_target(),
                true,
                false,
            ) + optional_edge(successors.spec_jump_target(), false, false),
        }
    }
}

/// Returns the edges of the effective control flow out of one instruction.
pub(crate) fn effective_successors(
    instructions: &[VerifiedInstruction],
    instruction: usize,
    finally_continuations: &[Vec<InstructionIndex>],
    ret_finalizer: Option<InstructionIndex>,
) -> (edges: Vec<EffectiveEdge>)
    ensures
        edges@ == effective_edges(
            instructions@,
            instruction as int,
            lists_of(finally_continuations@),
            ret_finalizer,
        ),
{
    let mut edges: Vec<EffectiveEdge> = Vec::new();
    let ghost expected = effective_edges(
        instructions@,
        instruction as int,
        lists_of(finally_continuations@),
        ret_finalizer,
    );
    if instruction >= instructions.len() {
        assert(edges@ =~= expected);
        return edges;
    }
    let verified = instructions[instruction];
    let successors = verified.successors();
    match verified.decoded().instruction.opcode {
        FinalOpcode::Gosub => {
            if let Some(target) = successors.branch_target() {
                edges.push(EffectiveEdge { target, is_branch_target: false, enters_finally: true });
            }
        },
        FinalOpcode::Ret => {
            if let Some(target) = ret_finalizer {
                let position: usize = target.get() as usize;
                if position < finally_continuations.len() {
                    let continuations = &finally_continuations[position];
                    let mut i: usize = 0;
                    while i < continuations.len()
                        invariant
                            i <= continuations@.len(),
                            edges@ == continuations@.take(i as int).map_values(
                                |target: InstructionIndex| plain_edge(target),
                            ),
                        decreases continuations@.len() - i,
                    {
                        edges.push(
                            EffectiveEdge {
                                target: continuations[i],
                                is_branch_target: false,
                                enters_finally: false,
                            },
                        );
                        i = i + 1;
                        assert(edges@ =~= continuations@.take(i as int).map_values(
                            |target: InstructionIndex| plain_edge(target),
                        ));
                    }
                    assert(continuations@.take(i as int) =~= continuations@);
                }
            }
        },
        _ => {
            if let Some(target) = successors.fallthrough() {
                edges.push(
                    EffectiveEdge { target, is_branch_target: false, enters_finally: false },
                );
            }
            if let Some(target) = successors.branch_target() {
                edges.push(EffectiveEdge { target, is_branch_target: true, enters_finally: false });
            }
            if let Some(target) = successors.jump_target() {
                edges.push(
                    EffectiveEdge { target, is_branch_target: false, enters_finally: false },
                );
            }
        },
    }
    assert(edges@ =~= expected);
    edges
}

impl InternalStackCertificate {
    /// A certificate that says nothing.
    pub(crate) fn empty() -> (certificate: Self)
        ensures
            certificate.iteration_local_puts@.len() == 0,
            certificate.catch_local_puts@.len() == 0,
            certificate.nip_catch_transforms@.len() == 0,
            certificate.finally_continuations@.len() == 0,
            certificate.ret_finalizers@.len() == 0,
    {
        InternalStackCertificate {
            iteration_local_puts: Vec::new(),
            catch_local_puts: Vec::new(),
            nip_catch_transforms: Vec::new(),
            finally_continuations: Vec::new(),
            ret_finalizers: Vec::new(),
        }
    }

    /// Whether the instruction writes `local` from the head of an iteration.
    pub open(crate) spec fn spec_certifies_iteration_local_put(
        &self,
        instruction: int,
        local: u32,
    ) -> bool {
        match entry_at(self.iteration_local_puts@, instruction) {
            Some(put) => put.local == local,
            None => false,
        }
    }

    /// Returns whether the instruction writes `local` from the head of an
    /// iteration.
    pub fn certifies_iteration_local_put(&self, instruction: usize, local: u32) -> (certified: bool)
        ensures
            certified == self.spec_certifies_iteration_local_put(instruction as int, local),
    {
        if instruction < self.iteration_local_puts.len() {
            match self.iteration_local_puts[instruction] {
                Some(put) => put.local == local,
                None => false,
            }
        } else {
            false
        }
    }

    /// Whether the instruction writes `local` from a catch clause.
    pub open(crate) spec fn spec_certifies_catch_local_put(
        &self,
        instruction: int,
        local: u32,
    ) -> bool {
        match entry_at(self.catch_local_puts@, instruction) {
            Some(put) => put.local == local,
            None => false,
        }
    }

    /// Returns whether the instruction writes `local` from a catch clause.
    pub fn certifies_catch_local_put(&self, instruction: usize, local: u32) -> (certified: bool)
        ensures
            certified == self.spec_certifies_catch_local_put(instruction as int, local),
    {
        if instruction < self.catch_local_puts.len() {
            match self.catch_local_puts[instruction] {
                Some(put) => put.local == local,
                None => false,
            }
        } else {
            false
        }
    }

    /// How the instruction, a `nip_catch`, rearranges the stack.
    pub open(crate) spec fn spec_nip_catch_transform(&self, instruction: int) -> Option<
        CertifiedNipCatchTransform,
    > {
        entry_at(self.nip_catch_transforms@, instruction)
    }

    /// Returns how the instruction, a `nip_catch`, rearranges the stack.
    pub fn nip_catch_transform(&self, instruction: usize) -> (transform: Option<
        CertifiedNipCatchTransform,
    >)
        ensures
            transform == self.spec_nip_catch_transform(instruction as int),
    {
        if instruction < self.nip_catch_transforms.len() {
            self.nip_catch_transforms[instruction]
        } else {
            None
        }
    }

    /// Edges of the effective control flow out of one instruction.
    pub open(crate) spec fn spec_effective_successors(
        &self,
        instructions: Seq<VerifiedInstruction>,
        instruction: int,
    ) -> Seq<EffectiveEdge> {
        effective_edges(
            instructions,
            instruction,
            lists_of(self.finally_continuations@),
            entry_at(self.ret_finalizers@, instruction),
        )
    }

    /// Returns the edges of the effective control flow out of one instruction.
    pub fn effective_successors(
        &self,
        instructions: &[VerifiedInstruction],
        instruction: usize,
    ) -> (edges: Vec<EffectiveEdge>)
        ensures
            edges@ == self.spec_effective_successors(instructions@, instruction as int),
    {
        let ret_finalizer = if instruction < self.ret_finalizers.len() {
            self.ret_finalizers[instruction]
        } else {
            None
        };
        effective_successors(
            instructions,
            instruction,
            &self.finally_continuations,
            ret_finalizer,
        )
    }

    /// Whether an effective edge leads from an instruction to `target`.
    pub open(crate) spec fn spec_has_effective_successor(
        &self,
        instructions: Seq<VerifiedInstruction>,
        instruction: int,
        target: u32,
    ) -> bool {
        exists|i: int|
            0 <= i < self.spec_effective_successors(instructions, instruction).len() && (
            #[trigger] self.spec_effective_successors(
                instructions,
                instruction,
            )[i]).target.spec_get() == target
    }

    /// Returns whether an effective edge leads from an instruction to
    /// `target`.
    pub fn has_effective_successor(
        &self,
        instructions: &[VerifiedInstruction],
        instruction: usize,
        target: u32,
    ) -> (found: bool)
        ensures
            found == self.spec_has_effective_successor(
                instructions@,
                instruction as int,
                target,
            ),
    {
        let edges = self.effective_successors(instructions, instruction);
        let ghost expected = self.spec_effective_successors(instructions@, instruction as int);
        let mut i: usize = 0;
        while i < edges.len()
            invariant
                i <= edges@.len(),
                edges@ == expected,
                expected == self.spec_effective_successors(instructions@, instruction as int),
                forall|j: int| 0 <= j < i ==> (#[trigger] expected[j]).target.spec_get() != target,
            decreases edges@.len() - i,
        {
            if edges[i].target.get() == target {
                assert(expected[i as int].target.spec_get() == target);
                return true;
            }
            i = i + 1;
        }
        false
    }

    /// Whether the instruction starts a finally subroutine.
    pub open(crate) spec fn spec_is_finally_target(&self, instruction: int) -> bool {
        0 <= instruction < self.finally_continuations@.len()
            && self.finally_continuations@[instruction]@.len() > 0
    }

    /// Returns whether the instruction starts a finally subroutine.
    pub fn is_finally_target(&self, instruction: usize) -> (starts: bool)
        ensures
            starts == self.spec_is_finally_target(instruction as int),
    {
        instruction < self.finally_continuations.len()
            && self.finally_continuations[instruction].len() > 0
    }
}

/// What one instruction does beside changing the stack.
#[derive(Clone, Copy, Debug, PartialEq, Eq, Hash, Structural)]
pub struct InternalStackTransfer {
    /// Whether control goes on after the instruction.
    pub normal_completion: bool,
    /// The step whose flag a branch tests.
    pub iteration_branch_value: Option<IterationBranchValue>,
    /// The finally subroutine that a `ret` leaves.
    pub ret_finalizer: Option<InstructionIndex>,
}

/// The step whose flag a branch tests.
#[allow(inconsistent_fields)]
#[derive(Clone, Copy, Debug, PartialEq, Eq, Hash, Structural)]
pub enum IterationBranchValue {
    /// A for-in step.
    ForIn(BytecodePc),
    /// A for-of step with `extras` values between record and value.
    ForOf { site: BytecodePc, extras: usize },
    /// A step of a delegation.
    YieldStarDone { site: BytecodePc, branch_when_true: bool },
    /// A method call of a delegation.
    YieldStarMethod { site: BytecodePc, kind: YieldStarCallKind },
}

} // verus!
