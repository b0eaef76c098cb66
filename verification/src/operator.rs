//! The generic contract a stateful pipeline stage plugs into.
//!
//! An operator owns its state, transforms one element at a time, may react to
//! timers, and persists its state when the checkpoint protocol asks it to.
//! The task's UDF execution is the byte-level specialization of this
//! contract; concrete stages such as [`crate::map::MapOperator`] are its typed
//! instances.

use crate::error::PersistError;
use crate::udf::UdfError;
use vstd::prelude::*;

verus! {

/// A typed element flowing between pipeline stages: a payload and the event
/// timestamp it carries, if any.
#[derive(Clone, Copy, Debug, PartialEq, Eq)]
pub struct StreamElement<T> {
    pub data: T,
    pub timestamp: Option<u64>,
}

/// Collects what a stage emits while one input is handled; the host drains
/// `outputs` downstream afterwards, in emission order.
#[derive(Debug)]
pub struct OperatorContext<T> {
    pub outputs: Vec<StreamElement<T>>,
}

impl<T> OperatorContext<T> {
    /// A context with nothing emitted yet.
    pub fn new() -> (c: Self)
        ensures
            c.outputs@ == Seq::<StreamElement<T>>::empty(),
    {
        OperatorContext { outputs: Vec::new() }
    }

    /// Emit one element downstream.
    pub fn output(&mut self, element: StreamElement<T>)
        ensures
            final(self).outputs@ == old(self).outputs@.push(element),
    {
        self.outputs.push(element);
    }
}

/// Never occurs: the uninhabited timer-state type for operators with no timer
/// logic. A stage declaring it gets a compile-time guarantee that its timeout
/// handler can never be invoked, rather than a runtime no-op.
pub type Never = core::convert::Infallible;

/// Operator-owned state that can persist itself when a checkpoint asks.
/// Persisting never changes the logical value, so it is safe — an idempotent
/// no-op — to call again with nothing changed in between.
pub trait OperatorState: Sized {
    /// Which results a persist call may produce from this state; each
    /// implementor fixes this relation.
    spec fn persist_rel(&self, r: Result<(), PersistError>) -> bool;

    /// Flush this state to durable storage.
    fn persist(&mut self) -> (r: Result<(), PersistError>)
        ensures
            *final(self) == *old(self),
            old(self).persist_rel(r),
    ;
}

/// The stateless case: nothing to persist, and persisting always succeeds.
impl OperatorState for () {
    open spec fn persist_rel(&self, r: Result<(), PersistError>) -> bool {
        r is Ok
    }

    fn persist(&mut self) -> (r: Result<(), PersistError>) {
        Ok(())
    }
}

/// A running total, as a minimal example of numeric operator-owned state.
impl OperatorState for u64 {
    open spec fn persist_rel(&self, r: Result<(), PersistError>) -> bool {
        r is Ok
    }

    fn persist(&mut self) -> (r: Result<(), PersistError>) {
        Ok(())
    }
}

/// A stateful per-element pipeline stage, generic over its input, output,
/// timer-state and state types.
pub trait Operator: Sized {
    type In;

    type Out;

    type TimerState;

    type OperatorState: OperatorState;

    /// The stage's well-formedness; constructors establish it and handlers
    /// preserve it.
    spec fn inv(&self) -> bool;

    /// Which `(stage after the call, transformation result)` pairs handling
    /// `input` may produce; each stage fixes this relation.
    spec fn elem_rel(&self, input: Self::In, post: Self, r: Result<Self::Out, UdfError>) -> bool;

    /// Apply the stage's transformation to one element. On success exactly
    /// one output element is emitted, preserving the input's timestamp; on
    /// failure nothing is emitted and the error goes to the caller, who
    /// decides the retry or drop policy — the stage never drops silently.
    fn handle_element(
        &mut self,
        element: StreamElement<Self::In>,
        ctx: &mut OperatorContext<Self::Out>,
    ) -> (r: Result<(), UdfError>)
        requires
            old(self).inv(),
        ensures
            final(self).inv(),
            (r matches Err(err) ==> final(ctx).outputs@ == old(ctx).outputs@
                && old(self).elem_rel(element.data, *final(self), Err(err))),
            (r is Ok ==> exists|o: Self::Out|
                #[trigger] old(self).elem_rel(element.data, *final(self), Ok(o))
                    && final(ctx).outputs@ == old(ctx).outputs@.push(
                    StreamElement { data: o, timestamp: element.timestamp },
                )),
    ;

    /// React to a timer the stage scheduled earlier. A stage whose
    /// `TimerState` is uninhabited can never be called here.
    fn handle_timeout(&mut self, state: Self::TimerState)
        requires
            old(self).inv(),
        ensures
            final(self).inv(),
    ;

    /// Invoked by the checkpoint protocol: delegate to the owned state's own
    /// persistence. Never changes the stage, so calling it again with no
    /// intervening element is a safe no-op.
    fn persist(&mut self) -> (r: Result<(), PersistError>)
        requires
            old(self).inv(),
        ensures
            *final(self) == *old(self),
            old(self).state_of().persist_rel(r),
    ;

    /// The operator-owned state, as a value.
    spec fn state_of(&self) -> Self::OperatorState;

    /// This stage with its owned state replaced.
    spec fn with_state(&self, s: Self::OperatorState) -> Self;

    /// Mutable access to the operator-owned state.
    fn state(&mut self) -> (s: &mut Self::OperatorState)
        requires
            old(self).inv(),
        ensures
            *s == old(self).state_of(),
            *final(self) == old(self).with_state(*final(s)),
    ;
}

} // verus!
