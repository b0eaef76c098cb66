//! `MapOperator`: the reference pipeline stage — one output element per input
//! element, produced by a user-supplied function over caller-provided state.

use crate::error::PersistError;
use crate::operator::{Never, Operator, OperatorContext, OperatorState, StreamElement};
use crate::udf::UdfError;
use core::marker::PhantomData;
use vstd::prelude::*;

verus! {

/// The per-element function a `MapOperator` applies: it reads the input, may read and
/// update the operator-owned state, and yields the output or fails. Each
/// implementor publishes which `(state, result)` transitions a call may make.
pub trait MapFn<In, Out, S>: Sized {
    /// Which `(state before, state after, result)` triples applying to
    /// `input` may produce.
    spec fn rel(&self, input: In, s0: S, s1: S, r: Result<Out, UdfError>) -> bool;

    /// Apply the function to one input.
    fn apply(&self, input: In, state: &mut S) -> (r: Result<Out, UdfError>)
        ensures
            self.rel(input, *old(state), *final(state), r),
    ;
}

/// A plain, pure, infallible transformation; the stateless `MapOperator` wraps one.
pub trait TransformFn<In, Out>: Sized {
    /// The function the transformation computes.
    spec fn spec_apply(&self, input: In) -> Out;

    /// Compute it.
    fn apply(&self, input: In) -> (r: Out)
        ensures
            r == self.spec_apply(input),
    ;
}

/// Adapter: a pure transformation used as a `MapFn` over the unit state.
pub struct Stateless<F> {
    pub f: F,
}

impl<In, Out, F: TransformFn<In, Out>> MapFn<In, Out, ()> for Stateless<F> {
    open spec fn rel(&self, input: In, s0: (), s1: (), r: Result<Out, UdfError>) -> bool {
        r == Result::<Out, UdfError>::Ok(self.f.spec_apply(input))
    }

    fn apply(&self, input: In, state: &mut ()) -> (r: Result<Out, UdfError>) {
        Ok(self.f.apply(input))
    }
}

/// A pipeline stage applying a per-element function, with exclusive ownership
/// of the state that function works over.
pub struct MapOperator<In, Out, F: MapFn<In, Out, S>, S: OperatorState> {
    pub state: S,
    pub udf: F,
    pub marker: PhantomData<(In, Out)>,
}

impl<In, Out, F: TransformFn<In, Out>> MapOperator<In, Out, Stateless<F>, ()> {
    /// A stateless stage from a plain transformation: the caller manages no
    /// state, a synthesized unit-state wrapper does.
    pub fn new(udf: F) -> (m: Self)
        ensures
            m.inv(),
            m.udf.f == udf,
    {
        MapOperator { state: (), udf: Stateless { f: udf }, marker: PhantomData }
    }
}

impl<In, Out, F: MapFn<In, Out, S>, S: OperatorState> MapOperator<In, Out, F, S> {
    /// A stateful stage from caller-owned state plus the per-element
    /// function; the stage exclusively owns that state for its lifetime.
    pub fn stateful(state: S, udf: F) -> (m: Self)
        ensures
            m.inv(),
            m.state == state,
            m.udf == udf,
    {
        MapOperator { state, udf, marker: PhantomData }
    }
}

impl<In, Out, F: MapFn<In, Out, S>, S: OperatorState> Operator for MapOperator<In, Out, F, S> {
    type In = In;

    type Out = Out;

    type TimerState = Never;

    type OperatorState = S;

    open spec fn inv(&self) -> bool {
        true
    }

    /// A `MapOperator` transition is exactly one application of its function: the
    /// state moves as the function's own relation allows, the function itself
    /// never changes.
    open spec fn elem_rel(&self, input: In, post: Self, r: Result<Out, UdfError>) -> bool {
        self.udf.rel(input, self.state, post.state, r) && post.udf == self.udf
    }

    fn handle_element(
        &mut self,
        element: StreamElement<In>,
        ctx: &mut OperatorContext<Out>,
    ) -> (r: Result<(), UdfError>) {
        let ghost input = element.data;
        match self.udf.apply(element.data, &mut self.state) {
            Ok(out) => {
                let ghost gout = out;
                ctx.output(StreamElement { data: out, timestamp: element.timestamp });
                proof {
                    assert(old(self).elem_rel(input, *self, Ok(gout)));
                }
                Ok(())
            },
            Err(e) => Err(e),
        }
    }

    fn handle_timeout(&mut self, _state: Never) {
    }

    fn persist(&mut self) -> (r: Result<(), PersistError>) {
        self.state.persist()
    }

    open spec fn state_of(&self) -> S {
        self.state
    }

    open spec fn with_state(&self, s: S) -> Self {
        MapOperator { state: s, udf: self.udf, marker: PhantomData }
    }

    fn state(&mut self) -> (s: &mut S) {
        &mut self.state
    }
}

/// Adds a fixed amount to an unsigned input, wrapping on overflow: the
/// reference pure transformation.
pub struct AddConst {
    pub amount: u64,
}

impl TransformFn<u64, u64> for AddConst {
    open spec fn spec_apply(&self, input: u64) -> u64 {
        vstd::wrapping::u64_specs::wrapping_add(input, self.amount)
    }

    fn apply(&self, input: u64) -> (r: u64) {
        input.wrapping_add(self.amount)
    }
}

/// Accumulates a running total, wrapping on overflow, and outputs the total
/// after each input: the reference stateful per-element function.
pub struct RunningTotal {}

impl MapFn<u64, u64, u64> for RunningTotal {
    open spec fn rel(&self, input: u64, s0: u64, s1: u64, r: Result<u64, UdfError>) -> bool {
        s1 == vstd::wrapping::u64_specs::wrapping_add(s0, input) && r == Result::<u64, UdfError>::Ok(s1)
    }

    fn apply(&self, input: u64, state: &mut u64) -> (r: Result<u64, UdfError>) {
        *state = state.wrapping_add(input);
        Ok(*state)
    }
}

} // verus!
