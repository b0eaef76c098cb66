//! The interface to the compiled user-defined transformation a task owns.
//!
//! The compiled module itself is an opaque external collaborator: it takes a
//! byte buffer and yields a byte buffer plus an elapsed-time measurement, or
//! fails while building its per-call execution context or during the run.
//! Each implementor publishes, as the spec relation [`UdfModule::run_rel`],
//! which outcomes a run on a given input may produce; the task's contracts
//! are stated over that relation, so they hold whatever the module does.

use vstd::prelude::*;

verus! {

/// What one successful module invocation yields: the output buffer, read back
/// into owned bytes, and the measured execution time in nanoseconds.
#[derive(Clone, Debug, PartialEq, Eq)]
pub struct UdfRun {
    pub output: Vec<u8>,
    pub elapsed_ns: u64,
}

/// How a module invocation can fail.
#[derive(Clone, Debug, PartialEq, Eq)]
pub enum UdfError {
    /// The per-call execution context could not be constructed.
    Context { message: String },
    /// The invocation itself failed or its result could not be read back.
    Execution { message: String },
}

/// An opaque compiled transformation, exclusively owned by one task.
///
/// `run` performs the whole pipeline below the task-id check: marshal the
/// input bytes into the module's buffer shape, build an execution context
/// scoped to this single call, invoke the module, and convert the output
/// buffer back into owned bytes. Timing makes the outcome inherently
/// nondeterministic, so the contract only pins it to the implementor's own
/// relation `run_rel`.
pub trait UdfModule: Sized {
    /// Which `(module after the call, outcome)` pairs a run on `input` may
    /// produce. Each implementor fixes this relation and proves `run`
    /// against it.
    spec fn run_rel(&self, input: Seq<u8>, post: Self, r: Result<UdfRun, UdfError>) -> bool;

    /// Run the module on one input buffer.
    fn run(&mut self, input: &Vec<u8>) -> (r: Result<UdfRun, UdfError>)
        ensures
            old(self).run_rel(input@, *final(self), r),
    ;
}

/// A module that hands its input back unchanged and reports a fixed elapsed
/// time: the reference implementation for hosts and tests that have no
/// compiled module at hand.
pub struct EchoModule {
    pub elapsed_ns: u64,
}

impl UdfModule for EchoModule {
    open spec fn run_rel(&self, input: Seq<u8>, post: Self, r: Result<UdfRun, UdfError>) -> bool {
        &&& post == *self
        &&& r matches Ok(run) && run.output@ == input && run.elapsed_ns == self.elapsed_ns
    }

    fn run(&mut self, input: &Vec<u8>) -> (r: Result<UdfRun, UdfError>) {
        let output = input.clone();
        proof {
            assert forall|i: int| 0 <= i < input@.len() implies input@[i] == output@[i] by {
                assert(vstd::pervasive::cloned::<u8>(input@[i], output@[i]));
            }
            assert(output@ =~= input@);
        }
        Ok(UdfRun { output, elapsed_ns: self.elapsed_ns })
    }
}

/// A module that always fails, at context construction or at execution,
/// with a fixed diagnostic: the reference implementation for exercising the
/// error paths.
pub struct RefusingModule {
    /// Fail while building the execution context; otherwise fail during the
    /// run itself.
    pub at_context: bool,
    pub message: String,
}

impl UdfModule for RefusingModule {
    open spec fn run_rel(&self, input: Seq<u8>, post: Self, r: Result<UdfRun, UdfError>) -> bool {
        &&& post == *self
        &&& if self.at_context {
            r matches Err(UdfError::Context { message }) && message@ == self.message@
        } else {
            r matches Err(UdfError::Execution { message }) && message@ == self.message@
        }
    }

    fn run(&mut self, _input: &Vec<u8>) -> (r: Result<UdfRun, UdfError>) {
        if self.at_context {
            Err(UdfError::Context { message: self.message.clone() })
        } else {
            Err(UdfError::Execution { message: self.message.clone() })
        }
    }
}

} // verus!
