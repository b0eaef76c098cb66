//! The task: a single-threaded, message-driven execution unit for one
//! pipeline stage.
//!
//! A task owns its compiled UDF module and an optional downstream
//! destination, keeps a truncating exponential moving average of the module's
//! execution times, and participates in the checkpoint protocol through a
//! borrowed state-backend handle. Its mailbox is processed strictly one
//! message at a time, in arrival order: the host pops a message and calls
//! [`Task::handle_message`]; lifecycle events go to [`Task::handle_control`];
//! each tick of the periodic report timer emits [`Task::report_metric`].
//! Per-element failures are returned to the host to log and are never fatal.

use crate::backend::StateBackend;
use crate::data::{Destination, Element, Metric, Outbound, TaskMsg};
use crate::ema::{ema_of, ema_step, ema_update};
use crate::error::{PersistError, TaskError};
use crate::timer::{TimerEntry, TimerService};
use crate::udf::{UdfError, UdfModule, UdfRun};
use vstd::prelude::*;

verus! {

/// How often the report timer fires, in milliseconds.
pub const REPORT_PERIOD_MS: u64 = 250;

/// The task lifecycle: `Created` becomes `Started` once, and `Stopped` and
/// `Killed` are terminal — there is no transition out of them.
#[derive(Clone, Copy, Debug, PartialEq, Eq, Structural)]
pub enum Lifecycle {
    Created,
    Started,
    Stopped,
    Killed,
}

/// The control events the hosting runtime delivers.
#[derive(Clone, Copy, Debug, PartialEq, Eq, Structural)]
pub enum ControlEvent {
    Start,
    Stop,
    Kill,
}

/// What handling one message came to. The host transmits the outbound
/// message, if any, and writes one log line per error; nothing here crashes
/// the message loop.
#[derive(Debug)]
pub enum HandleOutcome {
    /// An element was processed; the outbound message is present exactly when
    /// a destination is configured.
    Processed { outbound: Option<Outbound> },
    /// An element failed and was dropped; no retry, no forward.
    Dropped { error: TaskError },
    /// A watermark was noted; reserved for time-progress propagation.
    WatermarkNoted,
    /// A checkpoint was requested from the backend; a failure is logged and
    /// the task remains live.
    Checkpointed { result: Result<(), PersistError> },
}

/// Turn a module failure into the task-level error it is logged as.
pub open spec fn spec_error_of_udf(e: UdfError) -> TaskError {
    match e {
        UdfError::Context { message } => TaskError::Context { message },
        UdfError::Execution { message } => TaskError::UdfExecution { message },
    }
}

/// Executable counterpart of [`spec_error_of_udf`].
fn error_of_udf(e: UdfError) -> (r: TaskError)
    ensures
        r == spec_error_of_udf(e),
{
    match e {
        UdfError::Context { message } => TaskError::Context { message },
        UdfError::Execution { message } => TaskError::UdfExecution { message },
    }
}

/// How a successful run is routed: with no destination there is no outbound
/// message; with one, exactly one outbound element goes to the destination's
/// path, keeping the input's id, carrying the module's output as payload, a
/// fresh timestamp, and the task id rewritten to the destination's.
pub open spec fn routed(
    dest: Option<Destination>,
    e: Element,
    output: Seq<u8>,
    now: u64,
    out: Option<Outbound>,
) -> bool {
    match dest {
        None => out is None,
        Some(d) => out matches Some(ob) && ob.path@ == d.path@ && ob.element.id == e.id
            && ob.element.timestamp == now && ob.element.task_id@ == d.task_id@
            && ob.element.data@ == output,
    }
}

/// The task's runtime state. The compiled module `M` is exclusively owned;
/// the shared state backend is borrowed per call instead of owned, since it
/// is an internally synchronized handle shared across tasks.
pub struct Task<M: UdfModule> {
    /// The logical id the task answers to; elements must be addressed to it.
    pub id: String,
    /// Where successfully transformed elements are forwarded, if anywhere.
    pub destination: Option<Destination>,
    /// The compiled user-defined transformation.
    pub udf: M,
    /// Truncating exponential moving average of execution times, nanoseconds.
    pub udf_avg: u64,
    /// How many module executions have completed.
    pub udf_executions: u64,
    /// The handle of the periodic report timer, while one is scheduled.
    pub report_timer: Option<u64>,
    /// Where in the lifecycle the task stands.
    pub phase: Lifecycle,
    /// The elapsed times seen so far, oldest first; the history the average
    /// is derived from.
    pub samples: Ghost<Seq<u64>>,
}

impl<M: UdfModule> Task<M> {
    /// The tracker is exactly the truncating EMA of the history seen so far,
    /// with one count per sample, and the report timer is scheduled exactly
    /// while the task is started.
    pub open spec fn wf(&self) -> bool {
        &&& self.udf_executions == self.samples@.len()
        &&& self.udf_avg == ema_of(self.samples@)
        &&& (self.phase is Started <==> self.report_timer is Some)
    }

    /// What one element attempt does: `pre` and `post` are the task before
    /// and after, `r` the result handed back. A task-id mismatch is rejected
    /// outright — never processed, never forwarded, never counted. Otherwise
    /// the module runs once: on failure the error is surfaced and the tracker
    /// is untouched; on success the tracker absorbs the measured time and the
    /// output is routed per [`routed`].
    pub open spec fn element_step(
        pre: Self,
        post: Self,
        e: Element,
        now: u64,
        r: Result<Option<Outbound>, TaskError>,
    ) -> bool {
        &&& post.id == pre.id
        &&& post.destination == pre.destination
        &&& post.report_timer == pre.report_timer
        &&& post.phase == pre.phase
        &&& (e.task_id@ != pre.id@ <==> r matches Err(TaskError::BadTask { .. }))
        &&& (e.task_id@ != pre.id@ ==> post == pre && (r matches Err(TaskError::BadTask {
            element_task_id,
            task_id,
        }) && element_task_id@ == e.task_id@ && task_id@ == pre.id@))
        &&& (r is Err ==> post.udf_avg == pre.udf_avg && post.udf_executions
            == pre.udf_executions && post.samples@ == pre.samples@)
        &&& (r matches Err(err) ==> e.task_id@ == pre.id@ ==> exists|ue: UdfError|
            #[trigger] pre.udf.run_rel(e.data@, post.udf, Err(ue)) && err == spec_error_of_udf(
                ue,
            ))
        &&& (r matches Ok(out) ==> e.task_id@ == pre.id@ && exists|run: UdfRun|
            #[trigger] pre.udf.run_rel(e.data@, post.udf, Ok(run)) && post.udf_executions
                == pre.udf_executions + 1 && post.udf_avg == ema_step(
                pre.udf_avg,
                run.elapsed_ns,
                pre.udf_executions as int,
            ) && post.samples@ == pre.samples@.push(run.elapsed_ns) && routed(
                pre.destination,
                e,
                run.output@,
                now,
                out,
            ))
    }

    /// A freshly constructed task: no executions yet, zero average, no timer,
    /// at the start of its lifecycle.
    pub fn new(id: String, udf: M, destination: Option<Destination>) -> (t: Task<M>)
        ensures
            t.wf(),
            t.id == id,
            t.udf == udf,
            t.destination == destination,
            t.udf_avg == 0,
            t.udf_executions == 0,
            t.report_timer is None,
            t.phase is Created,
            t.samples@ == Seq::<u64>::empty(),
    {
        Task {
            id,
            destination,
            udf,
            udf_avg: 0,
            udf_executions: 0,
            report_timer: None,
            phase: Lifecycle::Created,
            samples: Ghost(Seq::empty()),
        }
    }

    /// Absorb one measured execution time into the running average — the
    /// first sample replaces the zero average, later ones move it by
    /// `2 / (executions + 1)`, truncating — and count the execution.
    pub fn update_avg(&mut self, ns: u64)
        requires
            old(self).wf(),
            old(self).udf_executions < u64::MAX,
        ensures
            final(self).wf(),
            final(self).udf_avg == ema_step(
                old(self).udf_avg,
                ns,
                old(self).udf_executions as int,
            ),
            final(self).udf_executions == old(self).udf_executions + 1,
            final(self).samples@ == old(self).samples@.push(ns),
            final(self).id == old(self).id,
            final(self).destination == old(self).destination,
            final(self).udf == old(self).udf,
            final(self).report_timer == old(self).report_timer,
            final(self).phase == old(self).phase,
    {
        self.udf_avg = ema_update(self.udf_avg, ns, self.udf_executions);
        self.udf_executions = self.udf_executions + 1;
        proof {
            self.samples@ = self.samples@.push(ns);
            assert(self.samples@.drop_last() =~= old(self).samples@);
        }
    }

    /// Run one element through the UDF pipeline: validate the task id,
    /// invoke the module, absorb the measured time, and build the routed
    /// outbound message if a destination is configured. A failed element
    /// yields its error and leaves the tracker untouched; no partial output
    /// is ever produced.
    pub fn run_udf(&mut self, e: &Element, now: u64) -> (r: Result<Option<Outbound>, TaskError>)
        requires
            old(self).wf(),
            old(self).udf_executions < u64::MAX,
        ensures
            final(self).wf(),
            Self::element_step(*old(self), *final(self), *e, now, r),
    {
        let matches_id = e.task_id == self.id;
        if !matches_id {
            return Err(
                TaskError::BadTask {
                    element_task_id: e.task_id.clone(),
                    task_id: self.id.clone(),
                },
            );
        }
        let run_result = self.udf.run(&e.data);
        match run_result {
            Err(udf_err) => {
                let ghost gerr = udf_err;
                let task_err = error_of_udf(udf_err);
                proof {
                    assert(old(self).udf.run_rel(e.data@, self.udf, Err(gerr)));
                }
                Err(task_err)
            },
            Ok(run) => {
                let ghost grun = run;
                let UdfRun { output, elapsed_ns } = run;
                self.update_avg(elapsed_ns);
                let outbound = match &self.destination {
                    None => None,
                    Some(dest) => {
                        let out_element = Element {
                            id: e.id,
                            timestamp: now,
                            task_id: dest.task_id.clone(),
                            data: output,
                        };
                        Some(Outbound { path: dest.path.clone(), element: out_element })
                    },
                };
                proof {
                    assert(old(self).udf.run_rel(e.data@, self.udf, Ok(grun)));
                }
                Ok(outbound)
            },
        }
    }

    /// Dispatch one inbound message (§ message protocol): a watermark is a
    /// no-op; an element runs through [`Task::run_udf`]; a checkpoint signal
    /// asks the backend to persist under the carried id — exactly one call,
    /// and the execution tracker is never touched by it.
    pub fn handle_message<B: StateBackend>(
        &mut self,
        msg: TaskMsg,
        now: u64,
        backend: &mut B,
    ) -> (r: HandleOutcome)
        requires
            old(self).wf(),
            old(self).udf_executions < u64::MAX,
        ensures
            final(self).wf(),
            match msg {
                TaskMsg::Watermark(_) => *final(self) == *old(self) && final(backend).history()
                    == old(backend).history() && r is WatermarkNoted,
                TaskMsg::Element(e) => final(backend).history() == old(backend).history() && match r {
                    HandleOutcome::Processed { outbound } => Self::element_step(
                        *old(self),
                        *final(self),
                        e,
                        now,
                        Ok(outbound),
                    ),
                    HandleOutcome::Dropped { error } => Self::element_step(
                        *old(self),
                        *final(self),
                        e,
                        now,
                        Err(error),
                    ),
                    _ => false,
                },
                TaskMsg::Checkpoint(id) => r matches HandleOutcome::Checkpointed { result }
                    && *final(self) == *old(self) && final(backend).history() == old(
                    backend,
                ).history().push(id@) && old(backend).checkpoint_rel(id@, result),
            },
    {
        match msg {
            TaskMsg::Watermark(_) => HandleOutcome::WatermarkNoted,
            TaskMsg::Element(e) => {
                match self.run_udf(&e, now) {
                    Ok(outbound) => HandleOutcome::Processed { outbound },
                    Err(error) => HandleOutcome::Dropped { error },
                }
            },
            TaskMsg::Checkpoint(id) => {
                let result = backend.checkpoint(id);
                HandleOutcome::Checkpointed { result }
            },
        }
    }

    /// Cancel the periodic report timer if one is scheduled; idempotent —
    /// with no timer present nothing happens and nothing fails.
    pub fn stop_report(&mut self, timers: &mut TimerService)
        requires
            old(self).wf(),
            old(timers).wf(),
        ensures
            final(self).wf(),
            final(timers).wf(),
            final(self).report_timer is None,
            final(self).phase == if old(self).phase is Started {
                Lifecycle::Stopped
            } else {
                old(self).phase
            },
            final(self).id == old(self).id,
            final(self).destination == old(self).destination,
            final(self).udf == old(self).udf,
            final(self).udf_avg == old(self).udf_avg,
            final(self).udf_executions == old(self).udf_executions,
            final(self).samples@ == old(self).samples@,
            final(timers).next_handle == old(timers).next_handle,
            match old(self).report_timer {
                None => final(timers).active@ == old(timers).active@,
                Some(h) => final(timers).active@ == old(timers).active@.filter(
                    |t: TimerEntry| t.handle != h,
                ),
            },
    {
        match self.report_timer {
            None => (),
            Some(timer) => {
                timers.cancel(timer);
                self.report_timer = None;
                if let Lifecycle::Started = self.phase {
                    self.phase = Lifecycle::Stopped;
                }
            },
        }
    }

    /// Map a lifecycle event from the hosting runtime onto the task's state
    /// machine. `Start` from `Created` schedules the one periodic report
    /// timer and is ignored from any other phase, so a started task never
    /// holds more than one timer. `Stop` and `Kill` cancel the timer — each
    /// is idempotent, and stopping an already terminal task changes nothing.
    /// The execution tracker is never touched by control events.
    pub fn handle_control(&mut self, event: ControlEvent, timers: &mut TimerService)
        requires
            old(self).wf(),
            old(timers).wf(),
            event is Start ==> old(timers).next_handle < u64::MAX,
        ensures
            final(self).wf(),
            final(timers).wf(),
            final(self).id == old(self).id,
            final(self).destination == old(self).destination,
            final(self).udf == old(self).udf,
            final(self).udf_avg == old(self).udf_avg,
            final(self).udf_executions == old(self).udf_executions,
            final(self).samples@ == old(self).samples@,
            final(timers).next_handle >= old(timers).next_handle,
            match event {
                ControlEvent::Start => if old(self).phase is Created {
                    final(self).report_timer matches Some(h) && final(self).phase is Started
                        && final(timers).active@ == old(timers).active@.push(
                        TimerEntry { handle: h, period_ms: REPORT_PERIOD_MS },
                    ) && !old(timers).active_handles().contains(h)
                } else {
                    *final(self) == *old(self) && *final(timers) == *old(timers)
                },
                ControlEvent::Stop | ControlEvent::Kill => {
                    &&& final(self).report_timer is None
                    &&& final(self).phase == if old(self).phase is Stopped || old(
                        self,
                    ).phase is Killed {
                        old(self).phase
                    } else if event is Stop {
                        Lifecycle::Stopped
                    } else {
                        Lifecycle::Killed
                    }
                    &&& match old(self).report_timer {
                        None => final(timers).active@ == old(timers).active@,
                        Some(h) => final(timers).active@ == old(timers).active@.filter(
                            |t: TimerEntry| t.handle != h,
                        ),
                    }
                },
            },
    {
        match event {
            ControlEvent::Start => {
                if let Lifecycle::Created = self.phase {
                    let h = timers.schedule_periodic(REPORT_PERIOD_MS);
                    self.report_timer = Some(h);
                    self.phase = Lifecycle::Started;
                }
            },
            ControlEvent::Stop => {
                self.stop_report(timers);
                if let Lifecycle::Created = self.phase {
                    self.phase = Lifecycle::Stopped;
                }
            },
            ControlEvent::Kill => {
                let was_terminal = matches!(self.phase, Lifecycle::Stopped | Lifecycle::Killed);
                self.stop_report(timers);
                if !was_terminal {
                    self.phase = Lifecycle::Killed;
                }
            },
        }
    }

    /// The report the periodic timer emits on each tick: the task's id and
    /// its current running average — the damped signal, not the last sample.
    pub fn report_metric(&self) -> (m: Metric)
        ensures
            m.task_id@ == self.id@,
            m.task_avg == self.udf_avg,
    {
        Metric { task_id: self.id.clone(), task_avg: self.udf_avg }
    }
}

} // verus!
