//! Execution core of a stream-processing task.
//!
//! A [`task::Task`] is a single-threaded, message-driven processing unit: it
//! receives typed messages ([`data::TaskMsg`]), runs an owned user-defined
//! transformation (UDF) over each data element, tracks a truncating
//! exponential moving average of the execution times ([`ema`]), forwards
//! transformed elements to an optional downstream [`data::Destination`], and
//! triggers state-backend checkpoints on demand. The [`operator`] module
//! gives the generic contract any stateful pipeline stage plugs into, with
//! [`map::MapOperator`] as its reference stage.
//!
//! The surrounding runtime services — mailbox delivery, wall clocks, the
//! compiled UDF itself, durable storage, log output — stay outside this
//! core: they enter only through the [`udf::UdfModule`] and
//! [`backend::StateBackend`] interfaces and through plain values such as
//! timestamps and [`timer::TimerService`] handles.

pub mod backend;
pub mod data;
pub mod ema;
pub mod error;
pub mod map;
pub mod operator;
pub mod task;
pub mod timer;
pub mod udf;
