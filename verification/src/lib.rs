//! The core of an async application framework: what is registered, how it is configured, how a
//! run proceeds from phase to phase, how tasks are supervised, and what the service macros
//! generate. The runtime that performs the actions lives around it.

pub mod app;
pub mod channel;
pub mod codegen;
pub mod config;
pub mod crew;
pub mod event;
pub mod policy;
pub mod resource;
pub mod schedule;
pub mod service;
pub mod shutdown;
pub mod system;
pub mod time;
pub mod worker;

pub use app::{
    Action, App, AppView, Backend, Event, FixedLaunch, Launch, Run, RunView, ShutdownConfigBuilder,
    Stage, SystemDescriptor,
};
pub use channel::{Closer, ServiceChannel};
pub use config::{EventConfigBuilder, ServiceConfigBuilder, SystemConfig, SystemConfigBuilder};
pub use event::{
    next_recv_step, receivers_reached, Delivery, Emit, EventBus, RecvStep, Sub,
};
pub use policy::{RestartPolicy, ServiceExit, Supervisor, SystemExit, Verdict};
pub use resource::Res;
pub use schedule::{Phase, Schedule};
pub use service::{
    fire_outcome, reply_outcome, timeout_outcome, ServiceError, ServiceResultExt,
};
pub use shutdown::Shutdown;
pub use system::{
    next_interval_action, IntervalAction, IntervalEvent, SystemOutput, SystemResult,
};
pub use worker::{seats, Seat, Worker, WorkerAction, WorkerEvent, WorkerState};
