//! Host-side pieces of a virtual machine monitor: the decisions of the virtio-gpu worker
//! thread and the rows of the start-up profiler.
//!
//! * [`worker`] decides what the worker thread does after each `poll(2)`.
//! * [`queue`] drains the control queue: one typed step per piece of device work.
//! * [`queue_laws`] states what each piece of that work leads to.
//! * [`queue_run`] states what holds of every run over the queue.
//! * [`command`] turns a decoded guest command into the call that the device is to make.
//! * [`command_laws`] states, command by command, what the device is asked for.
//! * [`reader`] reads objects out of the bytes that the guest sent.
//! * [`protocol`] holds the plain values that travel between the guest and the device.
//! * [`host`] names what comes from the host's libraries.
//! * [`profile`] writes profiling rows.

pub mod command;
pub mod command_laws;
pub mod host;
pub mod profile;
pub mod protocol;
pub mod queue;
pub mod queue_laws;
pub mod queue_run;
pub mod reader;
pub mod worker;
