//! A minimal container-launch runtime, as verified decision logic.
//!
//! One process is launched on a root filesystem of its own, in process-id,
//! mount and network namespaces of its own, and is reaped when it exits. The
//! crate holds the order-dependent protocol of such a launch: which kernel
//! primitives and which commands of the network backend are asked for, in
//! which order, and how the report on each of them is judged. Performing them
//! is left to the caller, which hands every report back to the launch.
//!
//! - [`request`]: what is to be launched, checked once and immutable after.
//! - [`launch`]: the state machine of the launching process and of its child.
//! - [`network`]: the command lines of the network backend.
//! - [`syscall`]: the kernel primitives as values, and their flags.
//! - [`event`]: actions, reports on them, and the kinds of fault.
//! - [`order`]: what holds of every launch.
//! - [`model`]: what holds of the backend commands against an idealised backend.
//! - [`command`], [`text`]: command lines and text helpers.

pub mod command;
pub mod event;
pub mod launch;
pub mod model;
pub mod network;
pub mod order;
pub mod request;
pub mod syscall;
pub mod text;
