//! A safety layer over a low-level GPU command-submission interface.
//!
//! The crate models the command-recording state machine and the
//! resource-lifetime rules that surround it: command pools and their
//! recording sessions, the binding-state tracker consulted by every draw
//! and dispatch, bounds-checked transfer and draw commands, descriptor
//! set layouts, pools and sets with their initialization tracking, and
//! the queue-submission and fence lifecycle that ties resource lifetime
//! to completion of submitted work.  Every validation rule is stated as
//! a contract and proved; misuse that a native interface would leave
//! undefined is refused with a typed condition before any work is
//! recorded.

pub mod buffer;
pub mod command_buffer;
pub mod descriptor_set;
pub mod device;
pub mod enums;
pub mod error;
pub mod fence;
pub mod image;
pub mod instance;
pub mod memory;
pub mod pipeline;
pub mod queue;
pub mod render_pass;
pub mod sampler;
pub mod semaphore;
pub mod shader;
pub mod types;
