//! The control plane of one hardware-accelerated virtual machine, as decisions
//! on plain values.
//!
//! The library never talks to the kernel itself. For every operation it says
//! which request has to be issued (`*_request`), and, given what the kernel
//! answered, what the handles look like afterwards. The caller carries the
//! requests to the kernel and the answers back.

pub mod action;
pub mod bindings;
pub mod error;
pub mod kvm;
pub mod laws;
pub mod request;
pub mod rules;
pub mod state;
