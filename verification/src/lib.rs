//! Inspects a machine's processor and virtualization environment and reports a
//! normalized summary: architecture and addressing modes, byte order,
//! per-logical-CPU attributes parsed from the kernel's CPU attribute block, and
//! — when running under a hypervisor — the hypervisor vendor and
//! virtualization mode.
//!
//! The library holds the decision logic only: callers read the kernel-exposed
//! files and issue the CPU identification instruction, then hand the raw text
//! and register values to the functions here.

pub mod architecture;
pub mod cpubyteorder;
pub mod cpuid;
pub mod cpuinfo;
pub mod hypervisor;
pub mod text;
