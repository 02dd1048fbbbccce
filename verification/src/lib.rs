//! Interrupt routing and PCI device configuration for a microkernel, with the
//! command line of its build tool.
//!
//! The kernel side locates the PCI host bridge in what firmware describes
//! ([`firmware`]), computes where the configuration registers of a function
//! lie ([`address`], [`window`]), resolves legacy interrupt pins to platform
//! vectors ([`legacy`]), keeps the table from vectors to wait-objects
//! ([`routing`]) and binds legacy, MSI and MSI-X interrupts to wait-objects
//! ([`configurator`], [`msi`]). The library decides and keeps the books; the
//! code around it touches the hardware: it reads the device tree, stores to
//! device memory, creates the events behind the wait-objects and signals
//! them.
//!
//! The tool side reads the command line ([`flags`]) and plans a distribution
//! ([`dist`]); [`console`] holds the decisions of the framebuffer console and
//! [`frame_allocator`] the interface to the manager of physical memory.

pub mod address;
pub mod bits;
pub mod configurator;
pub mod console;
pub mod dist;
pub mod error;
pub mod firmware;
pub mod flags;
pub mod frame_allocator;
pub mod legacy;
pub mod msi;
pub mod routing;
pub mod text;
pub mod window;
