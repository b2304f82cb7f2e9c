//! Hardware bootstrap layer of a microkernel for the Raspberry Pi 3.
//!
//! The crate holds the decisions of the bootstrap: how a mailbox transfer
//! proceeds from one register access to the next, how a batch of property
//! tags is laid out in a message buffer and read back, how a framebuffer is
//! negotiated with the firmware processor and drawn into, and how a core is
//! brought from reset to a known state of its address space. Every register
//! access itself is left to the caller: the state machines here say which
//! access comes next and take its result.
//!
//! - [`boot`] and [`arch`]: the way of a core from reset, the steps that set
//!   its address space, and the memory map.
//! - [`transfer`] and [`mailbox`]: one transfer over the mailbox registers.
//! - [`property`] and [`tag`]: property tags and the layout of a message.
//! - [`vc`]: the negotiation of a framebuffer.
//! - [`display`] and [`font`]: the display and drawing into its frame.
//! - [`rpi3`]: addresses of the board.

pub mod arch;
pub mod boot;
pub mod display;
pub mod font;
pub mod mailbox;
pub mod property;
pub mod rpi3;
pub mod tag;
pub mod transfer;
pub mod vc;
