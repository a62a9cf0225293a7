//! Dual-core USB-CDC to UART byte bridge: the cross-core byte queues, the two
//! polling engines that move bytes between the USB endpoint and the UART, the
//! one-shot USB session lifecycle, and the activity-decay LED controller.
//!
//! Hardware access (peripheral registers, the USB class stack, the LED pin,
//! the monotonic timer) lives outside this crate; every function here works
//! on plain values and carries a contract.

use vstd::prelude::*;

pub mod activity;
pub mod bridge;
pub mod queue;
pub mod session;
pub mod uart_regs;

verus! {

/// Capacity, in bytes, of each direction's cross-core queue.
pub const QUEUE_CAPACITY: usize = 16384;

/// Largest number of bytes a single USB engine poll moves in one direction.
pub const MAX_TRANSFER: usize = 64;

/// Ticks of the monotonic counter for which the LED stays lit after the last
/// observed activity (10 ms at one tick per microsecond).
pub const DECAY_WINDOW_TICKS: u64 = 10000;

} // verus!
