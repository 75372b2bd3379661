//! Session-aware display manager for a single seat.
//!
//! The library holds the decision logic of the manager: routing function keys
//! to virtual terminals, tracking held modifier keys, selecting display
//! resources (connector, mode, primary plane), the display-context state
//! machine that owns exclusive display ownership and a GPU surface, and the
//! session event loop that drives it all from activity and key signals.
//!
//! Everything that touches a device — the kernel display subsystem, the GPU
//! backend, the input source and the seat manager — lives outside the
//! library; the functions here take plain descriptions of what those report
//! and return the decisions and ordered action plans to carry out.

pub mod context;
pub mod keys;
pub mod modifiers;
pub mod selector;
pub mod session;
