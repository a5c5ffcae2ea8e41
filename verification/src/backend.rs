//! The drivers through which a thread waits for I/O.
//!
//! Rings complete operations; the other drivers report that a descriptor is ready, and
//! the operation is then tried again.

pub mod epoll;
pub mod io_uring;
pub mod select_driver;
