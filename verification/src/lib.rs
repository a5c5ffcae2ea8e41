//! A thread-per-core asynchronous runtime, as a verified core.
//!
//! Every rule of the runtime (which task runs next, when a timer fires, what a
//! completion does to the task that waits for it, how bytes leave a buffer) is a
//! function of this crate with a contract. What talks to the kernel is the
//! embedding program: it performs the actions this crate asks for and hands the
//! outcomes back.

pub mod async_event;
pub mod async_stream;
pub mod backend;
pub mod echo;
pub mod epoll_future;
pub mod errno;
pub mod iocp_future;
pub mod laws;
pub mod model;
pub mod operations;
pub mod outside;
pub mod pointer_buffer;
pub mod requests;
pub mod ring_future;
pub mod runtime;
pub mod seqs;
pub mod sleep;
pub mod sockaddr;
pub mod socket_helpers;
pub mod ssl;
pub mod stats;
pub mod task;
pub mod task_future;
pub mod text;
pub mod time;
pub mod tls;
pub mod tracing;
pub mod version;
pub mod virtual_clock;
