//! What the operations of the runtime are for, as laws over what goes into them and what
//! comes out.

pub mod decisions;
pub mod drivers;
pub mod event_loop;
pub mod io;
pub mod scheduling;
pub mod streams;
pub mod time;
pub mod tls;
pub mod values;
pub mod waiting;
