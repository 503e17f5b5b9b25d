//! Descriptor-mode coordination for a coroutine I/O runtime.
//!
//! One descriptor serves scheduled coroutines, which need it in the operating
//! system's nonblocking mode, and plain threads, which need it blocking. The
//! types here decide, before each I/O call, whether the mode has to change, and
//! change it only on an actual transition.

pub mod cell;
pub mod context;
pub mod history;
pub mod mode;
pub mod shared;

pub use crate::cell::OptionCell;
pub use crate::context::IoContext;
pub use crate::context::IoState;
pub use crate::mode::OsMode;
pub use crate::shared::SharedIoContext;
