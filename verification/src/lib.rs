//! Sockets of the hypervisor address family, written as decisions over the
//! results of system calls.
//!
//! Nothing in this crate touches a descriptor. Every operation is split into
//! the call that a driver has to make for it ([`sys::Call`]) and the reading
//! of what that call gave back. Operations that take several calls
//! (resolving the address family, connecting, binding) are state machines:
//! the driver asks a machine which call it awaits, makes it, and hands the
//! reply back, until the machine has finished.

pub mod addr;
pub mod errno;
pub mod guarantees;
pub mod inner;
pub mod listener;
pub mod machine;
pub mod stream;
pub mod sys;

pub use crate::addr::{ByteOrder, SockaddrVm, SocketAddr};
pub use crate::errno::{cvt, cvt_s, OsError};
pub use crate::inner::{Closing, Held, Inner, Resolving, Stage};
pub use crate::listener::{Binding, Incoming, VSocketListener};
pub use crate::machine::{replay, Machine, Resource};
pub use crate::stream::{Connecting, VSocketStream};
pub use crate::sys::{AddrCall, AddrReply, Call, IoCall, IoReply, Reply};
