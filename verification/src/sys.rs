//! The vocabulary between this library and the driver that makes the system
//! calls: the calls it may be asked for, and the replies it hands back.

use vstd::prelude::*;
use crate::addr::SockaddrVm;

verus! {

/// The address family tried first, before any device is asked.
pub const AF_VSOCK: i32 = 40;

/// The context identifier of the host, the target of every client.
pub const VMADDR_CID_HOST: u32 = 2;

/// The context identifier that stands for any local address.
pub const VMADDR_CID_ANY: u32 = 0xFFFF_FFFF;

/// The socket option that names the virtual machine behind a peer.
pub const SO_VM_SOCKETS_PEER_HOST_VM_ID: i32 = 3;

/// The control request that makes the probe device report the address family.
pub const GET_AF_VALUE: u64 = 0x7b8;

/// Where the probe device is found.
pub const DEVICE_PATH: &'static str = "/dev/vsock";

/// How many connections may wait on a listener to be accepted.
pub const BACKLOG: i32 = 1;

/// One system call that the driver is asked to make, answered by a
/// [`Reply`].
#[derive(Clone, Copy, Debug, PartialEq, Eq)]
pub enum Call {
    /// `socket(family, kind, 0)`; the reply's `ret` is the new descriptor.
    Socket { family: i32, kind: i32 },
    /// Open the probe device at [`DEVICE_PATH`]; the reply's `ret` is its
    /// descriptor.
    OpenDevice,
    /// `ioctl(device, request, &mut v)` with `v` set to `value` before the
    /// call; the reply's `value` is `v` after it.
    Ioctl { device: i32, request: u64, value: i32 },
    /// `connect(fd, &addr, size of addr)`.
    Connect { fd: i32, addr: SockaddrVm },
    /// `bind(fd, &addr, size of addr)`.
    Bind { fd: i32, addr: SockaddrVm },
    /// `listen(fd, backlog)`.
    Listen { fd: i32, backlog: i32 },
    /// `getsockopt(fd, level, name, &mut v, &mut 4)` with `v` set to zero
    /// before the call; the reply's `value` is `v` after it.
    GetSockOpt { fd: i32, level: i32, name: i32 },
    /// Close a socket's descriptor. The reply is not looked at.
    Close { fd: i32 },
    /// Close the probe device. The reply is not looked at.
    CloseDevice { device: i32 },
}

/// A system call that reports an address, answered by an [`AddrReply`]. The
/// call is handed a zeroed address structure and that structure's size.
#[derive(Clone, Copy, Debug, PartialEq, Eq, Structural)]
pub enum AddrCall {
    /// `accept(fd, &mut addr, &mut len)`; the reply's `ret` is the
    /// descriptor of the new connection.
    Accept { fd: i32 },
    /// `getsockname(fd, &mut addr, &mut len)`.
    GetSockName { fd: i32 },
    /// `getpeername(fd, &mut addr, &mut len)`.
    GetPeerName { fd: i32 },
}

/// A system call that moves bytes from or into the caller's buffer, answered
/// by an [`IoReply`].
#[derive(Clone, Copy, Debug, PartialEq, Eq, Structural)]
pub enum IoCall {
    /// `recv(fd, buffer, len, 0)`.
    Recv { fd: i32, len: usize },
    /// `send(fd, buffer, len, 0)`.
    Send { fd: i32, len: usize },
}

/// What a call gave back: its result, the error number read right after it
/// (looked at only where `ret` is negative), and the integer that the call
/// wrote through its pointer argument, for the calls that have one.
#[derive(Clone, Copy, Debug, PartialEq, Eq, Structural)]
pub struct Reply {
    pub ret: i32,
    pub errno: i32,
    pub value: i32,
}

/// What a call that reports an address gave back: its result, the error
/// number, the address structure as the call left it, and the length that
/// the call reported.
#[derive(Clone, Copy, Debug, PartialEq, Eq)]
pub struct AddrReply {
    pub ret: i32,
    pub errno: i32,
    pub addr: SockaddrVm,
    pub len: u32,
}

/// What a transfer gave back: the number of bytes moved, or a negative
/// result and the error number.
#[derive(Clone, Copy, Debug, PartialEq, Eq, Structural)]
pub struct IoReply {
    pub ret: isize,
    pub errno: i32,
}

/// `libc::SOCK_STREAM`: the kind of a socket that carries an ordered stream
/// of bytes. The number differs between platforms, so nothing is claimed of
/// it.
#[verifier::external_body]
pub(crate) fn stream_kind() -> (kind: i32) {
    libc::SOCK_STREAM
}

} // verus!
