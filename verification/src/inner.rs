//! The handle under every socket of the family: a descriptor and the value
//! of the address family that it was made with, found out when the handle is
//! made.

use vstd::prelude::*;
use vstd::multiset::*;
use crate::errno::{cvt, OsError};
use crate::machine::{acquired, calls_along, released, run, Machine, Resource};
use crate::sys::{
    AddrCall, Call, IoCall, Reply, AF_VSOCK, GET_AF_VALUE, SO_VM_SOCKETS_PEER_HOST_VM_ID,
};

verus! {

/// What a handle holds: the socket's descriptor, the value of the address
/// family, and the descriptor of the probe device where the family's value
/// came from it. That value is good as long as the device stays open.
#[derive(Clone, Copy, Debug, PartialEq, Eq)]
pub struct Held {
    pub s: i32,
    pub af: i32,
    pub device: Option<i32>,
}

impl Held {
    /// The descriptors that have to be closed when the handle goes.
    pub open spec fn resources(self) -> Multiset<Resource> {
        match self.device {
            Some(device) => Multiset::singleton(Resource::Socket(self.s)).insert(
                Resource::Device(device),
            ),
            None => Multiset::singleton(Resource::Socket(self.s)),
        }
    }

    /// The call that asks for the socket's own address.
    pub open spec fn local_addr_call(self) -> AddrCall {
        AddrCall::GetSockName { fd: self.s }
    }

    /// The call that asks for the address of the other end.
    pub open spec fn peer_addr_call(self) -> AddrCall {
        AddrCall::GetPeerName { fd: self.s }
    }

    /// The call that asks which virtual machine owns the other end: a socket
    /// option at the level of the address family's value.
    pub open spec fn peer_host_vm_id_call(self) -> Call {
        Call::GetSockOpt { fd: self.s, level: self.af, name: SO_VM_SOCKETS_PEER_HOST_VM_ID }
    }

    /// The call that receives up to `len` bytes.
    pub open spec fn read_call(self, len: usize) -> IoCall {
        IoCall::Recv { fd: self.s, len }
    }

    /// The call that sends up to `len` bytes.
    pub open spec fn write_call(self, len: usize) -> IoCall {
        IoCall::Send { fd: self.s, len }
    }

    /// The call that waits for a connection to arrive.
    pub open spec fn accept_call(self) -> AddrCall {
        AddrCall::Accept { fd: self.s }
    }

    /// The calls that closing takes: the socket, then the probe device if
    /// one is kept.
    pub open spec fn closing_calls(self) -> Seq<Call> {
        match self.device {
            Some(device) => seq![Call::Close { fd: self.s }, Call::CloseDevice { device }],
            None => seq![Call::Close { fd: self.s }],
        }
    }
}

/// The owner of a socket's descriptor and, where one was opened, of the
/// probe device. It is neither copied nor cloned; `close` uses it up.
#[derive(Debug)]
pub struct Inner {
    s: i32,
    af: i32,
    fd: Option<i32>,
}

impl View for Inner {
    type V = Held;

    closed spec fn view(&self) -> Held {
        Held { s: self.s, af: self.af, device: self.fd }
    }
}

/// A step of finding the address family that is still to be done.
#[derive(Debug, PartialEq, Eq)]
pub enum Stage {
    /// A socket of the well-known family value has been asked for.
    Native { kind: i32 },
    /// The probe device is being opened.
    Opening { kind: i32 },
    /// The device has been asked for the family's value.
    Probing { kind: i32, device: i32 },
    /// A socket of the value that the device gave has been asked for.
    Retrying { kind: i32, af: i32, device: i32 },
    /// The device is being closed before `error` is reported.
    Releasing { device: i32, error: OsError },
}

/// Making a handle: finding the address family and creating the socket.
#[derive(Debug, PartialEq, Eq)]
pub enum Resolving {
    /// A call is awaited.
    At(Stage),
    /// The socket exists.
    Resolved(Held),
    /// No socket could be made, and nothing is left open.
    Failed(OsError),
}

impl Stage {
    /// The call that this step awaits.
    pub open spec fn call(self) -> Call {
        match self {
            Stage::Native { kind } => Call::Socket { family: AF_VSOCK, kind },
            Stage::Opening { .. } => Call::OpenDevice,
            Stage::Probing { device, .. } => Call::Ioctl {
                device,
                request: GET_AF_VALUE,
                value: AF_VSOCK,
            },
            Stage::Retrying { kind, af, .. } => Call::Socket { family: af, kind },
            Stage::Releasing { device, .. } => Call::CloseDevice { device },
        }
    }

    /// Where the reply to that call leads. A socket of the well-known value
    /// ends the search; without one the device is opened, asked, and a
    /// socket of its value is made. A failure on that way is final, and the
    /// device, once open, is closed before the failure is reported.
    pub open spec fn next(self, reply: Reply) -> Resolving {
        match self {
            Stage::Native { kind } => if reply.ret >= 0 {
                Resolving::Resolved(Held { s: reply.ret, af: AF_VSOCK, device: None })
            } else {
                Resolving::At(Stage::Opening { kind })
            },
            Stage::Opening { kind } => if reply.ret >= 0 {
                Resolving::At(Stage::Probing { kind, device: reply.ret })
            } else {
                Resolving::Failed(OsError { code: reply.errno })
            },
            Stage::Probing { kind, device } => if reply.ret >= 0 {
                Resolving::At(Stage::Retrying { kind, af: reply.value, device })
            } else {
                Resolving::At(Stage::Releasing { device, error: OsError { code: reply.errno } })
            },
            Stage::Retrying { kind, af, device } => if reply.ret >= 0 {
                Resolving::Resolved(Held { s: reply.ret, af, device: Some(device) })
            } else {
                Resolving::At(Stage::Releasing { device, error: OsError { code: reply.errno } })
            },
            Stage::Releasing { error, .. } => Resolving::Failed(error),
        }
    }

    /// The descriptors that are open at this step.
    pub open spec fn owned(self) -> Multiset<Resource> {
        match self {
            Stage::Native { .. } | Stage::Opening { .. } => Multiset::empty(),
            Stage::Probing { device, .. } | Stage::Retrying { device, .. } | Stage::Releasing {
                device,
                ..
            } => Multiset::singleton(Resource::Device(device)),
        }
    }

    /// The number of calls that may still be needed, this one counted.
    pub open spec fn rank(self) -> nat {
        match self {
            Stage::Native { .. } => 5,
            Stage::Opening { .. } => 4,
            Stage::Probing { .. } => 3,
            Stage::Retrying { .. } => 2,
            Stage::Releasing { .. } => 1,
        }
    }

    /// Each step is nearer to the end than the one before, and accounts for
    /// the descriptors.
    pub proof fn lemma_step(self, reply: Reply)
        ensures
            self.next(reply).rank() < self.rank(),
            self.owned().add(acquired(self.call(), reply)) == self.next(reply).owned().add(
                released(self.call()),
            ),
    {
        assert(self.owned().add(acquired(self.call(), reply)) =~= self.next(reply).owned().add(
            released(self.call()),
        ));
    }

    /// The call to make for this step.
    pub fn awaits(&self) -> (c: Call)
        ensures
            c == self.call(),
    {
        match self {
            Stage::Native { kind } => Call::Socket { family: AF_VSOCK, kind: *kind },
            Stage::Opening { .. } => Call::OpenDevice,
            Stage::Probing { device, .. } => Call::Ioctl {
                device: *device,
                request: GET_AF_VALUE,
                value: AF_VSOCK,
            },
            Stage::Retrying { kind, af, .. } => Call::Socket { family: *af, kind: *kind },
            Stage::Releasing { device, .. } => Call::CloseDevice { device: *device },
        }
    }

    /// Takes the reply to this step's call.
    pub fn advance(self, reply: Reply) -> (r: Resolving)
        ensures
            r == self.next(reply),
    {
        match self {
            Stage::Native { kind } => match cvt(reply.ret, reply.errno) {
                Ok(s) => Resolving::Resolved(Held { s, af: AF_VSOCK, device: None }),
                Err(_) => Resolving::At(Stage::Opening { kind }),
            },
            Stage::Opening { kind } => match cvt(reply.ret, reply.errno) {
                Ok(device) => Resolving::At(Stage::Probing { kind, device }),
                Err(error) => Resolving::Failed(error),
            },
            Stage::Probing { kind, device } => match cvt(reply.ret, reply.errno) {
                Ok(_) => Resolving::At(Stage::Retrying { kind, af: reply.value, device }),
                Err(error) => Resolving::At(Stage::Releasing { device, error }),
            },
            Stage::Retrying { kind, af, device } => match cvt(reply.ret, reply.errno) {
                Ok(s) => Resolving::Resolved(Held { s, af, device: Some(device) }),
                Err(error) => Resolving::At(Stage::Releasing { device, error }),
            },
            Stage::Releasing { error, .. } => Resolving::Failed(error),
        }
    }
}

impl Resolving {
    /// How the making of the handle ended; `None` while a call is awaited.
    pub open spec fn outcome(self) -> Option<Result<Held, OsError>> {
        match self {
            Resolving::At(_) => None,
            Resolving::Resolved(held) => Some(Ok(held)),
            Resolving::Failed(error) => Some(Err(error)),
        }
    }

    /// Hands out the handle, or the error; `None` as long as a call is
    /// awaited, and only then.
    pub fn finish(self) -> (r: Option<Result<Inner, OsError>>)
        ensures
            r is Some <==> self.call() is None,
            match self.outcome() {
                None => r is None,
                Some(Err(error)) => r == Some(Err::<Inner, OsError>(error)),
                Some(Ok(held)) => r matches Some(Ok(inner)) && inner@ == held,
            },
    {
        match self {
            Resolving::At(_) => None,
            Resolving::Resolved(held) => Some(Ok(Inner::holding(held))),
            Resolving::Failed(error) => Some(Err(error)),
        }
    }
}

impl Machine for Resolving {
    open spec fn call(self) -> Option<Call> {
        match self {
            Resolving::At(stage) => Some(stage.call()),
            _ => None,
        }
    }

    open spec fn next(self, reply: Reply) -> Resolving {
        match self {
            Resolving::At(stage) => stage.next(reply),
            _ => self,
        }
    }

    open spec fn owned(self) -> Multiset<Resource> {
        match self {
            Resolving::At(stage) => stage.owned(),
            Resolving::Resolved(held) => held.resources(),
            Resolving::Failed(_) => Multiset::empty(),
        }
    }

    open spec fn rank(self) -> nat {
        match self {
            Resolving::At(stage) => stage.rank(),
            _ => 0,
        }
    }

    proof fn lemma_step(self, reply: Reply) {
        if let Resolving::At(stage) = self {
            stage.lemma_step(reply);
        }
    }

    fn awaits(&self) -> (c: Option<Call>) {
        match self {
            Resolving::At(stage) => Some(stage.awaits()),
            _ => None,
        }
    }

    fn advance(self, reply: Reply) -> (m: Resolving) {
        match self {
            Resolving::At(stage) => stage.advance(reply),
            other => other,
        }
    }
}

/// A handle being closed. The replies to its calls are not looked at.
#[derive(Debug, PartialEq, Eq)]
pub enum Closing {
    /// The socket is being closed.
    Socket { held: Held },
    /// The probe device is being closed.
    Device { device: i32 },
    /// Nothing is left open.
    Done,
}

impl Machine for Closing {
    open spec fn call(self) -> Option<Call> {
        match self {
            Closing::Socket { held } => Some(Call::Close { fd: held.s }),
            Closing::Device { device } => Some(Call::CloseDevice { device }),
            Closing::Done => None,
        }
    }

    open spec fn next(self, reply: Reply) -> Closing {
        match self {
            Closing::Socket { held } => match held.device {
                Some(device) => Closing::Device { device },
                None => Closing::Done,
            },
            _ => Closing::Done,
        }
    }

    open spec fn owned(self) -> Multiset<Resource> {
        match self {
            Closing::Socket { held } => held.resources(),
            Closing::Device { device } => Multiset::singleton(Resource::Device(device)),
            Closing::Done => Multiset::empty(),
        }
    }

    open spec fn rank(self) -> nat {
        match self {
            Closing::Socket { .. } => 2,
            Closing::Device { .. } => 1,
            Closing::Done => 0,
        }
    }

    proof fn lemma_step(self, reply: Reply) {
        if let Some(call) = self.call() {
            assert(self.owned().add(acquired(call, reply)) =~= self.next(reply).owned().add(
                released(call),
            ));
        }
    }

    fn awaits(&self) -> (c: Option<Call>) {
        match self {
            Closing::Socket { held } => Some(Call::Close { fd: held.s }),
            Closing::Device { device } => Some(Call::CloseDevice { device: *device }),
            Closing::Done => None,
        }
    }

    fn advance(self, reply: Reply) -> (m: Closing) {
        match self {
            Closing::Socket { held } => match held.device {
                Some(device) => Closing::Device { device },
                None => Closing::Done,
            },
            _ => Closing::Done,
        }
    }
}

impl Inner {
    /// Begins making a handle for a socket of the given kind.
    pub fn new(kind: i32) -> (m: Resolving)
        ensures
            m == Resolving::At(Stage::Native { kind }),
    {
        Resolving::At(Stage::Native { kind })
    }

    /// The handle of what `held` describes.
    pub(crate) fn holding(held: Held) -> (inner: Inner)
        ensures
            inner@ == held,
    {
        Inner { s: held.s, af: held.af, fd: held.device }
    }

    /// What the handle holds.
    pub fn held(&self) -> (h: Held)
        ensures
            h == self@,
    {
        Held { s: self.s, af: self.af, device: self.fd }
    }

    /// Begins closing the handle: the socket first, then the probe device
    /// if the handle kept one.
    pub fn close(self) -> (m: Closing)
        ensures
            m == (Closing::Socket { held: self@ }),
    {
        Closing::Socket { held: self.held() }
    }
}

/// What making a handle comes to, by the replies to the socket call, to the
/// opening of the device, to the question put to the device, and to the
/// second socket call. A reply whose call is never made is not looked at.
pub open spec fn resolution(native: Reply, open: Reply, probe: Reply, retry: Reply) -> Result<
    Held,
    OsError,
> {
    if native.ret >= 0 {
        Ok(Held { s: native.ret, af: AF_VSOCK, device: None })
    } else if open.ret < 0 {
        Err(OsError { code: open.errno })
    } else if probe.ret < 0 {
        Err(OsError { code: probe.errno })
    } else if retry.ret < 0 {
        Err(OsError { code: retry.errno })
    } else {
        Ok(Held { s: retry.ret, af: probe.value, device: Some(open.ret) })
    }
}

/// The calls that making a handle takes, by the same replies.
pub open spec fn resolution_calls(kind: i32, native: Reply, open: Reply, probe: Reply, retry: Reply)
    -> Seq<Call> {
    let socket = Call::Socket { family: AF_VSOCK, kind };
    let ask = Call::Ioctl { device: open.ret, request: GET_AF_VALUE, value: AF_VSOCK };
    let again = Call::Socket { family: probe.value, kind };
    let release = Call::CloseDevice { device: open.ret };
    if native.ret >= 0 {
        seq![socket]
    } else if open.ret < 0 {
        seq![socket, Call::OpenDevice]
    } else if probe.ret < 0 {
        seq![socket, Call::OpenDevice, ask, release]
    } else if retry.ret < 0 {
        seq![socket, Call::OpenDevice, ask, again, release]
    } else {
        seq![socket, Call::OpenDevice, ask, again]
    }
}

/// Five replies always bring the making of a handle to its end, with the
/// outcome and by the calls that `resolution` and `resolution_calls` give.
pub proof fn lemma_resolution(kind: i32, replies: Seq<Reply>)
    requires
        replies.len() == 5,
    ensures
        run(Resolving::At(Stage::Native { kind }), replies).outcome() == Some(
            resolution(replies[0], replies[1], replies[2], replies[3]),
        ),
        calls_along(Resolving::At(Stage::Native { kind }), replies) == resolution_calls(
            kind,
            replies[0],
            replies[1],
            replies[2],
            replies[3],
        ),
{
    let m0 = Resolving::At(Stage::Native { kind });
    let r1 = replies.drop_first();
    let r2 = r1.drop_first();
    let r3 = r2.drop_first();
    let r4 = r3.drop_first();
    let r5 = r4.drop_first();
    assert(r5.len() == 0);
    let m1 = m0.next(replies[0]);
    let m2 = m1.next(r1[0]);
    let m3 = m2.next(r2[0]);
    let m4 = m3.next(r3[0]);
    let m5 = m4.next(r4[0]);
    assert(run(m5, r5) == m5);
    assert(run(m4, r4) == m5);
    assert(run(m3, r3) == m5);
    assert(run(m2, r2) == m5);
    assert(run(m1, r1) == m5);
    assert(run(m0, replies) == m5);
    assert(calls_along(m5, r5) =~= Seq::<Call>::empty());
    assert(calls_along(m4, r4) =~= match m4.call() {
        Some(c) => seq![c],
        None => Seq::empty(),
    });
    assert(calls_along(m3, r3) =~= match m3.call() {
        Some(c) => seq![c] + calls_along(m4, r4),
        None => Seq::empty(),
    });
    assert(calls_along(m2, r2) =~= match m2.call() {
        Some(c) => seq![c] + calls_along(m3, r3),
        None => Seq::empty(),
    });
    assert(calls_along(m1, r1) =~= match m1.call() {
        Some(c) => seq![c] + calls_along(m2, r2),
        None => Seq::empty(),
    });
    assert(calls_along(m0, replies) =~= seq![m0.call().unwrap()] + calls_along(m1, r1));
    assert(calls_along(m0, replies) =~= resolution_calls(
        kind,
        replies[0],
        replies[1],
        replies[2],
        replies[3],
    ));
}

} // verus!
