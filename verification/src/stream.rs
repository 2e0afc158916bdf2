//! A connected socket: a channel of bytes in both directions.

use vstd::prelude::*;
use vstd::multiset::*;
use crate::addr::{SockaddrVm, SocketAddr};
use crate::errno::{cvt, cvt_s, OsError};
use crate::inner::{resolution, resolution_calls, Closing, Held, Inner, Resolving, Stage};
use crate::machine::{acquired, calls_along, released, run, Machine, Resource};
use crate::sys::{
    stream_kind, AddrCall, AddrReply, Call, IoCall, IoReply, Reply, SO_VM_SOCKETS_PEER_HOST_VM_ID,
    VMADDR_CID_HOST,
};

verus! {

/// A connected socket. It owns its handle; `close` uses it up.
#[derive(Debug)]
pub struct VSocketStream {
    inner: Inner,
}

impl View for VSocketStream {
    type V = Held;

    closed spec fn view(&self) -> Held {
        self.inner@
    }
}

/// A client's connection being made: a handle is made, then the socket is
/// connected to the host. If that fails the handle is closed again.
#[derive(Debug, PartialEq, Eq)]
pub enum Connecting {
    /// The handle is being made.
    Resolving { port: u32, stage: Stage },
    /// The connect call has been asked for.
    Dialing { port: u32, held: Held },
    /// The socket is being closed before `error` is reported.
    Closing { held: Held, error: OsError },
    /// The probe device is being closed before `error` is reported.
    Releasing { device: i32, error: OsError },
    /// The socket is connected.
    Connected(Held),
    /// There is no connection, and nothing is left open.
    Failed(OsError),
}

impl Connecting {
    /// How connecting ended; `None` while a call is awaited.
    pub open spec fn outcome(self) -> Option<Result<Held, OsError>> {
        match self {
            Connecting::Connected(held) => Some(Ok(held)),
            Connecting::Failed(error) => Some(Err(error)),
            _ => None,
        }
    }

    /// Begins connecting a socket of the given kind to `port` on the host.
    pub fn start(kind: i32, port: u32) -> (m: Connecting)
        ensures
            m == (Connecting::Resolving { port, stage: Stage::Native { kind } }),
    {
        Connecting::Resolving { port, stage: Stage::Native { kind } }
    }

    /// Hands out the stream, or the error; `None` as long as a call is
    /// awaited, and only then.
    pub fn finish(self) -> (r: Option<Result<VSocketStream, OsError>>)
        ensures
            r is Some <==> self.call() is None,
            match self.outcome() {
                None => r is None,
                Some(Err(error)) => r == Some(Err::<VSocketStream, OsError>(error)),
                Some(Ok(held)) => r matches Some(Ok(stream)) && stream@ == held,
            },
    {
        match self {
            Connecting::Connected(held) => Some(Ok(VSocketStream::holding(held))),
            Connecting::Failed(error) => Some(Err(error)),
            _ => None,
        }
    }
}

impl Machine for Connecting {
    open spec fn call(self) -> Option<Call> {
        match self {
            Connecting::Resolving { stage, .. } => Some(stage.call()),
            Connecting::Dialing { port, held } => Some(
                Call::Connect {
                    fd: held.s,
                    addr: SockaddrVm::target(held.af, port, VMADDR_CID_HOST),
                },
            ),
            Connecting::Closing { held, .. } => Some(Call::Close { fd: held.s }),
            Connecting::Releasing { device, .. } => Some(Call::CloseDevice { device }),
            _ => None,
        }
    }

    open spec fn next(self, reply: Reply) -> Connecting {
        match self {
            Connecting::Resolving { port, stage } => match stage.next(reply) {
                Resolving::At(stage) => Connecting::Resolving { port, stage },
                Resolving::Resolved(held) => Connecting::Dialing { port, held },
                Resolving::Failed(error) => Connecting::Failed(error),
            },
            Connecting::Dialing { held, .. } => if reply.ret >= 0 {
                Connecting::Connected(held)
            } else {
                Connecting::Closing { held, error: OsError { code: reply.errno } }
            },
            Connecting::Closing { held, error } => match held.device {
                Some(device) => Connecting::Releasing { device, error },
                None => Connecting::Failed(error),
            },
            Connecting::Releasing { error, .. } => Connecting::Failed(error),
            _ => self,
        }
    }

    open spec fn owned(self) -> Multiset<Resource> {
        match self {
            Connecting::Resolving { stage, .. } => stage.owned(),
            Connecting::Dialing { held, .. } => held.resources(),
            Connecting::Closing { held, .. } => held.resources(),
            Connecting::Releasing { device, .. } => Multiset::singleton(Resource::Device(device)),
            Connecting::Connected(held) => held.resources(),
            Connecting::Failed(_) => Multiset::empty(),
        }
    }

    open spec fn rank(self) -> nat {
        match self {
            Connecting::Resolving { stage, .. } => stage.rank() + 3,
            Connecting::Dialing { .. } => 3,
            Connecting::Closing { .. } => 2,
            Connecting::Releasing { .. } => 1,
            _ => 0,
        }
    }

    proof fn lemma_step(self, reply: Reply) {
        match self {
            Connecting::Resolving { stage, .. } => {
                stage.lemma_step(reply);
            },
            _ => {},
        }
        if let Some(call) = self.call() {
            assert(self.owned().add(acquired(call, reply)) =~= self.next(reply).owned().add(
                released(call),
            ));
        }
    }

    fn awaits(&self) -> (c: Option<Call>) {
        match self {
            Connecting::Resolving { stage, .. } => Some(stage.awaits()),
            Connecting::Dialing { port, held } => Some(
                Call::Connect {
                    fd: held.s,
                    addr: SockaddrVm::new(held.af, *port, VMADDR_CID_HOST),
                },
            ),
            Connecting::Closing { held, .. } => Some(Call::Close { fd: held.s }),
            Connecting::Releasing { device, .. } => Some(Call::CloseDevice { device: *device }),
            _ => None,
        }
    }

    fn advance(self, reply: Reply) -> (m: Connecting) {
        match self {
            Connecting::Resolving { port, stage } => match stage.advance(reply) {
                Resolving::At(stage) => Connecting::Resolving { port, stage },
                Resolving::Resolved(held) => Connecting::Dialing { port, held },
                Resolving::Failed(error) => Connecting::Failed(error),
            },
            Connecting::Dialing { held, .. } => match cvt(reply.ret, reply.errno) {
                Ok(_) => Connecting::Connected(held),
                Err(error) => Connecting::Closing { held, error },
            },
            Connecting::Closing { held, error } => match held.device {
                Some(device) => Connecting::Releasing { device, error },
                None => Connecting::Failed(error),
            },
            Connecting::Releasing { error, .. } => Connecting::Failed(error),
            other => other,
        }
    }
}

/// What the reply to the question for the peer's virtual machine means: the
/// identifier that the call wrote, or the error of a call that failed.
pub open spec fn peer_identity(reply: Reply) -> Result<i32, OsError> {
    if reply.ret < 0 {
        Err(OsError { code: reply.errno })
    } else {
        Ok(reply.value)
    }
}

/// What a transfer's reply means: the number of bytes moved, or the error.
pub open spec fn transferred(reply: IoReply) -> Result<usize, OsError> {
    if reply.ret < 0 {
        Err(OsError { code: reply.errno })
    } else {
        Ok(reply.ret as usize)
    }
}

impl VSocketStream {
    /// The stream of what `held` describes.
    pub(crate) fn holding(held: Held) -> (stream: VSocketStream)
        ensures
            stream@ == held,
    {
        VSocketStream { inner: Inner::holding(held) }
    }

    /// What the stream's handle holds.
    pub fn held(&self) -> (h: Held)
        ensures
            h == self@,
    {
        self.inner.held()
    }

    /// Begins connecting a stream socket to `port` on the host. The kind of
    /// such a socket is the platform's; all else is as `Connecting::start`
    /// says.
    pub fn connect(port: u32) -> (m: Connecting)
        ensures
            m matches Connecting::Resolving { port: p, stage: Stage::Native { .. } } && p == port,
    {
        Connecting::start(stream_kind(), port)
    }

    /// The call that asks for the socket's own address.
    pub fn local_addr_call(&self) -> (c: AddrCall)
        ensures
            c == self@.local_addr_call(),
    {
        AddrCall::GetSockName { fd: self.inner.held().s }
    }

    /// Reads the reply to `local_addr_call`.
    pub fn local_addr(&self, reply: AddrReply) -> (r: Result<SocketAddr, OsError>)
        ensures
            reply.ret < 0 ==> r == Err::<SocketAddr, OsError>(OsError { code: reply.errno }),
            reply.ret >= 0 ==> r is Ok && r->Ok_0.reports(reply),
    {
        SocketAddr::new(reply)
    }

    /// The call that asks for the address of the other end.
    pub fn peer_addr_call(&self) -> (c: AddrCall)
        ensures
            c == self@.peer_addr_call(),
    {
        AddrCall::GetPeerName { fd: self.inner.held().s }
    }

    /// Reads the reply to `peer_addr_call`.
    pub fn peer_addr(&self, reply: AddrReply) -> (r: Result<SocketAddr, OsError>)
        ensures
            reply.ret < 0 ==> r == Err::<SocketAddr, OsError>(OsError { code: reply.errno }),
            reply.ret >= 0 ==> r is Ok && r->Ok_0.reports(reply),
    {
        SocketAddr::new(reply)
    }

    /// The call that asks which virtual machine owns the other end: a socket
    /// option at the level of the handle's address family.
    pub fn peer_host_vm_id_call(&self) -> (c: Call)
        ensures
            c == self@.peer_host_vm_id_call(),
    {
        let held = self.inner.held();
        Call::GetSockOpt { fd: held.s, level: held.af, name: SO_VM_SOCKETS_PEER_HOST_VM_ID }
    }

    /// Reads the reply to `peer_host_vm_id_call`: the identifier that the
    /// call wrote, or the error of a call that failed. No identifier is
    /// made up.
    pub fn peer_host_vm_id(&self, reply: Reply) -> (r: Result<i32, OsError>)
        ensures
            r == peer_identity(reply),
    {
        match cvt(reply.ret, reply.errno) {
            Ok(_) => Ok(reply.value),
            Err(error) => Err(error),
        }
    }

    /// The call that receives up to `len` bytes into the caller's buffer. It
    /// blocks until bytes have come or the other end has shut down.
    pub fn read_call(&self, len: usize) -> (c: IoCall)
        ensures
            c == self@.read_call(len),
    {
        IoCall::Recv { fd: self.inner.held().s, len }
    }

    /// Reads the reply to `read_call`: the number of bytes received, zero
    /// after the other end has shut down in order.
    pub fn read(&self, reply: IoReply) -> (r: Result<usize, OsError>)
        ensures
            r == transferred(reply),
    {
        match cvt_s(reply.ret, reply.errno) {
            Ok(n) => Ok(n as usize),
            Err(error) => Err(error),
        }
    }

    /// The call that sends up to `len` bytes of the caller's buffer.
    pub fn write_call(&self, len: usize) -> (c: IoCall)
        ensures
            c == self@.write_call(len),
    {
        IoCall::Send { fd: self.inner.held().s, len }
    }

    /// Reads the reply to `write_call`: the number of bytes sent, which may
    /// be fewer than were offered.
    pub fn write(&self, reply: IoReply) -> (r: Result<usize, OsError>)
        ensures
            r == transferred(reply),
    {
        match cvt_s(reply.ret, reply.errno) {
            Ok(n) => Ok(n as usize),
            Err(error) => Err(error),
        }
    }

    /// Nothing is buffered, so there is nothing to flush.
    pub fn flush(&self) -> (r: Result<(), OsError>)
        ensures
            r == Ok::<(), OsError>(()),
    {
        Ok(())
    }

    /// Begins closing the stream.
    pub fn close(self) -> (m: Closing)
        ensures
            m == (Closing::Socket { held: self@ }),
    {
        self.inner.close()
    }
}

/// What connecting comes to, by what the making of the handle came to and by
/// the reply to the connect call. That reply is looked at only if a handle
/// was made.
pub open spec fn connection(made: Result<Held, OsError>, dial: Reply) -> Result<Held, OsError> {
    match made {
        Err(error) => Err(error),
        Ok(held) => if dial.ret >= 0 {
            Ok(held)
        } else {
            Err(OsError { code: dial.errno })
        },
    }
}

/// The calls that connecting takes once the making of the handle has ended:
/// none without a handle; else the connect call to `port` on the host, and
/// after a failed one the calls that close the handle.
pub open spec fn connection_calls(port: u32, made: Result<Held, OsError>, dial: Reply) -> Seq<
    Call,
> {
    match made {
        Err(_) => Seq::empty(),
        Ok(held) => {
            let connect = Call::Connect {
                fd: held.s,
                addr: SockaddrVm::target(held.af, port, VMADDR_CID_HOST),
            };
            if dial.ret >= 0 {
                seq![connect]
            } else {
                seq![connect] + held.closing_calls()
            }
        },
    }
}

/// Eight replies always bring connecting to its end. It makes the calls of
/// making a handle, then those of `connection_calls`, and comes to what
/// `connection` gives; the reply to the connect call is the one that
/// follows the replies that making the handle took.
pub proof fn lemma_connection(kind: i32, port: u32, replies: Seq<Reply>)
    requires
        replies.len() == 8,
    ensures
        ({
            let made = resolution(replies[0], replies[1], replies[2], replies[3]);
            let first = resolution_calls(kind, replies[0], replies[1], replies[2], replies[3]);
            let start = Connecting::Resolving { port, stage: Stage::Native { kind } };
            let dial = replies[first.len() as int];
            &&& first.len() <= 5
            &&& run(start, replies).outcome() == Some(connection(made, dial))
            &&& calls_along(start, replies) == first + connection_calls(port, made, dial)
        }),
{
    let made = resolution(replies[0], replies[1], replies[2], replies[3]);
    let first = resolution_calls(kind, replies[0], replies[1], replies[2], replies[3]);
    let dial = replies[first.len() as int];
    let m0 = Connecting::Resolving { port, stage: Stage::Native { kind } };
    let r0 = replies;
    let r1 = r0.drop_first();
    let m1 = m0.next(r0[0]);
    let r2 = r1.drop_first();
    let m2 = m1.next(r1[0]);
    let r3 = r2.drop_first();
    let m3 = m2.next(r2[0]);
    let r4 = r3.drop_first();
    let m4 = m3.next(r3[0]);
    let r5 = r4.drop_first();
    let m5 = m4.next(r4[0]);
    let r6 = r5.drop_first();
    let m6 = m5.next(r5[0]);
    let r7 = r6.drop_first();
    let m7 = m6.next(r6[0]);
    let r8 = r7.drop_first();
    let m8 = m7.next(r7[0]);
    assert(r8.len() == 0);
    assert(run(m8, r8) == m8);
    assert(calls_along(m8, r8) =~= Seq::<Call>::empty());
    assert(run(m7, r7) == m8);
    assert(calls_along(m7, r7) =~= match m7.call() {
        Some(c) => seq![c] + calls_along(m8, r8),
        None => Seq::empty(),
    });
    assert(run(m6, r6) == m8);
    assert(calls_along(m6, r6) =~= match m6.call() {
        Some(c) => seq![c] + calls_along(m7, r7),
        None => Seq::empty(),
    });
    assert(run(m5, r5) == m8);
    assert(calls_along(m5, r5) =~= match m5.call() {
        Some(c) => seq![c] + calls_along(m6, r6),
        None => Seq::empty(),
    });
    assert(run(m4, r4) == m8);
    assert(calls_along(m4, r4) =~= match m4.call() {
        Some(c) => seq![c] + calls_along(m5, r5),
        None => Seq::empty(),
    });
    assert(run(m3, r3) == m8);
    assert(calls_along(m3, r3) =~= match m3.call() {
        Some(c) => seq![c] + calls_along(m4, r4),
        None => Seq::empty(),
    });
    assert(run(m2, r2) == m8);
    assert(calls_along(m2, r2) =~= match m2.call() {
        Some(c) => seq![c] + calls_along(m3, r3),
        None => Seq::empty(),
    });
    assert(run(m1, r1) == m8);
    assert(calls_along(m1, r1) =~= match m1.call() {
        Some(c) => seq![c] + calls_along(m2, r2),
        None => Seq::empty(),
    });
    assert(run(m0, r0) == m8);
    assert(calls_along(m0, r0) =~= match m0.call() {
        Some(c) => seq![c] + calls_along(m1, r1),
        None => Seq::empty(),
    });
    assert(calls_along(m0, r0) =~= first + connection_calls(port, made, dial));
}

} // verus!
