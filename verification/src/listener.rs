//! A listening socket, and the connections that arrive at it.

use vstd::prelude::*;
use vstd::multiset::*;
use crate::addr::{SockaddrVm, SocketAddr};
use crate::errno::{cvt, OsError};
use crate::inner::{resolution, resolution_calls, Closing, Held, Inner, Resolving, Stage};
use crate::machine::{acquired, calls_along, released, run, Machine, Resource};
use crate::stream::VSocketStream;
use crate::sys::{stream_kind, AddrCall, AddrReply, Call, Reply, BACKLOG, VMADDR_CID_ANY};

verus! {

/// A socket that is bound to a port and listens. It owns its handle, which
/// no accepted connection ever shares; `close` uses it up.
#[derive(Debug)]
pub struct VSocketListener {
    inner: Inner,
}

impl View for VSocketListener {
    type V = Held;

    closed spec fn view(&self) -> Held {
        self.inner@
    }
}

/// A listener being set up: a handle is made, the socket is bound to the
/// port at any local address, and is told to listen. If binding or listening
/// fails, the handle is closed again.
#[derive(Debug, PartialEq, Eq)]
pub enum Binding {
    /// The handle is being made.
    Resolving { port: u32, stage: Stage },
    /// The bind call has been asked for.
    Binding { port: u32, held: Held },
    /// The listen call has been asked for.
    Listening { held: Held },
    /// The socket is being closed before `error` is reported.
    Closing { held: Held, error: OsError },
    /// The probe device is being closed before `error` is reported.
    Releasing { device: i32, error: OsError },
    /// The socket listens.
    Bound(Held),
    /// There is no listener, and nothing is left open.
    Failed(OsError),
}

impl Binding {
    /// How the setting up ended; `None` while a call is awaited.
    pub open spec fn outcome(self) -> Option<Result<Held, OsError>> {
        match self {
            Binding::Bound(held) => Some(Ok(held)),
            Binding::Failed(error) => Some(Err(error)),
            _ => None,
        }
    }

    /// Begins setting up a listener of the given kind on `port`.
    pub fn start(kind: i32, port: u32) -> (m: Binding)
        ensures
            m == (Binding::Resolving { port, stage: Stage::Native { kind } }),
    {
        Binding::Resolving { port, stage: Stage::Native { kind } }
    }

    /// Hands out the listener, or the error; `None` as long as a call is
    /// awaited, and only then.
    pub fn finish(self) -> (r: Option<Result<VSocketListener, OsError>>)
        ensures
            r is Some <==> self.call() is None,
            match self.outcome() {
                None => r is None,
                Some(Err(error)) => r == Some(Err::<VSocketListener, OsError>(error)),
                Some(Ok(held)) => r matches Some(Ok(listener)) && listener@ == held,
            },
    {
        match self {
            Binding::Bound(held) => Some(Ok(VSocketListener { inner: Inner::holding(held) })),
            Binding::Failed(error) => Some(Err(error)),
            _ => None,
        }
    }
}

impl Machine for Binding {
    open spec fn call(self) -> Option<Call> {
        match self {
            Binding::Resolving { stage, .. } => Some(stage.call()),
            Binding::Binding { port, held } => Some(
                Call::Bind { fd: held.s, addr: SockaddrVm::target(held.af, port, VMADDR_CID_ANY) },
            ),
            Binding::Listening { held } => Some(Call::Listen { fd: held.s, backlog: BACKLOG }),
            Binding::Closing { held, .. } => Some(Call::Close { fd: held.s }),
            Binding::Releasing { device, .. } => Some(Call::CloseDevice { device }),
            _ => None,
        }
    }

    open spec fn next(self, reply: Reply) -> Binding {
        match self {
            Binding::Resolving { port, stage } => match stage.next(reply) {
                Resolving::At(stage) => Binding::Resolving { port, stage },
                Resolving::Resolved(held) => Binding::Binding { port, held },
                Resolving::Failed(error) => Binding::Failed(error),
            },
            Binding::Binding { held, .. } => if reply.ret >= 0 {
                Binding::Listening { held }
            } else {
                Binding::Closing { held, error: OsError { code: reply.errno } }
            },
            Binding::Listening { held } => if reply.ret >= 0 {
                Binding::Bound(held)
            } else {
                Binding::Closing { held, error: OsError { code: reply.errno } }
            },
            Binding::Closing { held, error } => match held.device {
                Some(device) => Binding::Releasing { device, error },
                None => Binding::Failed(error),
            },
            Binding::Releasing { error, .. } => Binding::Failed(error),
            _ => self,
        }
    }

    open spec fn owned(self) -> Multiset<Resource> {
        match self {
            Binding::Resolving { stage, .. } => stage.owned(),
            Binding::Binding { held, .. } => held.resources(),
            Binding::Listening { held } => held.resources(),
            Binding::Closing { held, .. } => held.resources(),
            Binding::Releasing { device, .. } => Multiset::singleton(Resource::Device(device)),
            Binding::Bound(held) => held.resources(),
            Binding::Failed(_) => Multiset::empty(),
        }
    }

    open spec fn rank(self) -> nat {
        match self {
            Binding::Resolving { stage, .. } => stage.rank() + 4,
            Binding::Binding { .. } => 4,
            Binding::Listening { .. } => 3,
            Binding::Closing { .. } => 2,
            Binding::Releasing { .. } => 1,
            _ => 0,
        }
    }

    proof fn lemma_step(self, reply: Reply) {
        match self {
            Binding::Resolving { stage, .. } => {
                stage.lemma_step(reply);
            },
            _ => {},
        }
        if let Some(call) = self.call() {
            assert(self.owned().add(acquired(call, reply)) =~= self.next(reply).owned().add(
                released(call),
            ));
        }
    }

    fn awaits(&self) -> (c: Option<Call>) {
        match self {
            Binding::Resolving { stage, .. } => Some(stage.awaits()),
            Binding::Binding { port, held } => Some(
                Call::Bind { fd: held.s, addr: SockaddrVm::new(held.af, *port, VMADDR_CID_ANY) },
            ),
            Binding::Listening { held } => Some(Call::Listen { fd: held.s, backlog: BACKLOG }),
            Binding::Closing { held, .. } => Some(Call::Close { fd: held.s }),
            Binding::Releasing { device, .. } => Some(Call::CloseDevice { device: *device }),
            _ => None,
        }
    }

    fn advance(self, reply: Reply) -> (m: Binding) {
        match self {
            Binding::Resolving { port, stage } => match stage.advance(reply) {
                Resolving::At(stage) => Binding::Resolving { port, stage },
                Resolving::Resolved(held) => Binding::Binding { port, held },
                Resolving::Failed(error) => Binding::Failed(error),
            },
            Binding::Binding { held, .. } => match cvt(reply.ret, reply.errno) {
                Ok(_) => Binding::Listening { held },
                Err(error) => Binding::Closing { held, error },
            },
            Binding::Listening { held } => match cvt(reply.ret, reply.errno) {
                Ok(_) => Binding::Bound(held),
                Err(error) => Binding::Closing { held, error },
            },
            Binding::Closing { held, error } => match held.device {
                Some(device) => Binding::Releasing { device, error },
                None => Binding::Failed(error),
            },
            Binding::Releasing { error, .. } => Binding::Failed(error),
            other => other,
        }
    }
}

/// What a listener that holds `listener` makes of the reply to an accept
/// call: the handle of the new connection, or the error. The new handle has
/// the descriptor that the call returned and the listener's value of the
/// address family; it keeps no probe device.
pub open spec fn accepted(listener: Held, reply: AddrReply) -> Result<Held, OsError> {
    if reply.ret < 0 {
        Err(OsError { code: reply.errno })
    } else {
        Ok(Held { s: reply.ret, af: listener.af, device: None })
    }
}

impl VSocketListener {
    /// What the listener's handle holds.
    pub fn held(&self) -> (h: Held)
        ensures
            h == self@,
    {
        self.inner.held()
    }

    /// Begins setting up a listener for stream sockets on `port`. The kind
    /// of such a socket is the platform's; all else is as `Binding::start`
    /// says.
    pub fn bind(port: u32) -> (m: Binding)
        ensures
            m matches Binding::Resolving { port: p, stage: Stage::Native { .. } } && p == port,
    {
        Binding::start(stream_kind(), port)
    }

    /// The call that waits for a connection to arrive.
    pub fn accept_call(&self) -> (c: AddrCall)
        ensures
            c == self@.accept_call(),
    {
        AddrCall::Accept { fd: self.inner.held().s }
    }

    /// Reads the reply to `accept_call`: the new connection and the address
    /// of its other end, or the error. The listener is as it was either
    /// way.
    pub fn accept(&self, reply: AddrReply) -> (r: Result<(VSocketStream, SocketAddr), OsError>)
        ensures
            match accepted(self@, reply) {
                Err(error) => r == Err::<(VSocketStream, SocketAddr), OsError>(error),
                Ok(held) => r matches Ok((stream, addr)) && stream@ == held && addr.reports(reply),
            },
    {
        let addr = SocketAddr::new(reply)?;
        let held = Held { s: reply.ret, af: self.inner.held().af, device: None };
        Ok((VSocketStream::holding(held), addr))
    }

    /// The call that asks for the listener's own address.
    pub fn local_addr_call(&self) -> (c: AddrCall)
        ensures
            c == self@.local_addr_call(),
    {
        AddrCall::GetSockName { fd: self.inner.held().s }
    }

    /// Reads the reply to `local_addr_call`.
    pub fn local_addr(&self, reply: AddrReply) -> (r: Result<SocketAddr, OsError>)
        ensures
            reply.ret < 0 ==> r == Err::<SocketAddr, OsError>(OsError { code: reply.errno }),
            reply.ret >= 0 ==> r is Ok && r->Ok_0.reports(reply),
    {
        SocketAddr::new(reply)
    }

    /// The connections that arrive, one after the other, without end.
    pub fn incoming<'a>(&'a self) -> (incoming: Incoming<'a>)
        ensures
            incoming@ == self@,
    {
        Incoming { listener: self }
    }

    /// Begins closing the listener.
    pub fn close(self) -> (m: Closing)
        ensures
            m == (Closing::Socket { held: self@ }),
    {
        self.inner.close()
    }
}

/// The connections that arrive at a listener: each advance is one accept.
/// The sequence never ends by itself; whoever walks it has to stop.
#[derive(Debug)]
pub struct Incoming<'a> {
    listener: &'a VSocketListener,
}

impl<'a> View for Incoming<'a> {
    type V = Held;

    closed spec fn view(&self) -> Held {
        self.listener@
    }
}

impl<'a> Incoming<'a> {
    /// The call to make before each advance: an accept on the listener.
    pub fn call(&self) -> (c: AddrCall)
        ensures
            c == self@.accept_call(),
    {
        self.listener.accept_call()
    }

    /// Reads the reply to an accept call: always an item, the connection
    /// or the error. The sequence is as it was.
    pub fn next(&mut self, reply: AddrReply) -> (item: Option<Result<VSocketStream, OsError>>)
        ensures
            final(self)@ == old(self)@,
            match accepted(old(self)@, reply) {
                Err(error) => item == Some(Err::<VSocketStream, OsError>(error)),
                Ok(held) => item matches Some(Ok(stream)) && stream@ == held,
            },
    {
        match self.listener.accept(reply) {
            Ok(pair) => Some(Ok(pair.0)),
            Err(error) => Some(Err(error)),
        }
    }

    /// The number of items left: more than can be counted.
    pub fn size_hint(&self) -> (hint: (usize, Option<usize>))
        ensures
            hint == (usize::MAX, None::<usize>),
    {
        (usize::MAX, None)
    }
}

/// What setting up a listener comes to, by what the making of the handle
/// came to and by the replies to the bind and the listen call. A reply whose
/// call is never made is not looked at.
pub open spec fn listening(made: Result<Held, OsError>, bind: Reply, listen: Reply) -> Result<
    Held,
    OsError,
> {
    match made {
        Err(error) => Err(error),
        Ok(held) => if bind.ret < 0 {
            Err(OsError { code: bind.errno })
        } else if listen.ret < 0 {
            Err(OsError { code: listen.errno })
        } else {
            Ok(held)
        },
    }
}

/// The calls that setting up a listener takes once the making of the handle
/// has ended: none without a handle; else the bind call to `port` at any
/// local address, after a successful one the listen call with a backlog of
/// one, and after a failed one of the two the calls that close the handle.
pub open spec fn listening_calls(
    port: u32,
    made: Result<Held, OsError>,
    bind: Reply,
    listen: Reply,
) -> Seq<Call> {
    match made {
        Err(_) => Seq::empty(),
        Ok(held) => {
            let to_bind = Call::Bind {
                fd: held.s,
                addr: SockaddrVm::target(held.af, port, VMADDR_CID_ANY),
            };
            let to_listen = Call::Listen { fd: held.s, backlog: 1 };
            if bind.ret < 0 {
                seq![to_bind] + held.closing_calls()
            } else if listen.ret < 0 {
                seq![to_bind, to_listen] + held.closing_calls()
            } else {
                seq![to_bind, to_listen]
            }
        },
    }
}

/// Nine replies always bring the setting up of a listener to its end. It
/// makes the calls of making a handle, then those of `listening_calls`, and
/// comes to what `listening` gives; the replies to the bind and the listen
/// call are the two that follow the replies that making the handle took.
pub proof fn lemma_listening(kind: i32, port: u32, replies: Seq<Reply>)
    requires
        replies.len() == 9,
    ensures
        ({
            let made = resolution(replies[0], replies[1], replies[2], replies[3]);
            let first = resolution_calls(kind, replies[0], replies[1], replies[2], replies[3]);
            let start = Binding::Resolving { port, stage: Stage::Native { kind } };
            let bind = replies[first.len() as int];
            let listen = replies[first.len() as int + 1];
            &&& first.len() <= 5
            &&& run(start, replies).outcome() == Some(listening(made, bind, listen))
            &&& calls_along(start, replies) == first + listening_calls(port, made, bind, listen)
        }),
{
    let made = resolution(replies[0], replies[1], replies[2], replies[3]);
    let first = resolution_calls(kind, replies[0], replies[1], replies[2], replies[3]);
    let bind = replies[first.len() as int];
    let listen = replies[first.len() as int + 1];
    let m0 = Binding::Resolving { port, stage: Stage::Native { kind } };
    let r0 = replies;
    let r1 = r0.drop_first();
    let m1 = m0.next(r0[0]);
    let r2 = r1.drop_first();
    let m2 = m1.next(r1[0]);
    let r3 = r2.drop_first();
    let m3 = m2.next(r2[0]);
    let r4 = r3.drop_first();
    let m4 = m3.next(r3[0]);
    let r5 = r4.drop_first();
    let m5 = m4.next(r4[0]);
    let r6 = r5.drop_first();
    let m6 = m5.next(r5[0]);
    let r7 = r6.drop_first();
    let m7 = m6.next(r6[0]);
    let r8 = r7.drop_first();
    let m8 = m7.next(r7[0]);
    let r9 = r8.drop_first();
    let m9 = m8.next(r8[0]);
    assert(r9.len() == 0);
    assert(run(m9, r9) == m9);
    assert(calls_along(m9, r9) =~= Seq::<Call>::empty());
    assert(run(m8, r8) == m9);
    assert(calls_along(m8, r8) =~= match m8.call() {
        Some(c) => seq![c] + calls_along(m9, r9),
        None => Seq::empty(),
    });
    assert(run(m7, r7) == m9);
    assert(calls_along(m7, r7) =~= match m7.call() {
        Some(c) => seq![c] + calls_along(m8, r8),
        None => Seq::empty(),
    });
    assert(run(m6, r6) == m9);
    assert(calls_along(m6, r6) =~= match m6.call() {
        Some(c) => seq![c] + calls_along(m7, r7),
        None => Seq::empty(),
    });
    assert(run(m5, r5) == m9);
    assert(calls_along(m5, r5) =~= match m5.call() {
        Some(c) => seq![c] + calls_along(m6, r6),
        None => Seq::empty(),
    });
    assert(run(m4, r4) == m9);
    assert(calls_along(m4, r4) =~= match m4.call() {
        Some(c) => seq![c] + calls_along(m5, r5),
        None => Seq::empty(),
    });
    assert(run(m3, r3) == m9);
    assert(calls_along(m3, r3) =~= match m3.call() {
        Some(c) => seq![c] + calls_along(m4, r4),
        None => Seq::empty(),
    });
    assert(run(m2, r2) == m9);
    assert(calls_along(m2, r2) =~= match m2.call() {
        Some(c) => seq![c] + calls_along(m3, r3),
        None => Seq::empty(),
    });
    assert(run(m1, r1) == m9);
    assert(calls_along(m1, r1) =~= match m1.call() {
        Some(c) => seq![c] + calls_along(m2, r2),
        None => Seq::empty(),
    });
    assert(run(m0, r0) == m9);
    assert(calls_along(m0, r0) =~= match m0.call() {
        Some(c) => seq![c] + calls_along(m1, r1),
        None => Seq::empty(),
    });
    assert(calls_along(m0, r0) =~= first + listening_calls(port, made, bind, listen));
}

} // verus!
