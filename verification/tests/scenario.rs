use vmci::{
    AddrCall, AddrReply, Call, Held, IoCall, IoReply, Machine, OsError, Reply, SockaddrVm,
    VSocketListener, VSocketStream,
};

const EBADF: i32 = 9;
const EAGAIN: i32 = 11;
const EMFILE: i32 = 24;
const ENOENT: i32 = 2;
const ENOPROTOOPT: i32 = 92;
const EAFNOSUPPORT: i32 = 97;
const EADDRINUSE: i32 = 98;
const ENOTCONN: i32 = 107;
const ECONNREFUSED: i32 = 111;

/// The value of the address family that the pretended device gives out.
const PROBED_FAMILY: i32 = 53;

#[derive(Clone)]
struct Endpoint {
    family: i32,
    local: SockaddrVm,
    remote: Option<SockaddrVm>,
    peer: Option<i32>,
    listening: bool,
    waiting: Vec<i32>,
    inbox: Vec<u8>,
    vm_id: Option<i32>,
}

#[derive(Clone)]
enum Slot {
    Free,
    Device,
    Socket(Endpoint),
}

/// An operating system made of tables: enough of one to answer the calls
/// that the library asks for, in one thread.
struct Kernel {
    native: bool,
    slots: Vec<Slot>,
    chunk: usize,
    closes: Vec<i32>,
}

impl Kernel {
    fn new(native: bool, descriptors: usize) -> Kernel {
        Kernel { native, slots: vec![Slot::Free; descriptors], chunk: usize::MAX, closes: Vec::new() }
    }

    fn open_count(&self) -> usize {
        self.slots.iter().filter(|s| !matches!(s, Slot::Free)).count()
    }

    fn allot(&mut self, slot: Slot) -> Reply {
        for fd in 0..self.slots.len() {
            if matches!(self.slots[fd], Slot::Free) {
                self.slots[fd] = slot;
                return Reply { ret: fd as i32, errno: 0, value: 0 };
            }
        }
        Reply { ret: -1, errno: EMFILE, value: 0 }
    }

    fn socket(&mut self, fd: i32) -> Option<&mut Endpoint> {
        match self.slots.get_mut(fd as usize) {
            Some(Slot::Socket(e)) => Some(e),
            _ => None,
        }
    }

    fn device_is_open(&self) -> bool {
        self.slots.iter().any(|s| matches!(s, Slot::Device))
    }

    fn fail(errno: i32) -> Reply {
        Reply { ret: -1, errno, value: 0 }
    }

    fn perform(&mut self, call: &Call) -> Reply {
        match *call {
            Call::Socket { family, .. } => {
                let known = if self.native {
                    family == 40
                } else {
                    family == PROBED_FAMILY && self.device_is_open()
                };
                if !known {
                    return Kernel::fail(EAFNOSUPPORT);
                }
                self.allot(Slot::Socket(Endpoint {
                    family,
                    local: SockaddrVm::new(family, 0, 3),
                    remote: None,
                    peer: None,
                    listening: false,
                    waiting: Vec::new(),
                    inbox: Vec::new(),
                    vm_id: None,
                }))
            }
            Call::OpenDevice => {
                if self.native {
                    Kernel::fail(ENOENT)
                } else {
                    self.allot(Slot::Device)
                }
            }
            Call::Ioctl { device, request, value } => {
                match self.slots.get(device as usize) {
                    Some(Slot::Device) if request == 0x7b8 => {
                        Reply { ret: 0, errno: 0, value: PROBED_FAMILY }
                    }
                    _ => Reply { ret: -1, errno: EBADF, value },
                }
            }
            Call::Bind { fd, addr } => {
                let taken = self.slots.iter().any(
                    |s| matches!(s, Slot::Socket(e) if e.listening && e.local.port == addr.port),
                );
                match self.socket(fd) {
                    None => Kernel::fail(EBADF),
                    Some(_) if taken => Kernel::fail(EADDRINUSE),
                    Some(e) => {
                        e.local = SockaddrVm { cid: 2, ..addr };
                        Reply { ret: 0, errno: 0, value: 0 }
                    }
                }
            }
            Call::Listen { fd, .. } => match self.socket(fd) {
                None => Kernel::fail(EBADF),
                Some(e) => {
                    e.listening = true;
                    Reply { ret: 0, errno: 0, value: 0 }
                }
            },
            Call::Connect { fd, addr } => {
                let listener = self.slots.iter().position(
                    |s| matches!(s, Slot::Socket(e) if e.listening && e.local.port == addr.port),
                );
                let (listener, client) = match (listener, self.socket(fd)) {
                    (_, None) => return Kernel::fail(EBADF),
                    (None, Some(_)) => return Kernel::fail(ECONNREFUSED),
                    (Some(l), Some(c)) => (l as i32, c.clone()),
                };
                let local = self.socket(listener).unwrap().local;
                let served = self.allot(Slot::Socket(Endpoint {
                    family: client.family,
                    local,
                    remote: Some(SockaddrVm { port: 1024 + fd as u32, ..client.local }),
                    peer: Some(fd),
                    listening: false,
                    waiting: Vec::new(),
                    inbox: Vec::new(),
                    vm_id: Some(70000 + fd),
                }));
                if served.ret < 0 {
                    return served;
                }
                self.socket(listener).unwrap().waiting.push(served.ret);
                let c = self.socket(fd).unwrap();
                c.local.port = 1024 + fd as u32;
                c.remote = Some(local);
                c.peer = Some(served.ret);
                Reply { ret: 0, errno: 0, value: 0 }
            }
            Call::GetSockOpt { fd, level, name } => match self.socket(fd) {
                None => Kernel::fail(EBADF),
                Some(e) => match e.vm_id {
                    Some(id) if level == e.family && name == 3 => {
                        Reply { ret: 0, errno: 0, value: id }
                    }
                    _ => Kernel::fail(ENOPROTOOPT),
                },
            },
            Call::Close { fd } => {
                self.closes.push(fd);
                match self.slots.get(fd as usize) {
                    Some(Slot::Socket(_)) => {
                        self.slots[fd as usize] = Slot::Free;
                        Reply { ret: 0, errno: 0, value: 0 }
                    }
                    _ => Kernel::fail(EBADF),
                }
            }
            Call::CloseDevice { device } => {
                self.closes.push(device);
                match self.slots.get(device as usize) {
                    Some(Slot::Device) => {
                        self.slots[device as usize] = Slot::Free;
                        Reply { ret: 0, errno: 0, value: 0 }
                    }
                    _ => Kernel::fail(EBADF),
                }
            }
        }
    }

    fn report(&mut self, call: &AddrCall) -> AddrReply {
        let failed =
            |errno: i32| AddrReply { ret: -1, errno, addr: SockaddrVm::zeroed(), len: 16 };
        match *call {
            AddrCall::Accept { fd } => {
                let next = match self.socket(fd) {
                    None => return failed(EBADF),
                    Some(e) if e.waiting.is_empty() => return failed(EAGAIN),
                    Some(e) => e.waiting.remove(0),
                };
                let remote = self.socket(next).unwrap().remote.unwrap();
                AddrReply { ret: next, errno: 0, addr: remote, len: 16 }
            }
            AddrCall::GetSockName { fd } => match self.socket(fd) {
                None => failed(EBADF),
                Some(e) => AddrReply { ret: 0, errno: 0, addr: e.local, len: 16 },
            },
            AddrCall::GetPeerName { fd } => match self.socket(fd) {
                None => failed(EBADF),
                Some(e) => match e.remote {
                    None => failed(ENOTCONN),
                    Some(addr) => AddrReply { ret: 0, errno: 0, addr, len: 16 },
                },
            },
        }
    }

    fn send(&mut self, call: &IoCall, data: &[u8]) -> IoReply {
        let (fd, len) = match *call {
            IoCall::Send { fd, len } => (fd, len),
            IoCall::Recv { .. } => return IoReply { ret: -1, errno: EBADF },
        };
        let peer = match self.socket(fd) {
            None => return IoReply { ret: -1, errno: EBADF },
            Some(e) => e.peer,
        };
        let n = len.min(data.len()).min(self.chunk);
        match peer.and_then(|p| self.socket(p)) {
            None => IoReply { ret: -1, errno: ENOTCONN },
            Some(p) => {
                p.inbox.extend_from_slice(&data[..n]);
                IoReply { ret: n as isize, errno: 0 }
            }
        }
    }

    fn recv(&mut self, call: &IoCall, buffer: &mut [u8]) -> IoReply {
        let (fd, len) = match *call {
            IoCall::Recv { fd, len } => (fd, len),
            IoCall::Send { .. } => return IoReply { ret: -1, errno: EBADF },
        };
        let chunk = self.chunk;
        match self.socket(fd) {
            None => IoReply { ret: -1, errno: EBADF },
            Some(e) => {
                let n = len.min(buffer.len()).min(e.inbox.len()).min(chunk);
                let moved: Vec<u8> = e.inbox.drain(..n).collect();
                buffer[..n].copy_from_slice(&moved);
                IoReply { ret: n as isize, errno: 0 }
            }
        }
    }

    fn drive<M: Machine>(&mut self, mut m: M) -> M {
        loop {
            match m.awaits() {
                Some(call) => m = m.advance(self.perform(&call)),
                None => return m,
            }
        }
    }

    fn connect(&mut self, port: u32) -> Result<VSocketStream, OsError> {
        self.drive(VSocketStream::connect(port)).finish().unwrap()
    }

    fn bind(&mut self, port: u32) -> Result<VSocketListener, OsError> {
        self.drive(VSocketListener::bind(port)).finish().unwrap()
    }

    fn accept(&mut self, listener: &VSocketListener) -> Result<VSocketStream, OsError> {
        let reply = self.report(&listener.accept_call());
        listener.accept(reply).map(|pair| pair.0)
    }

    fn write(&mut self, stream: &VSocketStream, data: &[u8]) -> Result<usize, OsError> {
        let reply = self.send(&stream.write_call(data.len()), data);
        stream.write(reply)
    }

    fn read(&mut self, stream: &VSocketStream, buffer: &mut [u8]) -> Result<usize, OsError> {
        let reply = self.recv(&stream.read_call(buffer.len()), buffer);
        stream.read(reply)
    }

    fn write_all(&mut self, stream: &VSocketStream, data: &[u8]) {
        let mut done = 0;
        while done < data.len() {
            done += self.write(stream, &data[done..]).unwrap();
        }
    }

    fn read_exact(&mut self, stream: &VSocketStream, buffer: &mut [u8]) {
        let mut done = 0;
        while done < buffer.len() {
            let n = self.read(stream, &mut buffer[done..]).unwrap();
            assert!(n > 0);
            done += n;
        }
    }
}

fn ping_pong(kernel: &mut Kernel) {
    let listener = kernel.bind(15000).unwrap();
    let client = kernel.connect(15000).unwrap();
    let server = kernel.accept(&listener).unwrap();

    assert_eq!(kernel.write(&client, b"ping"), Ok(4));
    let mut buffer = [0u8; 4];
    kernel.read_exact(&server, &mut buffer);
    assert_eq!(&buffer, b"ping");

    assert_eq!(kernel.write(&server, b"pong"), Ok(4));
    let mut buffer = [0u8; 4];
    kernel.read_exact(&client, &mut buffer);
    assert_eq!(&buffer, b"pong");

    kernel.drive(client.close());
    kernel.drive(server.close());
    kernel.drive(listener.close());
    assert_eq!(kernel.open_count(), 0);
}

#[test]
fn ping_is_answered_by_pong() {
    ping_pong(&mut Kernel::new(true, 16));
}

#[test]
fn ping_is_answered_by_pong_with_a_probed_family() {
    ping_pong(&mut Kernel::new(false, 16));
}

#[test]
fn local_address_after_bind_has_the_port() {
    let mut kernel = Kernel::new(true, 16);
    let listener = kernel.bind(15000).unwrap();
    let reply = kernel.report(&listener.local_addr_call());
    let addr = listener.local_addr(reply).unwrap();
    assert_eq!(addr.port(), 15000);
    assert_eq!(addr.family(), 40);
    assert_eq!(addr.len(), 16);
}

#[test]
fn bytes_arrive_unchanged_and_in_order() {
    for chunk in [1, 3, 7, 4096] {
        let mut kernel = Kernel::new(true, 16);
        kernel.chunk = chunk;
        let listener = kernel.bind(15000).unwrap();
        let client = kernel.connect(15000).unwrap();
        let server = kernel.accept(&listener).unwrap();
        let sent: Vec<u8> = (0..1000u32).map(|i| (i * 7 + 3) as u8).collect();
        kernel.write_all(&client, &sent);
        let mut got = vec![0u8; sent.len()];
        kernel.read_exact(&server, &mut got);
        assert_eq!(got, sent);
    }
}

#[test]
fn write_may_move_fewer_bytes_than_offered() {
    let mut kernel = Kernel::new(true, 16);
    kernel.chunk = 3;
    let listener = kernel.bind(15000).unwrap();
    let client = kernel.connect(15000).unwrap();
    let _server = kernel.accept(&listener).unwrap();
    assert_eq!(kernel.write(&client, b"0123456789"), Ok(3));
}

#[test]
fn both_ways_of_finding_the_family_give_streams_that_act_alike() {
    let mut native = Kernel::new(true, 16);
    let mut probed = Kernel::new(false, 16);
    let a = native.connect(15000).unwrap_err();
    let b = probed.connect(15000).unwrap_err();
    assert_eq!(a, OsError { code: ECONNREFUSED });
    assert_eq!(a, b);
    assert_eq!(native.open_count(), 0);
    assert_eq!(probed.open_count(), 0);

    let ln = native.bind(15000).unwrap();
    let lp = probed.bind(15000).unwrap();
    assert_eq!(ln.held(), Held { s: 0, af: 40, device: None });
    assert_eq!(lp.held(), Held { s: 1, af: PROBED_FAMILY, device: Some(0) });
    let cn = native.connect(15000).unwrap();
    let cp = probed.connect(15000).unwrap();
    let sn = native.accept(&ln).unwrap();
    let sp = probed.accept(&lp).unwrap();
    assert_eq!(sn.held().af, 40);
    assert_eq!(sp.held().af, PROBED_FAMILY);
    assert_eq!(sn.held().device, None);
    assert_eq!(sp.held().device, None);
    assert_eq!(native.write(&cn, b"same"), probed.write(&cp, b"same"));
    let mut x = [0u8; 8];
    let mut y = [0u8; 8];
    assert_eq!(native.read(&sn, &mut x), Ok(4));
    assert_eq!(probed.read(&sp, &mut y), Ok(4));
    assert_eq!(x, y);
}

#[test]
fn accepted_peer_has_a_virtual_machine_and_a_client_has_none() {
    let mut kernel = Kernel::new(true, 16);
    let listener = kernel.bind(15000).unwrap();
    let client = kernel.connect(15000).unwrap();
    let server = kernel.accept(&listener).unwrap();

    let reply = kernel.perform(&server.peer_host_vm_id_call());
    let id = server.peer_host_vm_id(reply).unwrap();
    assert!(id >= 0);
    assert_eq!(id, 70000 + client.held().s);

    let reply = kernel.perform(&client.peer_host_vm_id_call());
    assert_eq!(client.peer_host_vm_id(reply), Err(OsError { code: ENOPROTOOPT }));
}

#[test]
fn listener_outlives_a_failed_accept() {
    let mut kernel = Kernel::new(true, 16);
    let listener = kernel.bind(15000).unwrap();
    assert_eq!(kernel.accept(&listener).unwrap_err(), OsError { code: EAGAIN });
    let client = kernel.connect(15000).unwrap();
    let server = kernel.accept(&listener).unwrap();
    assert_eq!(kernel.write(&client, b"x"), Ok(1));
    let mut buffer = [0u8; 1];
    assert_eq!(kernel.read(&server, &mut buffer), Ok(1));
    assert_eq!(&buffer, b"x");
}

#[test]
fn incoming_yields_one_accept_per_advance() {
    let mut kernel = Kernel::new(true, 16);
    let listener = kernel.bind(15000).unwrap();
    let first = kernel.connect(15000).unwrap();
    let second = kernel.connect(15000).unwrap();
    let mut incoming = listener.incoming();
    assert_eq!(incoming.size_hint(), (usize::MAX, None));
    let mut served = Vec::new();
    let mut errors = Vec::new();
    for _ in 0..4 {
        let reply = kernel.report(&incoming.call());
        match incoming.next(reply) {
            Some(Ok(stream)) => served.push(stream),
            Some(Err(error)) => errors.push(error),
            None => panic!("the sequence ended"),
        }
    }
    assert_eq!(served.len(), 2);
    assert_eq!(errors, vec![OsError { code: EAGAIN }, OsError { code: EAGAIN }]);
    let reply = kernel.report(&served[0].peer_addr_call());
    assert_eq!(served[0].peer_addr(reply).unwrap().port(), 1024 + first.held().s as u32);
    let reply = kernel.report(&served[1].peer_addr_call());
    assert_eq!(served[1].peer_addr(reply).unwrap().port(), 1024 + second.held().s as u32);
}

#[test]
fn descriptors_do_not_run_out_when_each_stream_is_closed() {
    for native in [true, false] {
        let mut kernel = Kernel::new(native, 8);
        let listener = kernel.bind(15000).unwrap();
        for _ in 0..200 {
            let client = kernel.connect(15000).unwrap();
            let server = kernel.accept(&listener).unwrap();
            kernel.drive(client.close());
            kernel.drive(server.close());
        }
        kernel.drive(listener.close());
        assert_eq!(kernel.open_count(), 0);
    }
}

#[test]
fn descriptors_do_not_run_out_when_each_listener_is_closed() {
    for native in [true, false] {
        let mut kernel = Kernel::new(native, 4);
        for _ in 0..200 {
            let listener = kernel.bind(15000).unwrap();
            kernel.drive(listener.close());
        }
        assert_eq!(kernel.open_count(), 0);
    }
}

#[test]
fn every_descriptor_is_closed_once() {
    let mut kernel = Kernel::new(false, 16);
    let listener = kernel.bind(15000).unwrap();
    let client = kernel.connect(15000).unwrap();
    let server = kernel.accept(&listener).unwrap();
    let mut expected = vec![
        listener.held().s,
        listener.held().device.unwrap(),
        client.held().s,
        client.held().device.unwrap(),
        server.held().s,
    ];
    kernel.drive(listener.close());
    kernel.drive(client.close());
    kernel.drive(server.close());
    let mut closed = kernel.closes.clone();
    closed.sort();
    expected.sort();
    assert_eq!(closed, expected);
}

#[test]
fn failed_connect_leaves_nothing_open() {
    for native in [true, false] {
        let mut kernel = Kernel::new(native, 8);
        for _ in 0..50 {
            assert_eq!(kernel.connect(15000).unwrap_err(), OsError { code: ECONNREFUSED });
            assert_eq!(kernel.open_count(), 0);
        }
    }
}

#[test]
fn failed_bind_leaves_nothing_open() {
    for native in [true, false] {
        let mut kernel = Kernel::new(native, 8);
        let listener = kernel.bind(15000).unwrap();
        let before = kernel.open_count();
        for _ in 0..50 {
            assert_eq!(kernel.bind(15000).unwrap_err(), OsError { code: EADDRINUSE });
            assert_eq!(kernel.open_count(), before);
        }
        kernel.drive(listener.close());
    }
}

#[test]
fn read_of_a_shut_down_stream_is_zero() {
    let mut kernel = Kernel::new(true, 16);
    let listener = kernel.bind(15000).unwrap();
    let _client = kernel.connect(15000).unwrap();
    let server = kernel.accept(&listener).unwrap();
    let mut buffer = [0u8; 4];
    assert_eq!(kernel.read(&server, &mut buffer), Ok(0));
}
