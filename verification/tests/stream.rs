use vmci::sys::{SO_VM_SOCKETS_PEER_HOST_VM_ID, VMADDR_CID_HOST};
use vmci::{
    AddrCall, AddrReply, Call, Closing, Connecting, Held, IoCall, IoReply, Machine, OsError,
    Reply, SockaddrVm, Stage, VSocketStream,
};

fn ok(ret: i32) -> Reply {
    Reply { ret, errno: 0, value: 0 }
}

fn wrote(value: i32) -> Reply {
    Reply { ret: 0, errno: 0, value }
}

fn fail(errno: i32) -> Reply {
    Reply { ret: -1, errno, value: 0 }
}

fn feed<M: Machine>(mut m: M, replies: &[Reply]) -> (M, Vec<Call>) {
    let mut calls = Vec::new();
    for r in replies {
        match m.awaits() {
            Some(c) => calls.push(c),
            None => break,
        }
        m = m.advance(*r);
    }
    (m, calls)
}

fn stream(s: i32, af: i32, device: Option<i32>) -> VSocketStream {
    let replies = match device {
        None => vec![ok(s), ok(0)],
        Some(d) => vec![fail(97), ok(d), wrote(af), ok(s), ok(0)],
    };
    let (m, _) = feed(Connecting::start(1, 1), &replies);
    let stream = m.finish().unwrap().unwrap();
    assert_eq!(stream.held(), Held { s, af, device });
    stream
}

#[test]
fn host_is_context_two() {
    assert_eq!(VMADDR_CID_HOST, 2);
    assert_eq!(SO_VM_SOCKETS_PEER_HOST_VM_ID, 3);
}

#[test]
fn connect_asks_for_a_stream_socket_of_the_well_known_family() {
    let m = VSocketStream::connect(15000);
    assert_eq!(
        m,
        Connecting::Resolving { port: 15000, stage: Stage::Native { kind: libc::SOCK_STREAM } }
    );
    assert_eq!(m.awaits(), Some(Call::Socket { family: 40, kind: libc::SOCK_STREAM }));
}

#[test]
fn connect_is_start_with_the_kind_of_a_stream() {
    assert_eq!(VSocketStream::connect(7), Connecting::start(libc::SOCK_STREAM, 7));
    assert_ne!(VSocketStream::connect(7), Connecting::start(libc::SOCK_DGRAM, 7));
}

#[test]
fn connecting_on_a_native_socket() {
    let (m, calls) = feed(Connecting::start(1, 15000), &[ok(3), ok(0)]);
    assert_eq!(
        calls,
        vec![
            Call::Socket { family: 40, kind: 1 },
            Call::Connect {
                fd: 3,
                addr: SockaddrVm { family: 40, reserved1: 0, port: 15000, cid: 2, zero: [0; 4] },
            },
        ]
    );
    assert_eq!(m, Connecting::Connected(Held { s: 3, af: 40, device: None }));
    assert_eq!(m.awaits(), None);
    let stream = m.finish().unwrap().unwrap();
    assert_eq!(stream.held(), Held { s: 3, af: 40, device: None });
}

#[test]
fn connecting_on_a_probed_socket_tags_the_address_with_the_probed_family() {
    let (m, calls) =
        feed(Connecting::start(1, 15000), &[fail(97), ok(4), wrote(53), ok(5), ok(0)]);
    assert_eq!(calls.len(), 5);
    assert_eq!(
        calls[4],
        Call::Connect {
            fd: 5,
            addr: SockaddrVm { family: 53, reserved1: 0, port: 15000, cid: 2, zero: [0; 4] },
        }
    );
    assert_eq!(m, Connecting::Connected(Held { s: 5, af: 53, device: Some(4) }));
}

#[test]
fn family_above_a_byte_is_cut_down_in_the_address_only() {
    let (m, calls) =
        feed(Connecting::start(1, 9), &[fail(97), ok(4), wrote(0x1234), ok(5), ok(0)]);
    assert_eq!(calls[3], Call::Socket { family: 0x1234, kind: 1 });
    assert_eq!(
        calls[4],
        Call::Connect {
            fd: 5,
            addr: SockaddrVm { family: 0x34, reserved1: 0, port: 9, cid: 2, zero: [0; 4] },
        }
    );
    assert_eq!(m, Connecting::Connected(Held { s: 5, af: 0x1234, device: Some(4) }));
}

#[test]
fn failed_connect_closes_the_native_socket() {
    let (m, calls) = feed(Connecting::start(1, 15000), &[ok(3), fail(111), ok(0), ok(0)]);
    assert_eq!(calls.len(), 3);
    assert_eq!(calls[2], Call::Close { fd: 3 });
    assert_eq!(m, Connecting::Failed(OsError { code: 111 }));
    assert_eq!(m.finish().unwrap().unwrap_err(), OsError { code: 111 });
}

#[test]
fn failed_connect_closes_the_probed_socket_and_the_device() {
    let (m, calls) = feed(
        Connecting::start(1, 15000),
        &[fail(97), ok(4), wrote(53), ok(5), fail(110), fail(9), fail(9), ok(0)],
    );
    assert_eq!(calls.len(), 7);
    assert_eq!(calls[5], Call::Close { fd: 5 });
    assert_eq!(calls[6], Call::CloseDevice { device: 4 });
    assert_eq!(m, Connecting::Failed(OsError { code: 110 }));
}

#[test]
fn connecting_reports_a_failed_resolution() {
    let (m, calls) = feed(Connecting::start(1, 15000), &[fail(97), fail(2), ok(0)]);
    assert_eq!(calls, vec![Call::Socket { family: 40, kind: 1 }, Call::OpenDevice]);
    assert_eq!(m, Connecting::Failed(OsError { code: 2 }));
    let (m, calls) = feed(Connecting::start(1, 15000), &[fail(97), ok(4), fail(25), ok(0), ok(0)]);
    assert_eq!(calls.len(), 4);
    assert_eq!(calls[3], Call::CloseDevice { device: 4 });
    assert_eq!(m, Connecting::Failed(OsError { code: 25 }));
}

#[test]
fn connecting_is_unfinished_while_a_call_is_awaited() {
    let (m, _) = feed(Connecting::start(1, 15000), &[ok(3)]);
    assert_eq!(m, Connecting::Dialing { port: 15000, held: Held { s: 3, af: 40, device: None } });
    assert!(m.finish().is_none());
    let (m, _) = feed(Connecting::start(1, 15000), &[ok(3), fail(111)]);
    assert!(m.finish().is_none());
}

#[test]
fn connecting_never_takes_more_than_eight_calls() {
    let script = [fail(1), ok(4), wrote(41), ok(5), fail(2), ok(0), ok(0), ok(0), ok(0)];
    let (m, calls) = feed(Connecting::start(1, 1), &script);
    assert_eq!(calls.len(), 7);
    assert_eq!(m.awaits(), None);
    assert_eq!(m.advance(ok(1)), Connecting::Failed(OsError { code: 2 }));
}

#[test]
fn address_queries_name_the_descriptor() {
    let s = stream(3, 40, None);
    assert_eq!(s.local_addr_call(), AddrCall::GetSockName { fd: 3 });
    assert_eq!(s.peer_addr_call(), AddrCall::GetPeerName { fd: 3 });
}

#[test]
fn address_replies_are_read() {
    let s = stream(3, 40, None);
    let local = AddrReply { ret: 0, errno: 0, addr: SockaddrVm::new(40, 1030, 3), len: 16 };
    let peer = AddrReply { ret: 0, errno: 0, addr: SockaddrVm::new(40, 15000, 2), len: 16 };
    assert_eq!(s.local_addr(local).unwrap().render(), "3:1030");
    assert_eq!(s.peer_addr(peer).unwrap().render(), "2:15000");
    let failed = AddrReply { ret: -1, errno: 107, addr: SockaddrVm::zeroed(), len: 16 };
    assert_eq!(s.peer_addr(failed), Err(OsError { code: 107 }));
    assert_eq!(s.local_addr(failed), Err(OsError { code: 107 }));
}

#[test]
fn peer_identity_is_asked_at_the_level_of_the_family() {
    assert_eq!(
        stream(3, 40, None).peer_host_vm_id_call(),
        Call::GetSockOpt { fd: 3, level: 40, name: 3 }
    );
    assert_eq!(
        stream(5, 53, Some(4)).peer_host_vm_id_call(),
        Call::GetSockOpt { fd: 5, level: 53, name: 3 }
    );
}

#[test]
fn peer_identity_is_what_the_call_wrote() {
    let s = stream(3, 40, None);
    assert_eq!(s.peer_host_vm_id(Reply { ret: 0, errno: 0, value: 70123 }), Ok(70123));
    assert_eq!(s.peer_host_vm_id(Reply { ret: 0, errno: 95, value: 0 }), Ok(0));
}

#[test]
fn peer_identity_of_a_failed_call_is_the_error() {
    let s = stream(3, 40, None);
    assert_eq!(
        s.peer_host_vm_id(Reply { ret: -1, errno: 95, value: 70123 }),
        Err(OsError { code: 95 })
    );
}

#[test]
fn transfers_name_descriptor_and_length() {
    let s = stream(3, 40, None);
    assert_eq!(s.read_call(5), IoCall::Recv { fd: 3, len: 5 });
    assert_eq!(s.write_call(4), IoCall::Send { fd: 3, len: 4 });
    assert_eq!(s.read_call(0), IoCall::Recv { fd: 3, len: 0 });
}

#[test]
fn transfer_replies_are_read() {
    let s = stream(3, 40, None);
    assert_eq!(s.read(IoReply { ret: 4, errno: 0 }), Ok(4));
    assert_eq!(s.read(IoReply { ret: 0, errno: 0 }), Ok(0));
    assert_eq!(s.read(IoReply { ret: -1, errno: 104 }), Err(OsError { code: 104 }));
    assert_eq!(s.write(IoReply { ret: 2, errno: 0 }), Ok(2));
    assert_eq!(s.write(IoReply { ret: isize::MAX, errno: 0 }), Ok(isize::MAX as usize));
    assert_eq!(s.write(IoReply { ret: -1, errno: 32 }), Err(OsError { code: 32 }));
}

#[test]
fn transfers_work_through_a_shared_reference() {
    let s = stream(3, 40, None);
    let shared = &s;
    let again = &s;
    assert_eq!(shared.read_call(1), again.read_call(1));
    assert_eq!(shared.write(IoReply { ret: 1, errno: 0 }), Ok(1));
    assert_eq!(again.read(IoReply { ret: 1, errno: 0 }), Ok(1));
    assert_eq!(s.held().s, 3);
}

#[test]
fn flush_does_nothing() {
    assert_eq!(stream(3, 40, None).flush(), Ok(()));
}

#[test]
fn closing_a_stream_closes_what_it_holds() {
    let closing = stream(5, 53, Some(4)).close();
    assert_eq!(closing, Closing::Socket { held: Held { s: 5, af: 53, device: Some(4) } });
    let (end, calls) = feed(closing, &[ok(0), ok(0)]);
    assert_eq!(calls, vec![Call::Close { fd: 5 }, Call::CloseDevice { device: 4 }]);
    assert_eq!(end, Closing::Done);
}
