//! What holds of streams and listeners whatever the operating system
//! replies.

use vstd::prelude::*;
use vstd::multiset::*;
use crate::errno::OsError;
use crate::inner::{Closing, Held, Resolving, Stage};
use crate::listener::{accepted, Binding};
use crate::machine::{
    acquired_along, calls_along, lemma_nothing_left_open, lemma_run_accounts, released_along, run,
    Machine, Resource,
};
use crate::stream::{peer_identity, Connecting};
use crate::sys::{AddrReply, Call, Reply};

verus! {

/// No operation looks at the way in which the address family was found. Two
/// handles with the same descriptor and the same value of the family, one
/// with a probe device and one without, ask for the same calls: to query
/// addresses and the peer's virtual machine, to receive and to send, to
/// connect, to bind and listen, and to accept, where they also make the
/// same handle of the same reply. Only closing differs, by the call
/// that closes the device.
pub proof fn lemma_fallback_equivalence(
    native: Held,
    probed: Held,
    port: u32,
    len: usize,
    reply: AddrReply,
)
    requires
        native.s == probed.s,
        native.af == probed.af,
        native.device is None,
        probed.device is Some,
    ensures
        native.local_addr_call() == probed.local_addr_call(),
        native.peer_addr_call() == probed.peer_addr_call(),
        native.peer_host_vm_id_call() == probed.peer_host_vm_id_call(),
        native.read_call(len) == probed.read_call(len),
        native.write_call(len) == probed.write_call(len),
        native.accept_call() == probed.accept_call(),
        accepted(native, reply) == accepted(probed, reply),
        (Connecting::Dialing { port, held: native }).call() == (Connecting::Dialing {
            port,
            held: probed,
        }).call(),
        (Binding::Binding { port, held: native }).call() == (Binding::Binding {
            port,
            held: probed,
        }).call(),
        (Binding::Listening { held: native }).call() == (Binding::Listening {
            held: probed,
        }).call(),
        probed.closing_calls() == native.closing_calls().push(
            Call::CloseDevice { device: probed.device.unwrap() },
        ),
{
    assert(probed.closing_calls() =~= native.closing_calls().push(
        Call::CloseDevice { device: probed.device.unwrap() },
    ));
}

/// The identifier of the peer's virtual machine is never made up: a failed
/// call gives its error, and a call that succeeded gives what it wrote,
/// which is not negative where the operating system wrote an identifier.
pub proof fn lemma_peer_identity(reply: Reply)
    requires
        reply.ret >= 0 ==> reply.value >= 0,
    ensures
        reply.ret < 0 ==> peer_identity(reply) == Err::<i32, OsError>(
            OsError { code: reply.errno },
        ),
        reply.ret >= 0 ==> peer_identity(reply) == Ok::<i32, OsError>(reply.value)
            && peer_identity(reply)->Ok_0 >= 0,
{
}

/// A failed accept does not spoil a listener: the reply to a later accept
/// call is read as if the failed one had never been made.
pub proof fn lemma_accept_after_failure(listener: Held, failed: AddrReply, later: AddrReply)
    requires
        failed.ret < 0,
        later.ret >= 0,
    ensures
        accepted(listener, failed) == Err::<Held, OsError>(OsError { code: failed.errno }),
        accepted(listener, later) == Ok::<Held, OsError>(
            Held { s: later.ret, af: listener.af, device: None },
        ),
{
}

/// Closing gives back every descriptor of a handle once, and none twice: two
/// replies end it, its calls are the handle's closing calls, and what they
/// give back is what the handle held.
pub proof fn lemma_close_releases_once(held: Held, replies: Seq<Reply>)
    requires
        replies.len() == 2,
    ensures
        run(Closing::Socket { held }, replies) == Closing::Done,
        calls_along(Closing::Socket { held }, replies) == held.closing_calls(),
        acquired_along(Closing::Socket { held }, replies) == Multiset::<Resource>::empty(),
        released_along(Closing::Socket { held }, replies) == held.resources(),
{
    let m0 = Closing::Socket { held };
    let r1 = replies.drop_first();
    let r2 = r1.drop_first();
    let m1 = m0.next(replies[0]);
    let m2 = m1.next(r1[0]);
    assert(r2.len() == 0);
    assert(run(m2, r2) == m2);
    assert(run(m1, r1) == m2);
    assert(run(m0, replies) == m2);
    assert(calls_along(m2, r2) =~= Seq::<Call>::empty());
    assert(calls_along(m1, r1) =~= match m1.call() {
        Some(c) => seq![c],
        None => Seq::empty(),
    });
    assert(calls_along(m0, replies) =~= held.closing_calls());
    assert(acquired_along(m2, r2) =~= Multiset::<Resource>::empty());
    assert(acquired_along(m1, r1) =~= Multiset::<Resource>::empty());
    assert(acquired_along(m0, replies) =~= Multiset::<Resource>::empty());
    lemma_run_accounts(m0, replies);
    assert(held.resources().add(Multiset::empty()) =~= held.resources());
    assert(Multiset::<Resource>::empty().add(released_along(m0, replies)) =~= released_along(
        m0,
        replies,
    ));
}

/// However the making of a handle goes, no descriptor is lost: what its
/// calls handed out is what they gave back and what the handle holds in the
/// end. After a failure that is nothing.
pub proof fn lemma_resolving_accounts(kind: i32, replies: Seq<Reply>)
    ensures
        ({
            let start = Resolving::At(Stage::Native { kind });
            match run(start, replies) {
                Resolving::Resolved(held) => acquired_along(start, replies) == held.resources().add(
                    released_along(start, replies),
                ),
                Resolving::Failed(_) => acquired_along(start, replies) == released_along(
                    start,
                    replies,
                ),
                Resolving::At(_) => true,
            }
        }),
{
    let start = Resolving::At(Stage::Native { kind });
    lemma_run_accounts(start, replies);
    assert(Multiset::<Resource>::empty().add(acquired_along(start, replies)) =~= acquired_along(
        start,
        replies,
    ));
    if run(start, replies) is Failed {
        lemma_nothing_left_open(start, replies);
    }
}

/// However connecting goes, no descriptor is lost: what its calls handed out
/// is what they gave back and what the stream holds in the end. After a
/// failure that is nothing.
pub proof fn lemma_connecting_accounts(kind: i32, port: u32, replies: Seq<Reply>)
    ensures
        ({
            let start = Connecting::Resolving { port, stage: Stage::Native { kind } };
            match run(start, replies) {
                Connecting::Connected(held) => acquired_along(start, replies)
                    == held.resources().add(released_along(start, replies)),
                Connecting::Failed(_) => acquired_along(start, replies) == released_along(
                    start,
                    replies,
                ),
                _ => true,
            }
        }),
{
    let start = Connecting::Resolving { port, stage: Stage::Native { kind } };
    lemma_run_accounts(start, replies);
    assert(Multiset::<Resource>::empty().add(acquired_along(start, replies)) =~= acquired_along(
        start,
        replies,
    ));
    if run(start, replies) is Failed {
        lemma_nothing_left_open(start, replies);
    }
}

/// However the setting up of a listener goes, no descriptor is lost: what
/// its calls handed out is what they gave back and what the listener holds
/// in the end. After a failure that is nothing.
pub proof fn lemma_binding_accounts(kind: i32, port: u32, replies: Seq<Reply>)
    ensures
        ({
            let start = Binding::Resolving { port, stage: Stage::Native { kind } };
            match run(start, replies) {
                Binding::Bound(held) => acquired_along(start, replies) == held.resources().add(
                    released_along(start, replies),
                ),
                Binding::Failed(_) => acquired_along(start, replies) == released_along(
                    start,
                    replies,
                ),
                _ => true,
            }
        }),
{
    let start = Binding::Resolving { port, stage: Stage::Native { kind } };
    lemma_run_accounts(start, replies);
    assert(Multiset::<Resource>::empty().add(acquired_along(start, replies)) =~= acquired_along(
        start,
        replies,
    ));
    if run(start, replies) is Failed {
        lemma_nothing_left_open(start, replies);
    }
}

} // verus!
