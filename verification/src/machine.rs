//! Operations that take several system calls, as state machines, and what
//! holds of every run of one: it ends, and it accounts for every descriptor
//! that a call handed it.

use vstd::prelude::*;
use vstd::multiset::*;
use crate::sys::{Call, Reply};

verus! {

/// A descriptor that the operating system handed out, and that has to be
/// closed once.
pub enum Resource {
    /// A socket's descriptor.
    Socket(i32),
    /// The descriptor of the opened probe device.
    Device(i32),
}

/// What a call hands to the one who made it, given its reply.
pub open spec fn acquired(call: Call, reply: Reply) -> Multiset<Resource> {
    match call {
        Call::Socket { .. } => if reply.ret >= 0 {
            Multiset::singleton(Resource::Socket(reply.ret))
        } else {
            Multiset::empty()
        },
        Call::OpenDevice => if reply.ret >= 0 {
            Multiset::singleton(Resource::Device(reply.ret))
        } else {
            Multiset::empty()
        },
        _ => Multiset::empty(),
    }
}

/// What a call gives back to the operating system.
pub open spec fn released(call: Call) -> Multiset<Resource> {
    match call {
        Call::Close { fd } => Multiset::singleton(Resource::Socket(fd)),
        Call::CloseDevice { device } => Multiset::singleton(Resource::Device(device)),
        _ => Multiset::empty(),
    }
}

/// An operation in progress. The driver makes the call that the machine
/// awaits and hands the reply to `advance`, until no call is awaited.
pub trait Machine: Sized {
    /// The call that the machine awaits; `None` once it has finished.
    spec fn call(self) -> Option<Call>;

    /// The state after `reply` has answered the awaited call.
    spec fn next(self, reply: Reply) -> Self;

    /// The descriptors that the machine has to close or to hand on.
    spec fn owned(self) -> Multiset<Resource>;

    /// A bound on the number of calls that the machine will still ask for.
    spec fn rank(self) -> nat;

    /// Each step brings the machine nearer to its end, and what it owns
    /// afterwards is what it owned before, with what the call handed it and
    /// without what the call gave back. A finished machine stays as it is.
    proof fn lemma_step(self, reply: Reply)
        ensures
            self.call() is Some ==> self.next(reply).rank() < self.rank(),
            self.call() is Some ==> self.owned().add(acquired(self.call().unwrap(), reply))
                == self.next(reply).owned().add(released(self.call().unwrap())),
            self.call() is None ==> self.next(reply) == self,
    ;

    /// The call to make next, if any.
    fn awaits(&self) -> (c: Option<Call>)
        ensures
            c == self.call(),
    ;

    /// Takes the reply to the awaited call.
    fn advance(self, reply: Reply) -> (m: Self)
        ensures
            m == self.next(reply),
    ;
}

/// The state that `m` reaches when its calls are answered by `replies`, one
/// after the other.
pub open spec fn run<M: Machine>(m: M, replies: Seq<Reply>) -> M
    decreases replies.len(),
{
    if replies.len() == 0 {
        m
    } else {
        run(m.next(replies[0]), replies.drop_first())
    }
}

/// The calls that `replies` answered, in the order in which they were made.
pub open spec fn calls_along<M: Machine>(m: M, replies: Seq<Reply>) -> Seq<Call>
    decreases replies.len(),
{
    if replies.len() == 0 {
        Seq::empty()
    } else {
        match m.call() {
            Some(call) => seq![call] + calls_along(m.next(replies[0]), replies.drop_first()),
            None => Seq::empty(),
        }
    }
}

/// Everything that the calls of a run handed to the machine.
pub open spec fn acquired_along<M: Machine>(m: M, replies: Seq<Reply>) -> Multiset<Resource>
    decreases replies.len(),
{
    if replies.len() == 0 {
        Multiset::empty()
    } else {
        let first = match m.call() {
            Some(call) => acquired(call, replies[0]),
            None => Multiset::empty(),
        };
        first.add(acquired_along(m.next(replies[0]), replies.drop_first()))
    }
}

/// Everything that the calls of a run gave back.
pub open spec fn released_along<M: Machine>(m: M, replies: Seq<Reply>) -> Multiset<Resource>
    decreases replies.len(),
{
    if replies.len() == 0 {
        Multiset::empty()
    } else {
        let first = match m.call() {
            Some(call) => released(call),
            None => Multiset::empty(),
        };
        first.add(released_along(m.next(replies[0]), replies.drop_first()))
    }
}

/// Over any run, nothing is lost and nothing is closed twice: what the
/// machine owned at first and what its calls handed it is what it owns at
/// the end and what its calls gave back.
pub proof fn lemma_run_accounts<M: Machine>(m: M, replies: Seq<Reply>)
    ensures
        m.owned().add(acquired_along(m, replies)) == run(m, replies).owned().add(
            released_along(m, replies),
        ),
    decreases replies.len(),
{
    if replies.len() == 0 {
        assert(m.owned().add(Multiset::empty()) =~= m.owned());
    } else {
        let n = m.next(replies[0]);
        let rest = replies.drop_first();
        m.lemma_step(replies[0]);
        lemma_run_accounts(n, rest);
        match m.call() {
            Some(call) => {
                let a = acquired(call, replies[0]);
                let r = released(call);
                assert(m.owned().add(a.add(acquired_along(n, rest))) =~= m.owned().add(a).add(
                    acquired_along(n, rest),
                ));
                assert(n.owned().add(r).add(acquired_along(n, rest)) =~= n.owned().add(
                    acquired_along(n, rest),
                ).add(r));
                assert(run(n, rest).owned().add(released_along(n, rest)).add(r) =~= run(
                    n,
                    rest,
                ).owned().add(r.add(released_along(n, rest))));
            },
            None => {
                assert(Multiset::<Resource>::empty().add(acquired_along(n, rest))
                    =~= acquired_along(n, rest));
                assert(Multiset::<Resource>::empty().add(released_along(n, rest))
                    =~= released_along(n, rest));
            },
        }
    }
}

/// A machine has finished once it has been given as many replies as its
/// rank.
pub proof fn lemma_run_finishes<M: Machine>(m: M, replies: Seq<Reply>)
    requires
        replies.len() >= m.rank(),
    ensures
        run(m, replies).call() is None,
    decreases replies.len(),
{
    if replies.len() == 0 {
        if m.call() is Some {
            m.lemma_step(Reply { ret: 0, errno: 0, value: 0 });
        }
    } else {
        m.lemma_step(replies[0]);
        if m.call() is Some {
            lemma_run_finishes(m.next(replies[0]), replies.drop_first());
        } else {
            lemma_stays_finished(m, replies);
        }
    }
}

/// Replies do not move a finished machine.
pub proof fn lemma_stays_finished<M: Machine>(m: M, replies: Seq<Reply>)
    requires
        m.call() is None,
    ensures
        run(m, replies) == m,
    decreases replies.len(),
{
    if replies.len() > 0 {
        m.lemma_step(replies[0]);
        lemma_stays_finished(m, replies.drop_first());
    }
}

/// A run that begins and ends with nothing owned has given back exactly
/// what it was handed.
pub proof fn lemma_nothing_left_open<M: Machine>(m: M, replies: Seq<Reply>)
    requires
        m.owned() == Multiset::<Resource>::empty(),
        run(m, replies).owned() == Multiset::<Resource>::empty(),
    ensures
        acquired_along(m, replies) == released_along(m, replies),
{
    lemma_run_accounts(m, replies);
    assert(Multiset::<Resource>::empty().add(acquired_along(m, replies)) =~= acquired_along(
        m,
        replies,
    ));
    assert(Multiset::<Resource>::empty().add(released_along(m, replies)) =~= released_along(
        m,
        replies,
    ));
}

/// Answers the calls of `m` by `replies`, one after the other, and returns
/// the state reached with the calls that were answered. A driver that makes
/// the calls itself goes the same way.
pub fn replay<M: Machine>(m: M, replies: &[Reply]) -> (end: (M, Vec<Call>))
    ensures
        end.0 == run(m, replies@),
        end.1@ == calls_along(m, replies@),
{
    let ghost start = m;
    let mut m = m;
    let mut calls: Vec<Call> = Vec::new();
    let mut i: usize = 0;
    proof {
        assert(replies@.skip(0) =~= replies@);
        assert(calls@ + calls_along(m, replies@) =~= calls_along(m, replies@));
    }
    while i < replies.len()
        invariant
            i <= replies.len(),
            run(start, replies@) == run(m, replies@.skip(i as int)),
            calls_along(start, replies@) == calls@ + calls_along(m, replies@.skip(i as int)),
        decreases replies.len() - i,
    {
        let ghost before = m;
        let ghost made = calls@;
        let ghost rest = replies@.skip(i as int);
        proof {
            before.lemma_step(replies[i as int]);
            assert(rest.len() > 0 && rest[0] == replies[i as int]);
            assert(rest.drop_first() =~= replies@.skip(i + 1));
        }
        match m.awaits() {
            Some(call) => {
                calls.push(call);
            },
            None => {},
        }
        m = m.advance(replies[i]);
        i = i + 1;
        proof {
            let after = replies@.skip(i as int);
            match before.call() {
                Some(call) => {
                    assert(made + (seq![call] + calls_along(m, after)) =~= made.push(call)
                        + calls_along(m, after));
                },
                None => {
                    assert(calls_along(m, after) =~= Seq::<Call>::empty());
                },
            }
        }
    }
    proof {
        assert(replies@.skip(i as int).len() == 0);
        assert(calls@ + Seq::<Call>::empty() =~= calls@);
    }
    (m, calls)
}

} // verus!
