//! The order of the native calls behind one request.
//!
//! A request to the native library, to parse or to expand an address, takes
//! three native calls: one that fetches the library's default options, the
//! call proper, which hands out a native buffer, and the call that gives the
//! buffer back. A [`Phase`] says which of them is due, and a [`Reply`] says
//! which of them has returned.
use vstd::prelude::*;

verus! {

/// The native call that a request waits for.
#[derive(Clone, Copy, Debug, Hash, PartialEq, Eq, Structural)]
pub enum Phase {
    /// The default options are to be fetched.
    Configure,
    /// The native call proper is to be made.
    Invoke,
    /// The buffer that the native call handed out is to be given back.
    Release,
    /// No native call is left.
    Done,
}

/// What has returned from the native library.
#[derive(Clone, Copy, Debug, Hash, PartialEq, Eq, Structural)]
pub enum Reply {
    /// The default options.
    Defaults,
    /// The native call proper, with its buffer.
    Returned,
    /// The destructor of the buffer.
    Released,
}

impl Phase {
    /// The reply that this phase waits for, if any.
    pub open spec fn awaited(self) -> Option<Reply> {
        match self {
            Phase::Configure => Some(Reply::Defaults),
            Phase::Invoke => Some(Reply::Returned),
            Phase::Release => Some(Reply::Released),
            Phase::Done => None,
        }
    }

    /// Whether `reply` is the one that this phase waits for.
    pub open spec fn accepts(self, reply: Reply) -> bool {
        self.awaited() == Some(reply)
    }

    /// The phase after `reply`: the next one where the reply was awaited,
    /// the same one where it was not.
    pub open spec fn after(self, reply: Reply) -> Phase {
        if !self.accepts(reply) {
            self
        } else {
            match self {
                Phase::Configure => Phase::Invoke,
                Phase::Invoke => Phase::Release,
                _ => Phase::Done,
            }
        }
    }

    /// Whether a native buffer is held that has not been given back.
    pub open spec fn holds_buffer(self) -> bool {
        self is Release
    }

    /// Whether `reply` is the one that this phase waits for.
    pub fn expects(self, reply: Reply) -> (expected: bool)
        ensures
            expected == self.accepts(reply),
    {
        match (self, reply) {
            (Phase::Configure, Reply::Defaults) => true,
            (Phase::Invoke, Reply::Returned) => true,
            (Phase::Release, Reply::Released) => true,
            _ => false,
        }
    }

    /// The phase after `reply`.
    pub fn advance(self, reply: Reply) -> (next: Phase)
        ensures
            next == self.after(reply),
            next.holds_buffer() <==> (self is Invoke && reply is Returned) || (self.holds_buffer()
                && !(reply is Released)),
    {
        if !self.expects(reply) {
            self
        } else {
            match self {
                Phase::Configure => Phase::Invoke,
                Phase::Invoke => Phase::Release,
                _ => Phase::Done,
            }
        }
    }
}

/// The phase that a request reaches from `start` through `replies`, taken
/// in order.
pub open spec fn run(start: Phase, replies: Seq<Reply>) -> Phase
    decreases replies.len(),
{
    if replies.len() == 0 {
        start
    } else {
        run(start, replies.drop_last()).after(replies.last())
    }
}

/// How many native buffers were handed out on the way from `start` through
/// `replies`: the replies `Returned` that came while a call was due.
pub open spec fn acquired(start: Phase, replies: Seq<Reply>) -> nat
    decreases replies.len(),
{
    if replies.len() == 0 {
        0
    } else {
        let before = run(start, replies.drop_last());
        let now: nat = if before is Invoke && replies.last() is Returned {
            1
        } else {
            0
        };
        acquired(start, replies.drop_last()) + now
    }
}

/// How many native buffers were given back on the way from `start` through
/// `replies`: the replies `Released` that came while a release was due.
pub open spec fn released(start: Phase, replies: Seq<Reply>) -> nat
    decreases replies.len(),
{
    if replies.len() == 0 {
        0
    } else {
        let before = run(start, replies.drop_last());
        let now: nat = if before is Release && replies.last() is Released {
            1
        } else {
            0
        };
        released(start, replies.drop_last()) + now
    }
}

/// Every native buffer is given back exactly once.
///
/// Whatever replies a new request receives, in whatever order, it is handed
/// at most one buffer and gives back no more than it was handed. It holds a
/// buffer exactly while one more was handed out than given back, and when
/// it is done the buffer it was handed has been given back: none is leaked
/// and none is released twice.
pub proof fn lemma_buffer_released_once(replies: Seq<Reply>)
    ensures
        released(Phase::Configure, replies) <= acquired(Phase::Configure, replies) <= 1,
        run(Phase::Configure, replies).holds_buffer() <==> acquired(Phase::Configure, replies)
            == released(Phase::Configure, replies) + 1,
        run(Phase::Configure, replies) is Done ==> acquired(Phase::Configure, replies) == 1
            && released(Phase::Configure, replies) == 1,
        run(Phase::Configure, replies) is Configure || run(Phase::Configure, replies) is Invoke
            ==> acquired(Phase::Configure, replies) == 0,
    decreases replies.len(),
{
    if replies.len() > 0 {
        lemma_buffer_released_once(replies.drop_last());
    }
}

/// A request that receives its three replies in their order is done, with
/// one buffer handed out and given back.
pub proof fn lemma_replies_in_order_finish()
    ensures
        run(Phase::Configure, seq![Reply::Defaults, Reply::Returned, Reply::Released]) is Done,
        acquired(Phase::Configure, seq![Reply::Defaults, Reply::Returned, Reply::Released]) == 1,
        released(Phase::Configure, seq![Reply::Defaults, Reply::Returned, Reply::Released]) == 1,
{
    let all = seq![Reply::Defaults, Reply::Returned, Reply::Released];
    let two = seq![Reply::Defaults, Reply::Returned];
    let one = seq![Reply::Defaults];
    assert(all.drop_last() =~= two);
    assert(two.drop_last() =~= one);
    assert(one.drop_last() =~= Seq::<Reply>::empty());
    assert(run(Phase::Configure, Seq::<Reply>::empty()) is Configure);
    assert(one.last() is Defaults);
    assert(run(Phase::Configure, one) is Invoke);
    assert(two.last() is Returned);
    assert(run(Phase::Configure, two) is Release);
    assert(all.last() is Released);
    lemma_buffer_released_once(all);
}

/// A request that is done stays done: whatever replies come after, no
/// buffer is handed out and none is given back.
pub proof fn lemma_done_is_final(replies: Seq<Reply>)
    ensures
        run(Phase::Done, replies) is Done,
        acquired(Phase::Done, replies) == 0,
        released(Phase::Done, replies) == 0,
    decreases replies.len(),
{
    if replies.len() > 0 {
        lemma_done_is_final(replies.drop_last());
    }
}

} // verus!
