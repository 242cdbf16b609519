//! The correlation queue between the receive and send halves, and the
//! receive half's decision on each read.
use vstd::prelude::*;

use crate::protocol::Response;
use crate::sender::Sender;

verus! {

/// Capacity of the correlation queue.
pub const QUEUE_CAPACITY: usize = 4;

/// Bounded FIFO of decoded responses, one publisher and one consumer per
/// session. Publishing never blocks: when the queue is full the oldest unread
/// response is dropped to make room.
pub struct CorrelationQueue {
    items: Vec<Response>,
}

/// The queue's contents after publishing `r` onto `q`.
pub open spec fn published(q: Seq<Response>, r: Response) -> Seq<Response> {
    if q.len() < QUEUE_CAPACITY {
        q.push(r)
    } else {
        q.drop_first().push(r)
    }
}

impl CorrelationQueue {
    /// The unread responses, oldest first.
    pub closed spec fn view(&self) -> Seq<Response> {
        self.items@
    }

    pub open spec fn wf(&self) -> bool {
        self@.len() <= QUEUE_CAPACITY
    }

    pub fn new() -> (q: CorrelationQueue)
        ensures
            q@ == Seq::<Response>::empty(),
            q.wf(),
    {
        CorrelationQueue { items: Vec::new() }
    }

    pub fn len(&self) -> (n: usize)
        ensures
            n == self@.len(),
    {
        self.items.len()
    }

    /// Appends `r`, dropping the oldest unread response first if full.
    pub fn publish(&mut self, r: Response)
        requires
            old(self).wf(),
        ensures
            final(self)@ == published(old(self)@, r),
            final(self).wf(),
    {
        if self.items.len() >= QUEUE_CAPACITY {
            self.items.remove(0);
        }
        self.items.push(r);
    }

    /// Takes the oldest unread response, if any.
    pub fn next(&mut self) -> (r: Option<Response>)
        requires
            old(self).wf(),
        ensures
            old(self)@.len() == 0 ==> r is None && final(self)@ == old(self)@,
            old(self)@.len() > 0 ==> r == Some(old(self)@[0]) && final(self)@
                == old(self)@.drop_first(),
            final(self).wf(),
    {
        if self.items.len() == 0 {
            None
        } else {
            Some(self.items.remove(0))
        }
    }
}

/// What one read of the transport's receive half produced, after decoding.
pub enum Inbound {
    /// A zero-length read: the peer closed its side.
    EndOfStream,
    /// The read itself failed (including an idle timeout).
    ReadFailed,
    /// Bytes arrived that the codec could not decode.
    Undecodable,
    /// A well-formed message that carries no id (a server notification).
    Notification,
    /// A decoded response to one of this session's requests.
    Reply(Response),
}

/// The receive half's step: a decoded response is published onto the queue;
/// anything else is dropped and the receiver reads on. Returns whether a
/// response was published.
pub fn receive(q: &mut CorrelationQueue, inbound: Inbound) -> (sent: bool)
    requires
        old(q).wf(),
    ensures
        sent == inbound is Reply,
        sent ==> final(q)@ == published(old(q)@, inbound->Reply_0),
        !sent ==> final(q)@ == old(q)@,
        final(q).wf(),
{
    match inbound {
        Inbound::Reply(r) => {
            q.publish(r);
            true
        },
        _ => false,
    }
}

/// Index of the first response in `rs` that answers the sender's outstanding
/// request, or `rs.len()` when none does.
pub open spec fn first_answer(s: Sender, rs: Seq<Response>) -> int
    decreases rs.len(),
{
    if rs.len() == 0 {
        0
    } else if s.answers(rs[0].id) {
        0
    } else {
        1 + first_answer(s, rs.drop_first())
    }
}

/// The send half's wait: takes responses off the queue, discarding each that
/// does not answer the outstanding request, until one does or the queue is
/// empty. Returns whether the outstanding request was answered; if not, the
/// wait goes on.
pub fn await_reply(s: &mut Sender, q: &mut CorrelationQueue) -> (answered: bool)
    requires
        old(s).wf(),
        old(s).id < u64::MAX,
        old(q).wf(),
    ensures
        ({
            let k = first_answer(*old(s), old(q)@);
            &&& 0 <= k <= old(q)@.len()
            &&& answered == (k < old(q)@.len())
            &&& answered ==> *final(s) == old(s).reply_step(old(q)@[k]) && final(q)@
                == old(q)@.skip(k + 1)
            &&& !answered ==> *final(s) == *old(s) && final(q)@ == Seq::<Response>::empty()
        }),
        final(s).wf(),
        final(q).wf(),
{
    let ghost s0 = *s;
    let ghost q0 = q@;
    proof {
        lemma_first_answer_bounds(s0, q0);
    }
    let mut taken: usize = 0;
    loop
        invariant
            *s == s0,
            s0 == *old(s),
            q0 == old(q)@,
            s0.wf(),
            s0.id < u64::MAX,
            q.wf(),
            0 <= taken <= q0.len(),
            q0.len() <= QUEUE_CAPACITY,
            taken <= first_answer(s0, q0),
            first_answer(s0, q0) <= q0.len(),
            first_answer(s0, q0) < q0.len() ==> s0.answers(q0[first_answer(s0, q0)].id),
            q@ == q0.skip(taken as int),
            forall|i: int| 0 <= i < taken ==> !s0.answers(#[trigger] q0[i].id),
        ensures
            first_answer(s0, q0) < q0.len() ==> *final(s) == s0.reply_step(q0[first_answer(s0, q0)])
                && final(q)@ == q0.skip(first_answer(s0, q0) + 1),
            first_answer(s0, q0) == q0.len() ==> *final(s) == s0 && final(q)@ == Seq::<Response>::empty(),
            final(s).wf(),
            final(q).wf(),
        decreases q0.len() - taken,
    {
        match q.next() {
            None => {
                assert(q0.skip(taken as int).len() == q0.len() - taken);
                proof {
                    lemma_no_answer_in_prefix(s0, q0, taken as int);
                }
                assert(q@ =~= Seq::<Response>::empty());
                return false;
            },
            Some(r) => {
                assert(r == q0[taken as int]);
                if s.on_response(&r) {
                    proof {
                        lemma_first_answer_at(s0, q0, taken as int);
                    }
                    assert(q@ =~= q0.skip(taken + 1));
                    return true;
                }
                assert(q@ =~= q0.skip(taken + 1));
                taken = taken + 1;
            },
        }
    }
}

proof fn lemma_first_answer_bounds(s: Sender, rs: Seq<Response>)
    ensures
        0 <= first_answer(s, rs) <= rs.len(),
        first_answer(s, rs) < rs.len() ==> s.answers(rs[first_answer(s, rs)].id),
        forall|i: int| 0 <= i < first_answer(s, rs) ==> !s.answers(#[trigger] rs[i].id),
    decreases rs.len(),
{
    if rs.len() > 0 && !s.answers(rs[0].id) {
        lemma_first_answer_bounds(s, rs.drop_first());
        assert forall|i: int| 0 <= i < first_answer(s, rs) implies !s.answers(#[trigger] rs[i].id) by {
            if i > 0 {
                assert(rs[i] == rs.drop_first()[i - 1]);
            }
        }
    }
}

/// If no response among the first `k` answers and the `k`-th does, the first
/// answer is at `k`.
proof fn lemma_first_answer_at(s: Sender, rs: Seq<Response>, k: int)
    requires
        0 <= k < rs.len(),
        s.answers(rs[k].id),
        forall|i: int| 0 <= i < k ==> !s.answers(#[trigger] rs[i].id),
    ensures
        first_answer(s, rs) == k,
    decreases k,
{
    if k > 0 {
        assert(!s.answers(rs[0].id));
        assert forall|i: int| 0 <= i < k - 1 implies !s.answers(#[trigger] rs.drop_first()[i].id) by {
            assert(rs.drop_first()[i] == rs[i + 1]);
        }
        lemma_first_answer_at(s, rs.drop_first(), k - 1);
    }
}

/// If none of the `rs.len()` responses answers, the first answer is past the end.
proof fn lemma_no_answer_in_prefix(s: Sender, rs: Seq<Response>, k: int)
    requires
        k == rs.len(),
        forall|i: int| 0 <= i < k ==> !s.answers(#[trigger] rs[i].id),
    ensures
        first_answer(s, rs) == rs.len(),
    decreases k,
{
    if k > 0 {
        assert(!s.answers(rs[0].id));
        assert forall|i: int| 0 <= i < k - 1 implies !s.answers(#[trigger] rs.drop_first()[i].id) by {
            assert(rs.drop_first()[i] == rs[i + 1]);
        }
        lemma_no_answer_in_prefix(s, rs.drop_first(), k - 1);
    }
}

} // verus!
