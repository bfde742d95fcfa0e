//! An in-memory model of the connection collaborator.
//!
//! The real collaborator sends statements over the wire or to an embedded
//! engine; the transaction layer only cares about two things it exhibits:
//! the sequence of operations issued to it, and the reply each operation
//! draws. [`Connection`] holds exactly those: a log of every operation
//! issued, in order, and a queue of scripted replies the next operations
//! will receive. The handle's discipline is verified against this model;
//! application code adapts a real I/O connection through the same
//! `finish_*` decision functions the handle uses.

use vstd::prelude::*;

use crate::protocol::Op;
use crate::protocol::OpView;
use crate::protocol::Reply;
use crate::protocol::ReplyView;

verus! {

/// What remains of a reply queue after one operation has drawn a reply: an
/// exhausted queue stays exhausted.
pub open spec fn pending_after(pending: Seq<ReplyView>) -> Seq<ReplyView> {
    if pending.len() == 0 {
        pending
    } else {
        pending.skip(1)
    }
}

/// The reply the next operation draws: the head of the queue, or a failure
/// with an empty message once the queue is exhausted (the connection no
/// longer answers).
pub open spec fn next_reply(pending: Seq<ReplyView>) -> ReplyView {
    if pending.len() == 0 {
        ReplyView::Failure(Seq::empty())
    } else {
        pending[0]
    }
}

/// The connection collaborator, modeled by what the transaction layer can
/// observe of it: every operation issued to it and the replies it returns.
pub struct Connection {
    ops: Vec<Op>,
    replies: Vec<Reply>,
}

/// The mathematical value of a [`Connection`]: the log of issued operations
/// and the queue of replies still pending.
pub struct ConnectionView {
    pub log: Seq<OpView>,
    pub pending: Seq<ReplyView>,
}

impl View for Connection {
    type V = ConnectionView;

    closed spec fn view(&self) -> ConnectionView {
        ConnectionView {
            log: self.ops@.map_values(|o: Op| o@),
            pending: self.replies@.map_values(|r: Reply| r@),
        }
    }
}

impl Connection {
    /// A fresh connection that will answer operations with `replies`, in
    /// order, and has issued nothing yet.
    pub fn new(replies: Vec<Reply>) -> (c: Connection)
        ensures
            c@.log == Seq::<OpView>::empty(),
            c@.pending == replies@.map_values(|r: Reply| r@),
    {
        let c = Connection { ops: Vec::new(), replies };
        proof {
            assert(c@.log =~= Seq::<OpView>::empty());
        }
        c
    }

    /// Issue one operation: it is appended to the log and draws the next
    /// scripted reply.
    pub fn issue(&mut self, op: Op) -> (reply: Reply)
        ensures
            final(self)@.log == old(self)@.log.push(op@),
            final(self)@.pending == pending_after(old(self)@.pending),
            reply@ == next_reply(old(self)@.pending),
    {
        let ghost pre_ops = self.ops@;
        let ghost pre_replies = self.replies@;
        self.ops.push(op);
        proof {
            assert(self.ops@.map_values(|o: Op| o@) =~= pre_ops.map_values(|o: Op| o@).push(op@));
        }
        if self.replies.len() > 0 {
            let reply = self.replies.remove(0);
            proof {
                assert(self.replies@ =~= pre_replies.skip(1));
                assert(self.replies@.map_values(|r: Reply| r@) =~= pre_replies.map_values(
                    |r: Reply| r@,
                ).skip(1));
                assert(reply@ == pre_replies.map_values(|r: Reply| r@)[0]);
            }
            reply
        } else {
            Reply::Failure(String::new())
        }
    }

    /// The log of every operation issued on this connection, in order.
    pub fn log(&self) -> (r: &Vec<Op>)
        ensures
            r@.map_values(|o: Op| o@) == self@.log,
    {
        &self.ops
    }

    /// How many scripted replies are still pending.
    pub fn pending_len(&self) -> (n: usize)
        ensures
            n == self@.pending.len(),
    {
        self.replies.len()
    }
}

} // verus!
