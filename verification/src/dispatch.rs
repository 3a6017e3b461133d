use vstd::prelude::*;
use crate::session::acquisitions_in;
use crate::session::releases_in;
use crate::session::run_from;
use crate::session::AudioCommand;
use crate::session::SessionSimulator;

verus! {

/// The boolean a caller is told when its submission was delivered: `true`
/// acknowledges a `Start`, `false` anything else.
pub open spec fn accepted_reply(c: AudioCommand) -> bool {
    c is Start
}

/// The unbounded first-in-first-out queue through which every caller
/// reaches the single worker that owns the audio session. Submissions go
/// to the back, the worker consumes from the front, so commands are
/// processed in exactly the order they were submitted: none is dropped,
/// none reordered.
pub struct CommandQueue {
    items: Vec<AudioCommand>,
}

impl CommandQueue {
    /// The pending commands, oldest first.
    pub closed spec fn pending(self) -> Seq<AudioCommand> {
        self.items@
    }

    /// An empty queue.
    pub fn new() -> (q: Self)
        ensures
            q.pending() =~= Seq::<AudioCommand>::empty(),
    {
        CommandQueue { items: Vec::new() }
    }

    /// How many commands are pending.
    pub fn len(&self) -> (n: usize)
        ensures
            n == self.pending().len(),
    {
        self.items.len()
    }

    /// Enqueue one command at the back; everything already pending keeps
    /// its place.
    pub fn submit(&mut self, c: AudioCommand)
        ensures
            final(self).pending() == old(self).pending().push(c),
    {
        self.items.push(c);
    }

    /// Dequeue the oldest pending command, if any.
    pub fn pop_front(&mut self) -> (r: Option<AudioCommand>)
        ensures
            old(self).pending().len() == 0 ==> r is None && *final(self) == *old(self),
            old(self).pending().len() > 0 ==> r == Some(old(self).pending().first())
                && final(self).pending() == old(self).pending().drop_first(),
    {
        if self.items.len() == 0 {
            return None;
        }
        let c = self.items.remove(0);
        proof {
            assert(self.items@ =~= old(self).pending().drop_first());
        }
        Some(c)
    }

    /// The worker's consuming loop over everything currently pending:
    /// dequeue the oldest command, apply it to the session, repeat until
    /// the queue is empty. The session ends in the state that applying
    /// the pending commands sequentially, in submission order, gives.
    pub fn process_all(&mut self, session: &mut SessionSimulator)
        requires
            old(session).acquisitions() + old(self).pending().len() <= u64::MAX,
            old(session).releases() + old(self).pending().len() <= u64::MAX,
        ensures
            final(self).pending().len() == 0,
            final(session).failing() == old(session).failing(),
            final(session).running() == run_from(
                old(session).running(),
                old(self).pending(),
                !old(session).failing(),
            ),
            final(session).acquisitions() == old(session).acquisitions() + acquisitions_in(
                old(session).running(),
                old(self).pending(),
                !old(session).failing(),
            ),
            final(session).releases() == old(session).releases() + releases_in(
                old(session).running(),
                old(self).pending(),
                !old(session).failing(),
            ),
    {
        session.process(&self.items);
        self.items.clear();
    }
}

/// What a status query reports from the worker's reply, if one arrived:
/// a missing reply (the worker is gone, or the reply conduit was
/// abandoned) degrades to "not playing" instead of an error.
pub fn status_or_default(reply: Option<bool>) -> (playing: bool)
    ensures
        playing == (reply == Some(true)),
{
    match reply {
        Some(b) => b,
        None => false,
    }
}

/// What a caller is told about its submission: when the command reached
/// the queue, the acknowledgement boolean for that command; when the
/// queue was unreachable, the delivery error, verbatim.
pub fn acknowledge(c: AudioCommand, delivery: Result<(), String>) -> (r: Result<bool, String>)
    ensures
        delivery is Ok ==> r == Ok::<bool, String>(accepted_reply(c)),
        delivery matches Err(e) ==> r == Err::<bool, String>(e),
{
    match delivery {
        Ok(()) => Ok(matches!(c, AudioCommand::Start)),
        Err(e) => Err(e),
    }
}

} // verus!
