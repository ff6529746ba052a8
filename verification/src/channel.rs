//! The command channel: a bounded, order-preserving FIFO of color commands.
//!
//! This queue is the sole synchronization point between the network side
//! (the listener produces) and the hardware side (the driver consumes). It
//! holds at most [`CHANNEL_CAPACITY`] commands; a producer whose push is
//! refused must suspend until the consumer frees a slot, and a consumer whose
//! pop comes back empty must suspend until a command arrives. The suspension
//! itself is the scheduler's business; this type decides, exactly, when a
//! push or pop goes through and what the queue holds afterwards.

use vstd::prelude::*;

use crate::color::ColorCommand;

verus! {

/// How many commands the channel can hold at once.
pub const CHANNEL_CAPACITY: usize = 3;

/// A bounded FIFO of color commands, capacity [`CHANNEL_CAPACITY`], single
/// producer, single consumer. Its view is the sequence of queued commands,
/// oldest first.
pub struct CommandQueue {
    items: Vec<ColorCommand>,
}

impl View for CommandQueue {
    type V = Seq<ColorCommand>;

    closed spec fn view(&self) -> Seq<ColorCommand> {
        self.items@
    }
}

impl CommandQueue {
    /// The queue never holds more than [`CHANNEL_CAPACITY`] commands.
    pub open spec fn wf(&self) -> bool {
        self@.len() <= CHANNEL_CAPACITY
    }

    /// A fresh, empty channel.
    pub fn new() -> (q: CommandQueue)
        ensures
            q@ == Seq::<ColorCommand>::empty(),
            q.wf(),
    {
        CommandQueue { items: Vec::new() }
    }

    /// How many commands are queued right now.
    pub fn len(&self) -> (n: usize)
        ensures
            n == self@.len(),
    {
        self.items.len()
    }

    /// Whether the queue holds no command.
    pub fn is_empty(&self) -> (e: bool)
        ensures
            e <==> self@.len() == 0,
    {
        self.items.len() == 0
    }

    /// Whether the queue is at capacity, so that the next push is refused.
    pub fn is_full(&self) -> (f: bool)
        requires
            self.wf(),
        ensures
            f <==> self@.len() == CHANNEL_CAPACITY,
    {
        self.items.len() == CHANNEL_CAPACITY
    }

    /// Appends a command at the back, unless the queue is full. Returns
    /// whether the command was taken; when it is refused the queue is
    /// unchanged and the producer must suspend and retry after a pop.
    pub fn try_push(&mut self, c: ColorCommand) -> (ok: bool)
        requires
            old(self).wf(),
        ensures
            final(self).wf(),
            ok <==> old(self)@.len() < CHANNEL_CAPACITY,
            ok ==> final(self)@ == old(self)@.push(c),
            !ok ==> final(self)@ == old(self)@,
    {
        if self.items.len() < CHANNEL_CAPACITY {
            self.items.push(c);
            true
        } else {
            false
        }
    }

    /// The commands still pending after `k` pops from a queue whose view was
    /// `s`: each successful pop takes the front, as `try_pop` ensures.
    pub open spec fn pending_after(s: Seq<ColorCommand>, k: int) -> Seq<ColorCommand>
        recommends
            0 <= k <= s.len(),
    {
        s.subrange(k, s.len() as int)
    }

    /// Removes and returns the oldest command, or `None` when the queue is
    /// empty; an empty pop leaves the queue unchanged and the consumer must
    /// suspend and retry after a push.
    pub fn try_pop(&mut self) -> (r: Option<ColorCommand>)
        requires
            old(self).wf(),
        ensures
            final(self).wf(),
            r is Some <==> old(self)@.len() > 0,
            r is Some ==> r->Some_0 == old(self)@[0] && final(self)@ == old(self)@.subrange(
                1,
                old(self)@.len() as int,
            ),
            r is None ==> final(self)@ == old(self)@,
    {
        if self.items.len() > 0 {
            let c = self.items.remove(0);
            proof {
                assert(self.items@ =~= old(self)@.subrange(1, old(self)@.len() as int));
            }
            Some(c)
        } else {
            None
        }
    }
}

/// Law: the channel is first-in first-out. Starting from a queue whose view
/// is `s`, the pop that follows `k` earlier pops returns `s[k]`, the `k`-th
/// oldest command, and leaves exactly the commands after it — so commands
/// leave in the order they entered. Each step is the contract of `try_pop`
/// applied to `pending_after(s, k)`.
pub proof fn lemma_fifo_order(s: Seq<ColorCommand>, k: int)
    requires
        0 <= k < s.len(),
    ensures
        CommandQueue::pending_after(s, 0) == s,
        CommandQueue::pending_after(s, k).len() == s.len() - k,
        CommandQueue::pending_after(s, k)[0] == s[k],
        CommandQueue::pending_after(s, k).subrange(
            1,
            CommandQueue::pending_after(s, k).len() as int,
        ) == CommandQueue::pending_after(s, k + 1),
{
    assert(CommandQueue::pending_after(s, 0) =~= s);
    assert(CommandQueue::pending_after(s, k).subrange(
        1,
        CommandQueue::pending_after(s, k).len() as int,
    ) =~= CommandQueue::pending_after(s, k + 1));
}

/// Law: a push on a full channel is refused — `try_push` takes a command
/// exactly when the queue holds fewer than [`CHANNEL_CAPACITY`] — and a
/// single pop frees a slot, after which the blocked push is taken.
pub proof fn lemma_full_push_blocks_until_pop(s: Seq<ColorCommand>)
    requires
        s.len() == CHANNEL_CAPACITY,
    ensures
        !(s.len() < CHANNEL_CAPACITY),
        s.subrange(1, s.len() as int).len() < CHANNEL_CAPACITY,
{
}

} // verus!
