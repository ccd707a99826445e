use vstd::prelude::*;
use crate::command::{is_priority, Command};

verus! {

/// A command waiting in the channel, with the slot through which its
/// issuer awaits the answer.
pub struct Queued<T> {
    pub command: Command,
    pub slot: T,
}

/// The priority commands stand before all ordinary ones.
pub open spec fn priority_first<T>(q: Seq<Queued<T>>) -> bool {
    forall|i: int, j: int|
        #![trigger q[i], q[j]]
        0 <= i < j < q.len() && is_priority(q[j].command.kind) ==> is_priority(q[i].command.kind)
}

/// `k` is where the priority commands of `q` end.
pub open spec fn priority_end<T>(q: Seq<Queued<T>>, k: int) -> bool {
    &&& 0 <= k <= q.len()
    &&& forall|i: int| 0 <= i < k ==> is_priority((#[trigger] q[i]).command.kind)
    &&& forall|i: int| k <= i < q.len() ==> !is_priority((#[trigger] q[i]).command.kind)
}

/// The channel from the callers to the capture worker. Ordinary commands
/// are delivered first in, first out; cancel, close and shutdown overtake
/// them, first in, first out among themselves.
pub struct CommandQueue<T> {
    items: Vec<Queued<T>>,
}

impl<T> View for CommandQueue<T> {
    type V = Seq<Queued<T>>;

    closed spec fn view(&self) -> Seq<Queued<T>> {
        self.items@
    }
}

impl<T> CommandQueue<T> {
    pub fn new() -> (r: CommandQueue<T>)
        ensures
            r@ == Seq::<Queued<T>>::empty(),
    {
        CommandQueue { items: Vec::new() }
    }

    pub fn len(&self) -> (r: usize)
        ensures
            r == self@.len(),
    {
        self.items.len()
    }

    pub fn is_empty(&self) -> (r: bool)
        ensures
            r == (self@.len() == 0),
    {
        self.items.len() == 0
    }

    /// Adds `cmd`: an ordinary command at the back, a priority command right
    /// after the priority commands already waiting.
    pub fn enqueue(&mut self, cmd: Queued<T>)
        requires
            priority_first(old(self)@),
        ensures
            priority_first(final(self)@),
            !is_priority(cmd.command.kind) ==> final(self)@ == old(self)@.push(cmd),
            is_priority(cmd.command.kind) ==> exists|k: int|
                priority_end(old(self)@, k) && final(self)@ == old(self)@.insert(k, cmd),
    {
        if !cmd.command.kind.is_priority() {
            self.items.push(cmd);
            return;
        }
        let mut k: usize = 0;
        while k < self.items.len() && self.items[k].command.kind.is_priority()
            invariant
                self.items@ == old(self)@,
                k <= self.items@.len(),
                forall|i: int| 0 <= i < k ==> is_priority((#[trigger] self.items@[i]).command.kind),
            decreases self.items@.len() - k,
        {
            k = k + 1;
        }
        proof {
            let q = old(self)@;
            assert forall|i: int| k <= i < q.len() implies !is_priority((#[trigger] q[i]).command.kind) by {
                if is_priority(q[i].command.kind) {
                    assert(is_priority(q[k as int].command.kind));
                }
            }
        }
        self.items.insert(k, cmd);
        proof {
            let q = old(self)@;
            let r = self.items@;
            assert(priority_end(q, k as int));
            assert forall|i: int, j: int|
                #![trigger r[i], r[j]]
                0 <= i < j < r.len() && is_priority(r[j].command.kind) implies is_priority(r[i].command.kind) by {
                if i < k {
                    assert(r[i] == q[i]);
                } else if i == k {
                } else {
                    assert(r[i] == q[i - 1]);
                    assert(r[j] == q[j - 1]);
                }
            }
        }
    }

    /// Takes the command at the front, if any.
    pub fn dequeue(&mut self) -> (r: Option<Queued<T>>)
        requires
            priority_first(old(self)@),
        ensures
            priority_first(final(self)@),
            old(self)@.len() == 0 ==> r is None && final(self)@ == old(self)@,
            old(self)@.len() > 0 ==> r == Some(old(self)@[0]) && final(self)@ == old(self)@.drop_first(),
    {
        if self.items.len() == 0 {
            return None;
        }
        let c = self.items.remove(0);
        proof {
            let q = old(self)@;
            let r = self.items@;
            assert(r =~= q.drop_first());
            assert forall|i: int, j: int|
                #![trigger r[i], r[j]]
                0 <= i < j < r.len() && is_priority(r[j].command.kind) implies is_priority(r[i].command.kind) by {
                assert(r[i] == q[i + 1]);
                assert(r[j] == q[j + 1]);
            }
        }
        Some(c)
    }
}

} // verus!
