use vstd::prelude::*;
use std::collections::VecDeque;
use crate::node::DeviceNode;

verus! {

/// The head of a queue, if it has one.
pub open spec fn front(q: Seq<char>) -> Option<char> {
    if q.len() > 0 {
        Some(q[0])
    } else {
        None
    }
}

/// A queue with its head removed; an empty queue stays empty.
pub open spec fn rest(q: Seq<char>) -> Seq<char> {
    if q.len() > 0 {
        q.drop_first()
    } else {
        q
    }
}

/// The queue after pushing each character of `cs` in turn.
pub open spec fn pushed_all(q: Seq<char>, cs: Seq<char>) -> Seq<char>
    decreases cs.len(),
{
    if cs.len() == 0 {
        q
    } else {
        pushed_all(q, cs.drop_last()).push(cs.last())
    }
}

/// The characters that `n` successive pops take from `q`, in order; a pop on
/// an empty queue takes nothing.
pub open spec fn pops_of(q: Seq<char>, n: nat) -> Seq<char>
    decreases n,
{
    if n == 0 {
        Seq::empty()
    } else {
        match front(q) {
            Some(c) => seq![c] + pops_of(rest(q), (n - 1) as nat),
            None => Seq::empty(),
        }
    }
}

/// The byte that a console read hands out for a character: its low eight bits.
pub open spec fn byte_of(c: char) -> u8 {
    c as u8
}

proof fn lemma_pushed_all_appends(q: Seq<char>, cs: Seq<char>)
    ensures
        pushed_all(q, cs) == q + cs,
    decreases cs.len(),
{
    if cs.len() > 0 {
        lemma_pushed_all_appends(q, cs.drop_last());
        assert((q + cs.drop_last()).push(cs.last()) =~= q + cs);
    } else {
        assert(q + cs =~= q);
    }
}

proof fn lemma_pops_take_prefix(q: Seq<char>)
    ensures
        pops_of(q, q.len()) == q,
    decreases q.len(),
{
    if q.len() > 0 {
        lemma_pops_take_prefix(q.drop_first());
        assert(seq![q[0]] + q.drop_first() =~= q);
    } else {
        assert(pops_of(q, 0) =~= q);
    }
}

/// Characters leave the queue in the order they were pushed: after pushes of
/// `cs` onto a queue holding `q`, as many pops as there are characters yield
/// `q` followed by `cs`, with nothing lost, repeated or reordered.
pub proof fn lemma_fifo_order(q: Seq<char>, cs: Seq<char>)
    ensures
        pops_of(pushed_all(q, cs), q.len() + cs.len()) == q + cs,
        pops_of(pushed_all(Seq::empty(), cs), cs.len()) == cs,
{
    lemma_pushed_all_appends(q, cs);
    lemma_pops_take_prefix(q + cs);
    lemma_pushed_all_appends(Seq::empty(), cs);
    assert(Seq::<char>::empty() + cs =~= cs);
    lemma_pops_take_prefix(cs);
}

/// A reader that found the queue empty, and waits for the next push, gets
/// exactly the character that push delivered, and leaves the queue empty again.
pub proof fn lemma_push_wakes_reader(q: Seq<char>, c: char)
    requires
        front(q) == None::<char>,
    ensures
        front(q.push(c)) == Some(c),
        rest(q.push(c)) == q,
{
    assert(q.len() == 0);
    assert(q.push(c).drop_first() =~= q);
}

/// Console input: an unbounded first-in first-out queue of characters.
pub struct Stdin {
    buf: VecDeque<char>,
}

impl View for Stdin {
    type V = Seq<char>;

    closed spec fn view(&self) -> Seq<char> {
        self.buf@
    }
}

impl Default for Stdin {
    fn default() -> (r: Self)
        ensures
            r@ == Seq::<char>::empty(),
    {
        Stdin::new()
    }
}

impl Stdin {
    /// An empty queue.
    pub fn new() -> (r: Self)
        ensures
            r@ == Seq::<char>::empty(),
    {
        Stdin { buf: VecDeque::new() }
    }

    /// Appends `c` at the tail. A caller that shares the queue signals one
    /// waiting reader afterwards.
    pub fn push(&mut self, c: char)
        ensures
            final(self)@ == old(self)@.push(c),
    {
        self.buf.push_back(c);
    }

    /// Removes and returns the head. `None` means that the queue is empty:
    /// the caller then waits for the next push and asks again.
    pub fn pop(&mut self) -> (r: Option<char>)
        ensures
            r == front(old(self)@),
            final(self)@ == rest(old(self)@),
    {
        let r = self.buf.pop_front();
        proof {
            if old(self)@.len() > 0 {
                assert(old(self)@.subrange(1, old(self)@.len() as int) =~= old(self)@.drop_first());
            }
        }
        r
    }

    /// Whether a pop would find a character now.
    pub fn can_read(&self) -> (r: bool)
        ensures
            r == (self@.len() > 0),
    {
        self.buf.len() > 0
    }

    /// Reads one character into `buf[0]` and reports one byte read, whatever
    /// the length of `buf`; the rest of `buf` is left as it was. `None` means
    /// that the queue is empty and nothing changed: the caller waits for the
    /// next push and asks again.
    pub fn read_at(&mut self, _offset: usize, buf: &mut [u8]) -> (r: Option<usize>)
        requires
            old(buf)@.len() >= 1,
        ensures
            final(self)@ == rest(old(self)@),
            match front(old(self)@) {
                Some(c) => r == Some(1usize) && final(buf)@ == old(buf)@.update(0, byte_of(c)),
                None => r == None::<usize> && final(buf)@ == old(buf)@,
            },
    {
        match self.pop() {
            Some(c) => {
                buf[0] = c as u8;
                Some(1)
            },
            None => None,
        }
    }
}

impl DeviceNode for Stdin {}

} // verus!
