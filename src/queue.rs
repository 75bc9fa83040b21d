//! The bounded FIFO queues between stages.
//!
//! A queue holds tickets: each stands for one item in flight (a connection
//! and what has been made of it so far), which the stage keeps beside the
//! queue under the same ticket.
use vstd::prelude::*;

use cyclic_data_types::error::Error as ListError;
use cyclic_data_types::list::List;

verus! {

/// The capacity of every stage queue.
pub const QUEUE_SIZE: usize = 264;

#[verifier::external_type_specification]
#[verifier::external_body]
#[verifier::reject_recursive_types(T)]
pub struct ExList<const SIZE: usize, T: Sized, const WRITE_OVER: bool>(List<SIZE, T, WRITE_OVER>);

#[verifier::external_type_specification]
#[verifier::external_body]
pub struct ExListError(ListError);

/// The items of a ring list, front first.
pub uninterp spec fn list_items(l: List<QUEUE_SIZE, u64, false>) -> Seq<u64>;

/// Relies on `List::default`: a list with no items.
#[verifier::external_body]
fn list_new() -> (r: List<QUEUE_SIZE, u64, false>)
    ensures
        list_items(r) == Seq::<u64>::empty(),
{
    List::default()
}

/// Relies on `List::len`: the number of items.
#[verifier::external_body]
fn list_len(l: &List<QUEUE_SIZE, u64, false>) -> (r: usize)
    ensures
        r == list_items(*l).len(),
{
    l.len()
}

/// Relies on `List::push_back` without write-over: when the list already
/// holds `QUEUE_SIZE` items it fails and keeps them; otherwise `v` goes at
/// the back.
#[verifier::external_body]
fn list_push_back(l: &mut List<QUEUE_SIZE, u64, false>, v: u64) -> (r: Result<(), ListError>)
    ensures
        list_items(*old(l)).len() + 1 > QUEUE_SIZE ==> r is Err && list_items(*final(l)) == list_items(*old(l)),
        list_items(*old(l)).len() + 1 <= QUEUE_SIZE ==> r is Ok && list_items(*final(l)) == list_items(*old(l)).push(v),
{
    match l.push_back(v) {
        Ok(_) => Ok(()),
        Err(e) => Err(e),
    }
}

/// Relies on `List::remove_front`: the front item, taken out, or `None`
/// when the list is empty.
#[verifier::external_body]
fn list_remove_front(l: &mut List<QUEUE_SIZE, u64, false>) -> (r: Option<u64>)
    ensures
        list_items(*old(l)).len() == 0 ==> r is None && list_items(*final(l)) == list_items(*old(l)),
        list_items(*old(l)).len() > 0 ==> r == Some(list_items(*old(l))[0]) && list_items(*final(l)) == list_items(
            *old(l),
        ).drop_first(),
{
    l.remove_front()
}

/// A push onto a queue that already holds `QUEUE_SIZE` tickets.
#[derive(Debug, Clone, Copy, PartialEq, Eq, Structural)]
pub struct QueueFull;

/// A bounded FIFO queue of tickets.
pub struct StageQueue {
    list: List<QUEUE_SIZE, u64, false>,
}

impl View for StageQueue {
    type V = Seq<u64>;

    closed spec fn view(&self) -> Seq<u64> {
        list_items(self.list)
    }
}

impl StageQueue {
    /// The queue holds at most `QUEUE_SIZE` tickets.
    pub open spec fn wf(&self) -> bool {
        self@.len() <= QUEUE_SIZE
    }

    /// An empty queue.
    pub fn new() -> (r: StageQueue)
        ensures
            r@ == Seq::<u64>::empty(),
            r.wf(),
    {
        StageQueue { list: list_new() }
    }

    /// The number of tickets waiting.
    pub fn len(&self) -> (r: usize)
        ensures
            r == self@.len(),
    {
        list_len(&self.list)
    }

    /// Puts `v` at the back; a full queue refuses it and stays as it was.
    pub fn try_push_back(&mut self, v: u64) -> (r: Result<(), QueueFull>)
        requires
            old(self).wf(),
        ensures
            final(self).wf(),
            old(self)@.len() < QUEUE_SIZE ==> r is Ok && final(self)@ == old(self)@.push(v),
            old(self)@.len() == QUEUE_SIZE ==> r == Err::<(), QueueFull>(QueueFull) && final(self)@ == old(self)@,
    {
        match list_push_back(&mut self.list, v) {
            Ok(()) => Ok(()),
            Err(_) => Err(QueueFull),
        }
    }

    /// Takes the front ticket; `None` when the queue is empty.
    pub fn try_pop_front(&mut self) -> (r: Option<u64>)
        requires
            old(self).wf(),
        ensures
            final(self).wf(),
            old(self)@.len() == 0 ==> r is None && final(self)@ == old(self)@,
            old(self)@.len() > 0 ==> r == Some(old(self)@[0]) && final(self)@ == old(self)@.drop_first(),
    {
        list_remove_front(&mut self.list)
    }
}

} // verus!
