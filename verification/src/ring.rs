use arraydeque::{ArrayDeque, Wrapping};
use crate::line::LogLine;
use vstd::prelude::*;

verus! {

/// The number of lines that a ring keeps: the size of the array that backs it.
pub const RING_CAPACITY: usize = 2048;

/// A ring of log lines kept in an `arraydeque::ArrayDeque` of 2048 slots with
/// wrapping behaviour: a push onto a full ring drops the oldest line.
/// The deque is hidden from the verifier; `ring_contents` names what it holds.
#[verifier::external_body]
pub struct LogRing {
    deque: ArrayDeque<[LogLine; 2048], Wrapping>,
}

/// The lines that a ring holds, from the oldest (front) to the newest (back).
pub uninterp spec fn ring_contents(ring: LogRing) -> Seq<LogLine>;

/// `ArrayDeque::new`: a new deque holds nothing.
#[verifier::external_body]
pub(crate) fn ring_new() -> (ring: LogRing)
    ensures
        ring_contents(ring) == Seq::<LogLine>::empty(),
{
    LogRing { deque: ArrayDeque::new() }
}

/// `ArrayDeque::len`: the number of lines the deque holds, which never exceeds
/// the 2048 slots of its array.
#[verifier::external_body]
pub(crate) fn ring_len(ring: &LogRing) -> (n: usize)
    ensures
        n == ring_contents(*ring).len(),
        n <= RING_CAPACITY,
{
    ring.deque.len()
}

/// `ArrayDeque::get`: the line at `index` counted from the front, if the deque
/// holds that many lines.
#[verifier::external_body]
pub(crate) fn ring_get(ring: &LogRing, index: usize) -> (line: Option<&LogLine>)
    ensures
        index < ring_contents(*ring).len() ==> line == Some(&ring_contents(*ring)[index as int]),
        index >= ring_contents(*ring).len() ==> line is None,
{
    ring.deque.get(index)
}

/// `ArrayDeque::push_back` with wrapping behaviour: when the deque already holds
/// 2048 lines, its front line is removed and handed back; the new line is then
/// appended at the back.
#[verifier::external_body]
pub(crate) fn ring_push_back(ring: &mut LogRing, line: LogLine) -> (evicted: Option<LogLine>)
    ensures
        ring_contents(*old(ring)).len() < RING_CAPACITY ==> {
            &&& ring_contents(*final(ring)) == ring_contents(*old(ring)).push(line)
            &&& evicted is None
        },
        ring_contents(*old(ring)).len() >= RING_CAPACITY ==> {
            &&& ring_contents(*final(ring)) == ring_contents(*old(ring)).drop_first().push(line)
            &&& evicted == Some(ring_contents(*old(ring))[0])
        },
{
    ring.deque.push_back(line)
}

} // verus!
