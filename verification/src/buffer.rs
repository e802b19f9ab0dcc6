use crate::line::{format_record, record_line, LineView, LogLine, LogRecord};
use crate::ring::{
    ring_contents, ring_get, ring_len, ring_new, ring_push_back, LogRing, RING_CAPACITY,
};
use vstd::prelude::*;

verus! {

/// What a buffer of the given capacity holds after `line` is pushed onto
/// `lines`: the line is appended, and when the buffer was full its oldest line
/// is dropped first.
pub open spec fn keep_newest<T>(lines: Seq<T>, line: T, capacity: nat) -> Seq<T> {
    if lines.len() < capacity {
        lines.push(line)
    } else {
        lines.drop_first().push(line)
    }
}

/// What a buffer of the given capacity holds after each of `pushed` is pushed
/// onto `start`, in order.
pub open spec fn push_all<T>(start: Seq<T>, pushed: Seq<T>, capacity: nat) -> Seq<T>
    decreases pushed.len(),
{
    if pushed.len() == 0 {
        start
    } else {
        keep_newest(push_all(start, pushed.drop_last(), capacity), pushed.last(), capacity)
    }
}

/// The newest `capacity` elements of `lines` (all of them when there are no
/// more), oldest first.
pub open spec fn newest<T>(lines: Seq<T>, capacity: nat) -> Seq<T> {
    if lines.len() <= capacity {
        lines
    } else {
        lines.subrange(lines.len() - capacity, lines.len() as int)
    }
}

/// The buffer of log lines that the view shows: it keeps the newest
/// `LogBuffer::CAPACITY` lines, oldest first.
pub struct LogBuffer {
    ring: LogRing,
}

impl LogBuffer {
    /// The number of lines a buffer keeps.
    pub const CAPACITY: usize = RING_CAPACITY;

    /// The lines held, oldest first.
    pub closed spec fn lines(&self) -> Seq<LineView> {
        ring_contents(self.ring).map_values(|l: LogLine| l@)
    }

    /// An empty buffer.
    pub fn new() -> (buffer: LogBuffer)
        ensures
            buffer.lines() == Seq::<LineView>::empty(),
    {
        let buffer = LogBuffer { ring: ring_new() };
        assert(buffer.lines() =~= Seq::<LineView>::empty());
        buffer
    }

    /// The number of lines held, which never exceeds `CAPACITY`.
    pub fn len(&self) -> (n: usize)
        ensures
            n == self.lines().len(),
            n <= Self::CAPACITY,
    {
        ring_len(&self.ring)
    }

    /// The line at `index`, counted from the oldest, if there is one.
    pub fn get(&self, index: usize) -> (line: Option<&LogLine>)
        ensures
            index < self.lines().len() ==> (line matches Some(l) && l@ == self.lines()[index as int]),
            index >= self.lines().len() ==> line is None,
    {
        ring_get(&self.ring, index)
    }

    /// Appends a line; when the buffer is full, its oldest line is dropped.
    pub fn push_back(&mut self, line: LogLine)
        ensures
            final(self).lines() == keep_newest(old(self).lines(), line@, Self::CAPACITY as nat),
    {
        let ghost before = ring_contents(self.ring);
        let ghost view = line@;
        let _evicted = ring_push_back(&mut self.ring, line);
        proof {
            let after = ring_contents(self.ring);
            if before.len() < RING_CAPACITY {
                assert(after.map_values(|l: LogLine| l@) =~= before.map_values(|l: LogLine| l@).push(view));
            } else {
                assert(after.map_values(|l: LogLine| l@) =~= before.map_values(|l: LogLine| l@).drop_first().push(view));
            }
        }
    }

    /// Formats a record and appends the line it gives; when the buffer is
    /// full, its oldest line is dropped.
    pub fn log_record(&mut self, record: &LogRecord)
        ensures
            final(self).lines() == keep_newest(old(self).lines(), record_line(*record), Self::CAPACITY as nat),
    {
        let line = format_record(record);
        self.push_back(line);
    }
}

/// Pushing lines one after another onto a buffer that holds at most
/// `capacity` lines leaves it holding the newest `capacity` of all the lines
/// it was given, oldest first: those it held before, then those pushed.
pub proof fn lemma_push_all_keeps_newest<T>(start: Seq<T>, pushed: Seq<T>, capacity: nat)
    requires
        start.len() <= capacity,
        capacity > 0,
    ensures
        push_all(start, pushed, capacity) == newest(start + pushed, capacity),
    decreases pushed.len(),
{
    if pushed.len() == 0 {
        assert(start + pushed =~= start);
    } else {
        let prefix = pushed.drop_last();
        lemma_push_all_keeps_newest(start, prefix, capacity);
        let before = newest(start + prefix, capacity);
        let all = start + pushed;
        assert(all =~= (start + prefix).push(pushed.last()));
        if (start + prefix).len() < capacity {
            assert(keep_newest(before, pushed.last(), capacity) =~= newest(all, capacity));
        } else {
            assert(keep_newest(before, pushed.last(), capacity) =~= newest(all, capacity));
        }
    }
}

/// Each write adds a line of its own: writing the same line twice onto a
/// buffer leaves it twice, as the two newest lines.
pub proof fn lemma_each_write_adds_a_line<T>(lines: Seq<T>, line: T, capacity: nat)
    requires
        lines.len() <= capacity,
        capacity >= 2,
    ensures
        ({
            let twice = keep_newest(keep_newest(lines, line, capacity), line, capacity);
            &&& twice.len() >= 2
            &&& twice.last() == line
            &&& twice[twice.len() - 2] == line
        }),
{
    let once = keep_newest(lines, line, capacity);
    assert(once.last() == line);
    let twice = keep_newest(once, line, capacity);
    if once.len() < capacity {
        assert(twice[twice.len() - 2] == once.last());
    } else {
        assert(twice[twice.len() - 2] == once.drop_first().last());
    }
}

} // verus!
