//! Bounded FIFO scrollback for one job's output: a fixed-capacity ordered
//! sequence of lines where appending past the capacity evicts the oldest
//! line first.
use vstd::prelude::*;
use std::collections::VecDeque;

verus! {

/// Maximum number of lines a log buffer retains.
pub const LOG_CAPACITY: usize = 1000;

/// What a bounded buffer keeps of a sequence of lines: all of them while they
/// fit, otherwise only the most recent `LOG_CAPACITY`, oldest first.
pub open spec fn retained(history: Seq<String>) -> Seq<String> {
    if history.len() <= LOG_CAPACITY {
        history
    } else {
        history.skip(history.len() - LOG_CAPACITY)
    }
}

/// The buffer contents that a whole history of appends leaves behind,
/// one eviction-checked append at a time.
pub open spec fn buffer_after(history: Seq<String>) -> Seq<String>
    decreases history.len(),
{
    if history.len() == 0 {
        Seq::empty()
    } else {
        retained(buffer_after(history.drop_last()).push(history.last()))
    }
}

/// Bounded scrollback for one job. One writer appends lines in arrival
/// order; readers copy the current contents for display.
pub struct LogBuffer {
    lines: VecDeque<String>,
}

impl View for LogBuffer {
    type V = Seq<String>;

    closed spec fn view(&self) -> Seq<String> {
        self.lines@
    }
}

impl LogBuffer {
    /// The capacity bound every operation preserves.
    pub open spec fn wf(&self) -> bool {
        self@.len() <= LOG_CAPACITY
    }

    /// A fresh, empty buffer.
    pub fn new() -> (r: LogBuffer)
        ensures
            r@ == Seq::<String>::empty(),
            r.wf(),
    {
        LogBuffer { lines: VecDeque::new() }
    }

    /// Number of lines currently held.
    pub fn len(&self) -> (r: usize)
        ensures
            r == self@.len(),
    {
        self.lines.len()
    }

    /// Append one line at the tail, evicting from the head once the
    /// capacity is exceeded.
    pub fn append(&mut self, line: String)
        requires
            old(self).wf(),
        ensures
            final(self)@ == retained(old(self)@.push(line)),
            final(self).wf(),
    {
        self.lines.push_back(line);
        while self.lines.len() > LOG_CAPACITY
            invariant
                self.lines@.len() <= LOG_CAPACITY + 1,
                retained(self.lines@) == retained(old(self)@.push(line)),
            decreases self.lines@.len(),
        {
            proof {
                lemma_retained_drop_first(self.lines@);
            }
            self.lines.pop_front();
        }
        proof {
            assert(self.lines@ =~= retained(self.lines@));
        }
    }

    /// Copy of the current contents, oldest line first.
    pub fn snapshot(&self) -> (r: Vec<String>)
        ensures
            r@ == self@,
    {
        let mut r: Vec<String> = Vec::new();
        let n = self.lines.len();
        for i in 0..n
            invariant
                n == self@.len(),
                r@ == self@.subrange(0, i as int),
        {
            r.push(self.lines[i].clone());
            proof {
                assert(r@ =~= self@.subrange(0, i + 1));
            }
        }
        proof {
            assert(r@ =~= self@);
        }
        r
    }
}

/// Dropping the head of an over-full sequence keeps the retained suffix.
proof fn lemma_retained_drop_first(s: Seq<String>)
    requires
        s.len() > LOG_CAPACITY,
    ensures
        retained(s.subrange(1, s.len() as int)) == retained(s),
{
    assert(retained(s.subrange(1, s.len() as int)) =~= retained(s));
}

/// After any sequence of appends, the buffer holds exactly the last
/// `min(n, LOG_CAPACITY)` appended lines, in their original order: the
/// contents are `retained(history)`, whose length and elements this states.
pub proof fn lemma_log_fifo(history: Seq<String>)
    ensures
        buffer_after(history) == retained(history),
        retained(history).len() == if history.len() <= LOG_CAPACITY {
            history.len() as int
        } else {
            LOG_CAPACITY as int
        },
        forall|i: int|
            0 <= i < retained(history).len() ==> retained(history)[i] == history[history.len()
                - retained(history).len() + i],
    decreases history.len(),
{
    if history.len() == 0 {
        assert(buffer_after(history) =~= retained(history));
    } else {
        let g = history.drop_last();
        lemma_log_fifo(g);
        assert(retained(retained(g).push(history.last())) =~= retained(history)) by {
            assert(g.push(history.last()) =~= history);
        }
    }
}

} // verus!
