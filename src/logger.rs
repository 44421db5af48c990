//! Log records shown by the front-end, and the queue that holds them until
//! they are displayed. The queue is capped: once it grows past
//! `LOG_CAPACITY` entries, the oldest `LOG_TRIM` are dropped.

use vstd::prelude::*;

verus! {

/// Largest number of entries the queue holds.
pub const LOG_CAPACITY: usize = 1000;

/// Number of oldest entries dropped when the queue grows past its capacity.
pub const LOG_TRIM: usize = 500;

/// One log record, already rendered to text.
pub struct Entry {
    pub timestamp: String,
    pub level: String,
    pub target: String,
    pub args: String,
}

/// The line an entry is shown as: `[timestamp] level message`.
pub open spec fn entry_line(e: Entry) -> Seq<char> {
    "["@ + e.timestamp@ + "] "@ + e.level@ + " "@ + e.args@ + "\n"@
}

impl Entry {
    /// Appends the entry's line to `job`.
    pub fn format(&self, job: &mut String)
        ensures
            final(job)@ == old(job)@ + entry_line(*self),
    {
        job.append("[");
        job.append(self.timestamp.as_str());
        job.append("] ");
        job.append(self.level.as_str());
        job.append(" ");
        job.append(self.args.as_str());
        job.append("\n");
        proof {
            assert(final(job)@ =~= old(job)@ + entry_line(*self));
        }
    }
}

/// What the queue keeps after an append: everything, or, past the capacity,
/// all but the oldest `LOG_TRIM` entries.
pub open spec fn trimmed(s: Seq<Entry>) -> Seq<Entry> {
    if s.len() > LOG_CAPACITY {
        s.skip(LOG_TRIM as int)
    } else {
        s
    }
}

/// What an empty queue holds after `pushes` were appended one at a time.
pub open spec fn log_after(pushes: Seq<Entry>) -> Seq<Entry>
    decreases pushes.len(),
{
    if pushes.len() == 0 {
        Seq::empty()
    } else {
        trimmed(log_after(pushes.drop_last()).push(pushes.last()))
    }
}

/// How many entries an empty queue holds after `n` appends.
pub open spec fn retained_count(n: nat) -> nat {
    if n <= LOG_CAPACITY {
        n
    } else {
        (LOG_CAPACITY - LOG_TRIM + 1) as nat + ((n - LOG_CAPACITY - 1) as nat) % (LOG_TRIM as nat)
    }
}

/// A front-truncating queue of log entries.
pub struct LogQueue {
    entries: Vec<Entry>,
}

impl View for LogQueue {
    type V = Seq<Entry>;

    closed spec fn view(&self) -> Seq<Entry> {
        self.entries@
    }
}

impl LogQueue {
    #[verifier::type_invariant]
    spec fn within_capacity(&self) -> bool {
        self.entries@.len() <= LOG_CAPACITY
    }

    pub fn new() -> (r: LogQueue)
        ensures
            r@ == Seq::<Entry>::empty(),
    {
        LogQueue { entries: Vec::new() }
    }

    pub fn len(&self) -> (r: usize)
        ensures
            r == self@.len(),
    {
        self.entries.len()
    }

    /// Appends an entry, dropping the oldest `LOG_TRIM` when the queue grows
    /// past `LOG_CAPACITY`.
    pub fn push(&mut self, entry: Entry)
        ensures
            final(self)@ == trimmed(old(self)@.push(entry)),
            final(self)@.len() <= LOG_CAPACITY,
    {
        proof {
            use_type_invariant(&*self);
        }
        let mut entries: Vec<Entry> = Vec::new();
        std::mem::swap(&mut entries, &mut self.entries);
        entries.push(entry);
        if entries.len() > LOG_CAPACITY {
            let kept = entries.split_off(LOG_TRIM);
            proof {
                assert(kept@ =~= old(self)@.push(entry).skip(LOG_TRIM as int));
            }
            self.entries = kept;
        } else {
            self.entries = entries;
        }
    }

    /// Hands out every entry, oldest first, and leaves the queue empty.
    pub fn take_all(&mut self) -> (r: Vec<Entry>)
        ensures
            r@ == old(self)@,
            final(self)@ == Seq::<Entry>::empty(),
    {
        let mut all: Vec<Entry> = Vec::new();
        std::mem::swap(&mut all, &mut self.entries);
        all
    }
}

/// One more append to a queue that holds `log_after(pushes)` leaves it
/// holding `log_after` of the longer sequence: `LogQueue::push` builds
/// exactly `log_after`.
pub proof fn lemma_log_after_step(pushes: Seq<Entry>, e: Entry)
    ensures
        log_after(pushes.push(e)) == trimmed(log_after(pushes).push(e)),
{
    assert(pushes.push(e).drop_last() =~= pushes);
}

proof fn lemma_retained_step(n: nat)
    ensures
        retained_count(n) <= LOG_CAPACITY,
        retained_count(n + 1) == if retained_count(n) + 1 > LOG_CAPACITY {
            (retained_count(n) + 1 - LOG_TRIM) as nat
        } else {
            retained_count(n) + 1
        },
{
    if n > LOG_CAPACITY {
        let x = (n - 1001) as nat;
        assert(x % 500 < 500) by (nonlinear_arith);
        assert((x + 1) % 500 == if x % 500 == 499 { 0 } else { x % 500 + 1 }) by (nonlinear_arith);
    }
}

/// Appending entries one at a time keeps the newest ones: what the queue
/// holds is the tail of everything appended, and its length is
/// `retained_count` of the number of appends, never above the capacity.
pub proof fn lemma_log_keeps_newest(pushes: Seq<Entry>)
    ensures
        log_after(pushes).len() == retained_count(pushes.len()),
        log_after(pushes) == pushes.skip(pushes.len() - log_after(pushes).len()),
        log_after(pushes).len() <= LOG_CAPACITY,
    decreases pushes.len(),
{
    if pushes.len() > 0 {
        let prev = pushes.drop_last();
        let e = pushes.last();
        lemma_log_keeps_newest(prev);
        lemma_log_after_step(prev, e);
        assert(prev.push(e) =~= pushes);
        lemma_retained_step(prev.len());
        let k = log_after(prev).len();
        assert(log_after(prev).push(e) =~= pushes.skip(pushes.len() - (k + 1)));
        if k + 1 > LOG_CAPACITY {
            assert(log_after(pushes) =~= pushes.skip(pushes.len() - (k + 1 - LOG_TRIM)));
        }
    } else {
        assert(log_after(pushes) =~= pushes.skip(0));
    }
}

/// Twelve hundred appends to an empty queue leave seven hundred entries.
pub proof fn lemma_log_after_1200(pushes: Seq<Entry>)
    requires
        pushes.len() == 1200,
    ensures
        log_after(pushes).len() == 700,
{
    lemma_log_keeps_newest(pushes);
}

} // verus!
