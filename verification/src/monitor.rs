//! The monitoring log: a bounded, append-only record of human-readable
//! summary strings, oldest first. When the log is full, an append
//! silently evicts the oldest entry. The engine keeps two of these, one
//! for inbound events and one for outbound messages; the presentation
//! layer only reads them.

use vstd::prelude::*;
use vstd::math::min;

verus! {

/// A bounded most-recent-appended record of summary strings.
pub struct MonitorLog {
    entries: Vec<String>,
    capacity: usize,
}

impl View for MonitorLog {
    type V = Seq<Seq<char>>;

    /// The recorded summaries, oldest first.
    closed spec fn view(&self) -> Seq<Seq<char>> {
        self.entries.deep_view()
    }
}

/// What one append does to the recorded sequence: the new entry goes to
/// the back; at capacity, the oldest entry leaves.
pub open spec fn spec_log_push(log: Seq<Seq<char>>, capacity: nat, entry: Seq<char>) -> Seq<
    Seq<char>,
> {
    if log.len() < capacity {
        log.push(entry)
    } else {
        log.drop_first().push(entry)
    }
}

/// The effect of appending a whole sequence of entries, first to last.
pub open spec fn spec_log_push_all(
    log: Seq<Seq<char>>,
    capacity: nat,
    entries: Seq<Seq<char>>,
) -> Seq<Seq<char>>
    decreases entries.len(),
{
    if entries.len() == 0 {
        log
    } else {
        spec_log_push_all(spec_log_push(log, capacity, entries.first()), capacity,
            entries.drop_first())
    }
}

impl MonitorLog {
    /// Well-formedness: never more entries than the configured capacity.
    pub closed spec fn inv(&self) -> bool {
        self.entries.len() <= self.capacity && self.capacity >= 1
    }

    /// The configured capacity.
    pub closed spec fn spec_capacity(&self) -> nat {
        self.capacity as nat
    }

    /// An empty log with the given capacity.
    pub fn new(capacity: usize) -> (r: MonitorLog)
        requires
            capacity >= 1,
        ensures
            r.inv(),
            r@ == Seq::<Seq<char>>::empty(),
            r.spec_capacity() == capacity,
    {
        let r = MonitorLog { entries: Vec::new(), capacity };
        proof {
            assert(r@ =~= Seq::<Seq<char>>::empty());
        }
        r
    }

    /// The configured capacity.
    pub fn capacity(&self) -> (r: usize)
        ensures
            r == self.spec_capacity(),
    {
        self.capacity
    }

    /// How many entries are recorded.
    pub fn len(&self) -> (r: usize)
        ensures
            r == self@.len(),
    {
        self.entries.len()
    }

    /// Whether nothing is recorded yet.
    pub fn is_empty(&self) -> (r: bool)
        ensures
            r == (self@.len() == 0),
    {
        self.entries.len() == 0
    }

    /// Reads one entry; position 0 is the oldest.
    pub fn get(&self, i: usize) -> (r: &String)
        requires
            i < self@.len(),
        ensures
            r@ == self@[i as int],
    {
        &self.entries[i]
    }

    /// Law: a well-formed log never holds more entries than its
    /// configured capacity.
    pub proof fn lemma_within_capacity(&self)
        requires
            self.inv(),
        ensures
            self@.len() <= self.spec_capacity(),
    {
        assert(self@.len() == self.entries@.len());
    }

    /// Appends a summary, evicting the oldest entry when full, exactly
    /// as `spec_log_push` states.
    pub fn push_back(&mut self, entry: String)
        requires
            old(self).inv(),
        ensures
            final(self).inv(),
            final(self).spec_capacity() == old(self).spec_capacity(),
            final(self)@ == spec_log_push(old(self)@, old(self).spec_capacity(), entry@),
    {
        if self.entries.len() == self.capacity {
            self.entries.remove(0);
        }
        self.entries.push(entry);
        proof {
            assert(self@ =~= spec_log_push(old(self)@, old(self).spec_capacity(), entry@));
        }
    }
}

/// Law: appending entries to a well-formed log keeps the length within
/// the capacity, and what remains is exactly the newest entries of the
/// run, in arrival order: the last `min(capacity, total)` of the prior
/// contents followed by the appended entries.
pub proof fn lemma_log_push_all_suffix(log: Seq<Seq<char>>, capacity: nat, entries: Seq<Seq<char>>)
    requires
        capacity >= 1,
        log.len() <= capacity,
    ensures
        ({
            let all = log + entries;
            let kept = min(capacity as int, all.len() as int);
            spec_log_push_all(log, capacity, entries) == all.subrange(
                all.len() - kept,
                all.len() as int,
            )
        }),
    decreases entries.len(),
{
    let all = log + entries;
    let kept = min(capacity as int, all.len() as int);
    if entries.len() == 0 {
        assert(spec_log_push_all(log, capacity, entries) =~= all.subrange(
            all.len() - kept,
            all.len() as int,
        ));
    } else {
        let stepped = spec_log_push(log, capacity, entries.first());
        lemma_log_push_all_suffix(stepped, capacity, entries.drop_first());
        assert(stepped + entries.drop_first() =~= if log.len() < capacity {
            all
        } else {
            all.drop_first()
        });
        assert(spec_log_push_all(log, capacity, entries) =~= all.subrange(
            all.len() - kept,
            all.len() as int,
        ));
    }
}

/// Law: a log never exceeds its configured capacity; after appending
/// capacity + 1 entries to an empty log, the oldest entry is absent and
/// the newest capacity entries remain in arrival order.
pub proof fn lemma_log_capacity_eviction(capacity: nat, entries: Seq<Seq<char>>)
    requires
        capacity >= 1,
    ensures
        spec_log_push_all(Seq::<Seq<char>>::empty(), capacity, entries).len() <= capacity,
        entries.len() == capacity + 1 ==> spec_log_push_all(
            Seq::<Seq<char>>::empty(),
            capacity,
            entries,
        ) == entries.drop_first(),
{
    let empty = Seq::<Seq<char>>::empty();
    lemma_log_push_all_suffix(empty, capacity, entries);
    assert(empty + entries =~= entries);
    if entries.len() == capacity + 1 {
        assert(spec_log_push_all(empty, capacity, entries) =~= entries.drop_first());
    }
}

} // verus!
