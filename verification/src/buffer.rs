//! The per-tick delay buffer: incoming events are held for a configurable
//! number of ticks before they may mutate controller state. Draining filters
//! out the entries whose remaining ticks reached zero and decrements the
//! rest, preserving arrival order within both partitions — it never reorders.

use vstd::prelude::*;

use crate::input::InputEvent;

verus! {

/// One buffered event together with the ticks it must still wait.
pub type DelayedEvent = (InputEvent, u8);

/// The events a drain pass yields, in arrival order: exactly the entries
/// whose remaining ticks are zero.
pub open spec fn spec_ready_events(entries: Seq<DelayedEvent>) -> Seq<InputEvent>
    decreases entries.len(),
{
    if entries.len() == 0 {
        Seq::empty()
    } else {
        let rest = spec_ready_events(entries.drop_last());
        let last = entries.last();
        if last.1 == 0 {
            rest.push(last.0)
        } else {
            rest
        }
    }
}

/// The entries a drain pass keeps, in arrival order: exactly the entries
/// whose remaining ticks were non-zero, each decremented once.
pub open spec fn spec_delayed_entries(entries: Seq<DelayedEvent>) -> Seq<DelayedEvent>
    decreases entries.len(),
{
    if entries.len() == 0 {
        Seq::empty()
    } else {
        let rest = spec_delayed_entries(entries.drop_last());
        let last = entries.last();
        if last.1 == 0 {
            rest
        } else {
            rest.push((last.0, (last.1 - 1) as u8))
        }
    }
}

/// The bare events of a buffer's entries, in arrival order.
pub open spec fn spec_events_of(entries: Seq<DelayedEvent>) -> Seq<InputEvent> {
    entries.map_values(|entry: DelayedEvent| entry.0)
}

/// Whether every entry of a buffer still has the same number of ticks to
/// wait.
pub open spec fn spec_all_with_delay(entries: Seq<DelayedEvent>, delay_ticks: int) -> bool {
    forall|i: int| 0 <= i < entries.len() ==> (#[trigger] entries[i]).1 == delay_ticks
}

/// The buffer contents after `n` drain passes.
pub open spec fn spec_drain_n(entries: Seq<DelayedEvent>, n: nat) -> Seq<DelayedEvent>
    decreases n,
{
    if n == 0 {
        entries
    } else {
        spec_delayed_entries(spec_drain_n(entries, (n - 1) as nat))
    }
}

/// Delay exactness, one tick at a time: when every entry still waits
/// `delay_ticks`, a drain pass yields nothing unless that count is zero, in
/// which case it yields every event in arrival order and empties the buffer;
/// otherwise it keeps every event, in order, with the count decremented once.
pub proof fn lemma_delay_tick(entries: Seq<DelayedEvent>, delay_ticks: int)
    requires
        spec_all_with_delay(entries, delay_ticks),
    ensures
        delay_ticks == 0 ==> spec_ready_events(entries) == spec_events_of(entries)
            && spec_delayed_entries(entries) == Seq::<DelayedEvent>::empty(),
        delay_ticks != 0 ==> spec_ready_events(entries) == Seq::<InputEvent>::empty()
            && spec_events_of(spec_delayed_entries(entries)) == spec_events_of(entries)
            && spec_all_with_delay(spec_delayed_entries(entries), delay_ticks - 1),
    decreases entries.len(),
{
    if entries.len() == 0 {
        assert(spec_events_of(entries) =~= Seq::<InputEvent>::empty());
        assert(spec_events_of(spec_delayed_entries(entries)) =~= Seq::<InputEvent>::empty());
    } else {
        let prefix = entries.drop_last();
        let last = entries.last();
        assert(spec_all_with_delay(prefix, delay_ticks));
        lemma_delay_tick(prefix, delay_ticks);
        assert(spec_events_of(entries) =~= spec_events_of(prefix).push(last.0));
        if delay_ticks == 0 {
            assert(spec_ready_events(entries) == spec_events_of(prefix).push(last.0));
        } else {
            let kept = spec_delayed_entries(entries);
            assert(kept == spec_delayed_entries(prefix).push((last.0, (last.1 - 1) as u8)));
            assert(spec_events_of(kept) =~= spec_events_of(spec_delayed_entries(prefix)).push(
                last.0,
            ));
        }
    }
}

/// After `n` drain passes over a buffer whose entries all wait `delay_ticks`
/// (with `n` at most that count), no event has been yielded yet: the buffer
/// still holds every event, in arrival order, each waiting the original count
/// less `n`.
pub proof fn lemma_drain_n_pending(entries: Seq<DelayedEvent>, delay_ticks: int, n: nat)
    requires
        spec_all_with_delay(entries, delay_ticks),
        0 <= delay_ticks < 256,
        n <= delay_ticks,
    ensures
        spec_events_of(spec_drain_n(entries, n)) == spec_events_of(entries),
        spec_all_with_delay(spec_drain_n(entries, n), delay_ticks - n),
    decreases n,
{
    if n > 0 {
        lemma_drain_n_pending(entries, delay_ticks, (n - 1) as nat);
        lemma_delay_tick(spec_drain_n(entries, (n - 1) as nat), delay_ticks - (n - 1));
    }
}

/// Delay exactness, round trip: starting from a buffer whose entries all wait
/// `delay_ticks`, every drain pass before that many ticks have elapsed yields
/// nothing, and the pass on tick `delay_ticks` yields exactly the buffered
/// events — none earlier, none later, none skipped or duplicated, and in
/// arrival order — leaving the buffer empty.
pub proof fn lemma_delay_round_trip(entries: Seq<DelayedEvent>, delay_ticks: int)
    requires
        spec_all_with_delay(entries, delay_ticks),
        0 <= delay_ticks < 256,
    ensures
        forall|k: nat|
            k < delay_ticks ==> spec_ready_events(#[trigger] spec_drain_n(entries, k))
                == Seq::<InputEvent>::empty(),
        spec_ready_events(spec_drain_n(entries, delay_ticks as nat)) == spec_events_of(entries),
        spec_delayed_entries(spec_drain_n(entries, delay_ticks as nat))
            == Seq::<DelayedEvent>::empty(),
{
    assert forall|k: nat| k < delay_ticks implies spec_ready_events(
        #[trigger] spec_drain_n(entries, k),
    ) == Seq::<InputEvent>::empty() by {
        lemma_drain_n_pending(entries, delay_ticks, k);
        lemma_delay_tick(spec_drain_n(entries, k), delay_ticks - k);
    }
    lemma_drain_n_pending(entries, delay_ticks, delay_ticks as nat);
    lemma_delay_tick(spec_drain_n(entries, delay_ticks as nat), 0);
}

/// A FIFO queue of events awaiting their configured input delay.
pub struct DelayBuffer {
    pub entries: Vec<DelayedEvent>,
}

impl DelayBuffer {
    /// Constructs an empty delay buffer.
    pub fn new() -> (r: DelayBuffer)
        ensures
            r.entries@ == Seq::<DelayedEvent>::empty(),
    {
        DelayBuffer { entries: Vec::new() }
    }

    /// Appends one event to the tail of the buffer, to wait the given number
    /// of ticks before it is yielded.
    pub fn enqueue(&mut self, event: InputEvent, delay_ticks: u8)
        ensures
            final(self).entries@ == old(self).entries@.push((event, delay_ticks)),
    {
        self.entries.push((event, delay_ticks));
    }

    /// One tick's drain pass: walks the buffer from oldest to newest, yields
    /// every entry whose remaining ticks are zero (in order), and keeps the
    /// rest (in order) with their remaining ticks decremented once.
    pub fn drain_ready(&mut self) -> (ready: Vec<InputEvent>)
        ensures
            ready@ == spec_ready_events(old(self).entries@),
            final(self).entries@ == spec_delayed_entries(old(self).entries@),
    {
        let mut ready: Vec<InputEvent> = Vec::new();
        let mut kept: Vec<DelayedEvent> = Vec::new();
        let n = self.entries.len();
        let mut i: usize = 0;
        while i < n
            invariant
                0 <= i <= n,
                n == self.entries@.len(),
                ready@ == spec_ready_events(self.entries@.take(i as int)),
                kept@ == spec_delayed_entries(self.entries@.take(i as int)),
            decreases n - i,
        {
            let (event, delay) = self.entries[i];
            proof {
                assert(self.entries@.take(i + 1).drop_last() =~= self.entries@.take(i as int));
                assert(self.entries@.take(i + 1).last() == self.entries@[i as int]);
            }
            if delay == 0 {
                ready.push(event);
            } else {
                kept.push((event, delay - 1));
            }
            i = i + 1;
        }
        proof {
            assert(self.entries@.take(n as int) =~= self.entries@);
        }
        self.entries = kept;
        ready
    }

    /// The number of entries still waiting in the buffer.
    pub fn len(&self) -> (r: usize)
        ensures
            r == self.entries@.len(),
    {
        self.entries.len()
    }
}

} // verus!
