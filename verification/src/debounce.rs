//! Edge debouncer for physical buttons.
//!
//! A mechanical contact produces a burst of electrical edges for every
//! press. The debouncer consumes each raw edge together with a reading of
//! the monotonic clock and dispatches at most one logical event per
//! refractory window: an edge at or before `next_valid_time` is discarded
//! as bounce, and an accepted edge pushes `next_valid_time` a full window
//! into the future.

use vstd::prelude::*;

verus! {

/// Refractory window used when nothing else is configured, milliseconds.
pub const DEFAULT_REFRACTORY_WINDOW_MS: u64 = 500;

/// Whether a raw edge observed at clock reading `now` is honoured when the
/// next valid instant is `next_valid_time`: only edges strictly past it.
pub open spec fn edge_accepted(next_valid_time: int, now: int) -> bool {
    now > next_valid_time
}

/// Logical events dispatched when the given edge timestamps are consumed
/// in order, starting from `next_valid_time`: the fold of the acceptance
/// rule over the stream.
pub open spec fn events_dispatched(next_valid_time: int, window: int, edges: Seq<int>) -> int
    decreases edges.len(),
{
    if edges.len() == 0 {
        0
    } else if edge_accepted(next_valid_time, edges[0]) {
        1 + events_dispatched(edges[0] + window, window, edges.drop_first())
    } else {
        events_dispatched(next_valid_time, window, edges.drop_first())
    }
}

/// Debounce state for one input line.
pub struct Debouncer {
    /// Clock reading at or before which every raw edge is discarded.
    pub next_valid_time: u128,
    /// Refractory window added after each accepted edge, milliseconds.
    pub window: u64,
}

impl Debouncer {
    /// A fresh debouncer: the very first edge at a positive clock reading
    /// is accepted.
    pub fn new(window: u64) -> (d: Debouncer)
        ensures
            d.next_valid_time == 0,
            d.window == window,
    {
        Debouncer { next_valid_time: 0, window }
    }

    /// Consume one raw electrical edge observed at clock reading `now`.
    /// Returns whether one logical button event is dispatched: true exactly
    /// when the edge falls past the refractory window of the last accepted
    /// one, which then restarts the window.
    pub fn on_edge(&mut self, now: u128) -> (accepted: bool)
        requires
            now + old(self).window <= u128::MAX,
        ensures
            accepted == edge_accepted(old(self).next_valid_time as int, now as int),
            final(self).window == old(self).window,
            accepted ==> final(self).next_valid_time == now + old(self).window,
            !accepted ==> final(self).next_valid_time == old(self).next_valid_time,
    {
        if now > self.next_valid_time {
            self.next_valid_time = now + (self.window as u128);
            true
        } else {
            false
        }
    }

    /// Consume a whole stream of raw edges in order and count the logical
    /// events dispatched.
    pub fn feed_edges(&mut self, edges: &Vec<u128>) -> (count: usize)
        requires
            forall|i: int|
                0 <= i < edges@.len() ==> #[trigger] edges@[i] + old(self).window <= u128::MAX,
        ensures
            final(self).window == old(self).window,
            count == events_dispatched(
                old(self).next_valid_time as int,
                old(self).window as int,
                edges@.map_values(|e: u128| e as int),
            ),
    {
        let ghost stream = edges@.map_values(|e: u128| e as int);
        let mut count: usize = 0;
        let mut i: usize = 0;
        proof {
            assert(stream.subrange(0, stream.len() as int) =~= stream);
        }
        while i < edges.len()
            invariant
                0 <= i <= edges@.len(),
                count <= i,
                self.window == old(self).window,
                forall|k: int|
                    0 <= k < edges@.len() ==> #[trigger] edges@[k] + self.window <= u128::MAX,
                stream == edges@.map_values(|e: u128| e as int),
                count + events_dispatched(
                    self.next_valid_time as int,
                    self.window as int,
                    stream.subrange(i as int, stream.len() as int),
                ) == events_dispatched(
                    old(self).next_valid_time as int,
                    old(self).window as int,
                    stream,
                ),
            decreases edges@.len() - i,
        {
            let ghost tail = stream.subrange(i as int, stream.len() as int);
            proof {
                assert(tail[0] == stream[i as int]);
                assert(tail.drop_first() =~= stream.subrange(i as int + 1, stream.len() as int));
            }
            let accepted = self.on_edge(edges[i]);
            if accepted {
                count = count + 1;
            }
            i = i + 1;
        }
        proof {
            assert(stream.subrange(i as int, stream.len() as int).len() == 0);
        }
        count
    }
}

/// While every edge of a stream lies at or before the next valid instant,
/// nothing at all is dispatched.
pub proof fn lemma_quiet_while_refractory(next_valid_time: int, window: int, edges: Seq<int>)
    requires
        forall|i: int| 0 <= i < edges.len() ==> #[trigger] edges[i] <= next_valid_time,
    ensures
        events_dispatched(next_valid_time, window, edges) == 0,
    decreases edges.len(),
{
    if edges.len() > 0 {
        assert forall|i: int| 0 <= i < edges.drop_first().len()
            implies #[trigger] edges.drop_first()[i] <= next_valid_time by {
            assert(edges.drop_first()[i] == edges[i + 1]);
        }
        lemma_quiet_while_refractory(next_valid_time, window, edges.drop_first());
    }
}

/// Law: a burst of edges that all fall within the refractory window of an
/// accepted first edge dispatches exactly one logical event, however many
/// raw edges the bounce produces.
pub proof fn lemma_burst_single_event(next_valid_time: int, window: int, edges: Seq<int>)
    requires
        window >= 0,
        edges.len() > 0,
        edge_accepted(next_valid_time, edges[0]),
        forall|i: int|
            0 <= i < edges.len() ==> edges[0] <= #[trigger] edges[i] <= edges[0] + window,
    ensures
        events_dispatched(next_valid_time, window, edges) == 1,
{
    let rest = edges.drop_first();
    assert forall|i: int| 0 <= i < rest.len() implies #[trigger] rest[i] <= edges[0] + window by {
        assert(rest[i] == edges[i + 1]);
    }
    lemma_quiet_while_refractory(edges[0] + window, window, rest);
}

/// Law: two edges separated by more than the refractory window dispatch
/// two logical events.
pub proof fn lemma_separated_edges_two_events(next_valid_time: int, window: int, e1: int, e2: int)
    requires
        window >= 0,
        edge_accepted(next_valid_time, e1),
        e2 > e1 + window,
    ensures
        events_dispatched(next_valid_time, window, seq![e1, e2]) == 2,
{
    let edges = seq![e1, e2];
    assert(edges.drop_first() =~= seq![e2]);
    assert(seq![e2].drop_first() =~= Seq::<int>::empty());
    assert(events_dispatched(e2 + window, window, Seq::<int>::empty()) == 0);
    assert(events_dispatched(e1 + window, window, seq![e2]) == 1);
}

} // verus!
