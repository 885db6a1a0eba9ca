//! Watchdog ticket aggregation: the hardware watchdog is fed only once every
//! issued ticket has reported since the last hardware feed.

use vstd::prelude::*;

use bitvec::array::BitArray;
use bitvec::order::Lsb0;

verus! {

/// Sixteen bits, one per ticket, held in a `bitvec` array. Verus does not
/// look inside; the wrappers below say what each operation does to the bits.
#[verifier::external_body]
pub struct TicketMask {
    bits: BitArray<[u16; 1], Lsb0>,
}

/// Number of tickets the mask has room for.
pub const TICKET_CAPACITY: usize = 16;

/// Hardware watchdog timeout, in seconds.
pub const WATCHDOG_DURATION_SECS: u64 = 30;

/// Margin kept below the hardware timeout, in seconds.
pub const WATCHDOG_WIGGLE_SECS: u64 = 1;

/// Feeding a ticket at least this often, in milliseconds, keeps the device alive.
pub const WATCHDOG_DEADLINE_MS: u64 = (WATCHDOG_DURATION_SECS - WATCHDOG_WIGGLE_SECS) * 1000;

/// The bits of a ticket mask, index 0 first.
pub uninterp spec fn mask_bits(m: TicketMask) -> Seq<bool>;

/// Relies on `BitArray::ZERO`: an array whose sixteen bits are all cleared.
#[verifier::external_body]
fn mask_cleared() -> (r: TicketMask)
    ensures
        mask_bits(r) == Seq::new(16, |i: int| false),
{
    TicketMask { bits: BitArray::ZERO }
}

/// Relies on `BitSlice::set`: writes the bit at `index` and no other; it
/// panics past the end, which `requires` leaves out.
#[verifier::external_body]
fn mask_set(m: &mut TicketMask, index: usize)
    requires
        index < TICKET_CAPACITY,
        mask_bits(*old(m)).len() == TICKET_CAPACITY,
    ensures
        mask_bits(*final(m)) == mask_bits(*old(m)).update(index as int, true),
    no_unwind
{
    m.bits.set(index, true)
}

/// Relies on indexing a bit-slice by `0..count` (panics past the end, which
/// `requires` leaves out) and `BitSlice::all`: whether every bit of the range is set.
#[verifier::external_body]
fn mask_all(m: &TicketMask, count: usize) -> (r: bool)
    requires
        count <= TICKET_CAPACITY,
        mask_bits(*m).len() == TICKET_CAPACITY,
    ensures
        r == (forall|i: int| 0 <= i < count ==> mask_bits(*m)[i]),
{
    m.bits.as_bitslice()[0..count].all()
}

/// The reports after ticket `index` feeds, and whether the hardware is fed:
/// it is when every other ticket had already reported, and then all reports
/// are cleared.
pub open spec fn feed_spec(reported: Seq<bool>, index: int) -> (Seq<bool>, bool) {
    if forall|i: int| 0 <= i < reported.len() && i != index ==> reported[i] {
        (Seq::new(reported.len(), |i: int| false), true)
    } else {
        (reported.update(index, true), false)
    }
}

/// How many hardware feeds the ticket feeds `feeds` cause, in order, from `reported`.
pub open spec fn hw_feeds(reported: Seq<bool>, feeds: Seq<int>) -> nat
    decreases feeds.len(),
{
    if feeds.len() == 0 {
        0
    } else {
        let (next, hw) = feed_spec(reported, feeds[0]);
        (if hw {
            1nat
        } else {
            0nat
        }) + hw_feeds(next, feeds.drop_first())
    }
}


/// A run of ticket feeds that never fed the hardware leaves some ticket that
/// had not reported before and is not among the feeds.
proof fn lemma_quiet_run_leaves_gap(r: Seq<bool>, feeds: Seq<int>)
    requires
        feeds.len() > 0,
        hw_feeds(r, feeds) == 0,
        forall|i: int| 0 <= i < feeds.len() ==> 0 <= #[trigger] feeds[i] < r.len(),
    ensures
        exists|t: int| 0 <= t < r.len() && !r[t] && !feeds.contains(t),
    decreases feeds.len(),
{
    let x = feeds[0];
    let next = feed_spec(r, x).0;
    let rest = feeds.drop_first();
    assert(!feed_spec(r, x).1);
    assert(next == r.update(x, true));
    assert(forall|i: int| 0 <= i < rest.len() ==> rest[i] == feeds[i + 1]);
    let i = choose|i: int| !(0 <= i < r.len() && i != x ==> r[i]);
    if rest.len() > 0 {
        lemma_quiet_run_leaves_gap(next, rest);
        let t = choose|t: int| 0 <= t < next.len() && !next[t] && !rest.contains(t);
        assert(t != x);
        assert(next[t] == r[t]);
        assert(!feeds.contains(t)) by {
            if feeds.contains(t) {
                let k = choose|k: int| 0 <= k < feeds.len() && feeds[k] == t;
                assert(k != 0);
                assert(rest[k - 1] == t);
            }
        }
        assert(0 <= t < r.len() && !r[t] && !feeds.contains(t));
    } else {
        assert(!feeds.contains(i)) by {
            if feeds.contains(i) {
                let k = choose|k: int| 0 <= k < feeds.len() && feeds[k] == i;
                assert(k == 0);
            }
        }
        assert(0 <= i < r.len() && !r[i] && !feeds.contains(i));
    }
}

/// A run of ticket feeds that fed the hardware covered every ticket: each
/// had reported before or is among the feeds.
proof fn lemma_feed_covers(r: Seq<bool>, feeds: Seq<int>)
    requires
        hw_feeds(r, feeds) > 0,
        forall|i: int| 0 <= i < feeds.len() ==> 0 <= #[trigger] feeds[i] < r.len(),
    ensures
        forall|t: int| 0 <= t < r.len() ==> r[t] || feeds.contains(t),
    decreases feeds.len(),
{
    let x = feeds[0];
    let (next, hw) = feed_spec(r, x);
    let rest = feeds.drop_first();
    if hw {
        assert forall|t: int| 0 <= t < r.len() implies r[t] || feeds.contains(t) by {
            if t == x {
                assert(feeds[0] == t);
            }
        }
    } else {
        assert(next == r.update(x, true));
        assert(forall|i: int| 0 <= i < rest.len() ==> rest[i] == feeds[i + 1]);
        lemma_feed_covers(next, rest);
        assert forall|t: int| 0 <= t < r.len() implies r[t] || feeds.contains(t) by {
            if t == x {
                assert(feeds[0] == t);
            } else if !r[t] {
                assert(next[t] == r[t]);
                assert(rest.contains(t));
                let k = choose|k: int| 0 <= k < rest.len() && rest[k] == t;
                assert(feeds[k + 1] == t);
            }
        }
    }
}

/// With `n` tickets issued and the mask just cleared, a run of ticket feeds
/// feeds the hardware if and only if every one of the `n` tickets is among
/// them: fewer tickets, however often they feed, never do.
pub proof fn lemma_watchdog_aggregation(n: nat, feeds: Seq<int>)
    requires
        0 < n,
        forall|i: int| 0 <= i < feeds.len() ==> 0 <= #[trigger] feeds[i] < n,
    ensures
        hw_feeds(Seq::new(n, |i: int| false), feeds) > 0 <==> (forall|t: int|
            0 <= t < n ==> feeds.contains(t)),
{
    let r = Seq::new(n, |i: int| false);
    if hw_feeds(r, feeds) > 0 {
        lemma_feed_covers(r, feeds);
        assert forall|t: int| 0 <= t < n implies feeds.contains(t) by {
            assert(!r[t]);
        }
    }
    if forall|t: int| 0 <= t < n ==> feeds.contains(t) {
        assert(feeds.contains(0));
        if hw_feeds(r, feeds) == 0 {
            lemma_quiet_run_leaves_gap(r, feeds);
            let t = choose|t: int| 0 <= t < r.len() && !r[t] && !feeds.contains(t);
            assert(feeds.contains(t));
        }
    }
}

/// The aggregator of all tickets.
pub struct Watchdog {
    mask: TicketMask,
    count: usize,
}

/// One task's right to report liveness.
#[derive(Clone, Copy, Debug, PartialEq, Eq, Structural)]
pub struct WatchdogTicket {
    index: usize,
}

impl Watchdog {
    #[verifier::type_invariant]
    spec fn inv(self) -> bool {
        &&& self.count <= TICKET_CAPACITY
        &&& mask_bits(self.mask).len() == TICKET_CAPACITY
        &&& forall|i: int| self.count <= i < TICKET_CAPACITY ==> !mask_bits(self.mask)[i]
    }

    /// Number of tickets issued.
    pub closed spec fn count(self) -> nat {
        self.count as nat
    }

    /// For each issued ticket, whether it reported since the last hardware feed.
    pub closed spec fn reported(self) -> Seq<bool> {
        mask_bits(self.mask).subrange(0, self.count as int)
    }

    /// An aggregator with no tickets.
    pub fn new() -> (r: Watchdog)
        ensures
            r.count() == 0,
            r.reported() == Seq::<bool>::empty(),
    {
        Watchdog { mask: mask_cleared(), count: 0 }
    }

    /// Number of tickets issued.
    pub fn issued(&self) -> (r: usize)
        ensures
            r == self.count(),
    {
        self.count
    }

    /// Ticket `index` reports. Returns whether the hardware watchdog must be
    /// fed now, which is when all issued tickets have reported.
    pub fn feed(&mut self, index: usize) -> (hw: bool)
        requires
            index < old(self).count(),
        ensures
            final(self).count() == old(self).count(),
            (final(self).reported(), hw) == feed_spec(old(self).reported(), index as int),
    {
        proof {
            use_type_invariant(&*self);
        }
        let ghost before = mask_bits(self.mask);
        mask_set(&mut self.mask, index);
        let all = mask_all(&self.mask, self.count);
        let ghost old_rep = before.subrange(0, self.count as int);
        if all {
            assert forall|i: int| 0 <= i < old_rep.len() && i != index implies old_rep[i] by {
                assert(mask_bits(self.mask)[i]);
            }
            self.mask = mask_cleared();
            assert(self.reported() == Seq::new(old_rep.len(), |i: int| false));
        } else {
            let ghost j = choose|j: int| 0 <= j < self.count && !mask_bits(self.mask)[j];
            assert(!old_rep[j] && j != index);
            assert(self.reported() == old_rep.update(index as int, true));
        }
        all
    }

    /// Issues the next ticket and lets it report at once, so that a feed cycle
    /// in progress does not wait on it. Returns the ticket and whether the
    /// hardware watchdog must be fed now.
    pub fn ticket(&mut self) -> (r: (WatchdogTicket, bool))
        requires
            old(self).count() < TICKET_CAPACITY,
        ensures
            r.0.index() == old(self).count(),
            final(self).count() == old(self).count() + 1,
            (final(self).reported(), r.1) == feed_spec(
                old(self).reported().push(false),
                old(self).count() as int,
            ),
    {
        proof {
            use_type_invariant(&*self);
        }
        let index = self.count;
        let ghost before = self.reported();
        self.count = self.count + 1;
        assert(self.reported() == before.push(false));
        let hw = self.feed(index);
        (WatchdogTicket { index }, hw)
    }
}

impl WatchdogTicket {
    /// Position of the ticket in the mask.
    pub closed spec fn index(self) -> nat {
        self.index as nat
    }

    /// Position of the ticket in the mask.
    pub fn position(&self) -> (r: usize)
        ensures
            r == self.index(),
    {
        self.index
    }

    /// Reports liveness to `watchdog`. Returns whether the hardware watchdog
    /// must be fed now.
    pub fn feed(&self, watchdog: &mut Watchdog) -> (hw: bool)
        requires
            self.index() < old(watchdog).count(),
        ensures
            final(watchdog).count() == old(watchdog).count(),
            (final(watchdog).reported(), hw) == feed_spec(
                old(watchdog).reported(),
                self.index() as int,
            ),
    {
        watchdog.feed(self.index)
    }
}

} // verus!
