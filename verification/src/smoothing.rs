//! Moving average over the last eight samples of a measurement channel.
//!
//! Samples are fixed-point integers (micro-units of the measured quantity).
//! The state of a channel is plain data, so that the caller can keep it in
//! memory that survives a deep power-off and is reset only on a cold boot.

use vstd::prelude::*;

verus! {

/// Number of samples that a channel averages over.
pub const SMOOTH_COUNT: usize = 8;

/// Number of channels in the retained region.
pub const SMOOTH_ARRAY_COUNT: usize = 3;

/// Cursor of a channel that has seen no sample since the last cold boot.
pub const UNINITIALIZED: usize = usize::MAX;

/// Sum of the samples of `s`.
pub open spec fn sum(s: Seq<i64>) -> int
    decreases s.len(),
{
    if s.len() == 0 {
        0
    } else {
        sum(s.drop_last()) + s.last()
    }
}

/// Arithmetic mean of a full window, rounded towards negative infinity.
pub open spec fn mean(w: Seq<i64>) -> int {
    sum(w) / (SMOOTH_COUNT as int)
}

/// The window after `val` has been fed to a channel whose window was `w`.
/// A channel without samples is filled with `val`; otherwise the oldest
/// sample leaves and `val` becomes the newest.
pub open spec fn next_window(initialized: bool, w: Seq<i64>, val: i64) -> Seq<i64> {
    if initialized {
        w.drop_first().push(val)
    } else {
        Seq::new(SMOOTH_COUNT as nat, |i: int| val)
    }
}

/// The window after the samples `xs` have been fed, in order, to an
/// initialized channel whose window was `w`.
pub open spec fn feed(w: Seq<i64>, xs: Seq<i64>) -> Seq<i64>
    decreases xs.len(),
{
    if xs.len() == 0 {
        w
    } else {
        next_window(true, feed(w, xs.drop_last()), xs.last())
    }
}

/// A window of eight samples sums to its eight entries.
pub proof fn lemma_sum_window(w: Seq<i64>)
    requires
        w.len() == SMOOTH_COUNT,
    ensures
        sum(w) == w[0] + w[1] + w[2] + w[3] + w[4] + w[5] + w[6] + w[7],
{
    let w7 = w.drop_last();
    let w6 = w7.drop_last();
    let w5 = w6.drop_last();
    let w4 = w5.drop_last();
    let w3 = w4.drop_last();
    let w2 = w3.drop_last();
    let w1 = w2.drop_last();
    let w0 = w1.drop_last();
    assert(sum(w0) == 0);
    assert(sum(w1) == sum(w0) + w1.last());
    assert(sum(w2) == sum(w1) + w2.last());
    assert(sum(w3) == sum(w2) + w3.last());
    assert(sum(w4) == sum(w3) + w4.last());
    assert(sum(w5) == sum(w4) + w5.last());
    assert(sum(w6) == sum(w5) + w6.last());
    assert(sum(w7) == sum(w6) + w7.last());
    assert(sum(w) == sum(w7) + w.last());
}

/// What `feed` leaves in each slot of the window: the samples of `w` move
/// towards the front by the number of samples fed, and the samples fed
/// follow them.
pub proof fn lemma_feed(w: Seq<i64>, xs: Seq<i64>)
    requires
        w.len() == SMOOTH_COUNT,
    ensures
        feed(w, xs).len() == SMOOTH_COUNT,
        forall|i: int|
            0 <= i < SMOOTH_COUNT ==> #[trigger] feed(w, xs)[i] == if i + xs.len() < SMOOTH_COUNT {
                w[i + xs.len()]
            } else {
                xs[i + xs.len() - SMOOTH_COUNT]
            },
    decreases xs.len(),
{
    if xs.len() > 0 {
        lemma_feed(w, xs.drop_last());
    }
}

/// Law: after eight or more equal samples the smoothed value is that sample,
/// whatever the window held before.
pub proof fn law_identical_values(w: Seq<i64>, xs: Seq<i64>, x: i64)
    requires
        w.len() == SMOOTH_COUNT,
        xs.len() >= SMOOTH_COUNT,
        forall|i: int| 0 <= i < xs.len() ==> xs[i] == x,
    ensures
        mean(feed(w, xs)) == x,
{
    lemma_feed(w, xs);
    lemma_sum_window(feed(w, xs));
}

/// Law: a window of seven samples `x` and one sample `outlier`, in any slot,
/// has the mean `x + (outlier - x) / 8`, the quotient rounded towards
/// negative infinity.
pub proof fn law_single_outlier(w: Seq<i64>, x: i64, outlier: i64, k: int)
    requires
        w.len() == SMOOTH_COUNT,
        0 <= k < SMOOTH_COUNT,
        w[k] == outlier,
        forall|i: int| 0 <= i < SMOOTH_COUNT && i != k ==> w[i] == x,
    ensures
        mean(w) == x + (outlier - x) / (SMOOTH_COUNT as int),
{
    lemma_sum_window(w);
    assert(sum(w) == 8 * x + (outlier - x));
}

/// State of one channel: a ring of the last eight samples and the slot that
/// the next sample overwrites.
#[derive(Clone, Copy, Debug)]
pub struct SmoothedChannel {
    buf: [i64; 8],
    cursor: usize,
}

impl SmoothedChannel {
    #[verifier::type_invariant]
    spec fn inv(self) -> bool {
        self.cursor == UNINITIALIZED || self.cursor < SMOOTH_COUNT
    }

    /// The raw ring, slot by slot.
    pub closed spec fn slots(&self) -> Seq<i64> {
        self.buf@
    }

    /// The raw cursor: the slot that the next sample overwrites, or
    /// `UNINITIALIZED`.
    pub closed spec fn cursor_value(&self) -> usize {
        self.cursor
    }

    /// Whether the channel has taken a sample since the last cold boot.
    pub open spec fn is_initialized(&self) -> bool {
        self.cursor_value() != UNINITIALIZED
    }

    /// The last eight samples, oldest first: the ring read from the cursor
    /// on. Before the first sample the window has no meaning.
    pub open spec fn window(&self) -> Seq<i64> {
        Seq::new(
            SMOOTH_COUNT as nat,
            |i: int| self.slots()[(self.cursor_value() + i) % (SMOOTH_COUNT as int)],
        )
    }

    /// The raw ring after `val` has been fed: filled with `val` on first
    /// use, with `val` in the slot of the cursor afterwards.
    pub open spec fn slots_fed(&self, val: i64) -> Seq<i64> {
        if self.is_initialized() {
            self.slots().update(self.cursor_value() as int, val)
        } else {
            Seq::new(SMOOTH_COUNT as nat, |i: int| val)
        }
    }

    /// The raw cursor after a sample has been fed: the first slot on first
    /// use, the next slot afterwards, around the ring.
    pub open spec fn cursor_fed(&self) -> usize {
        if self.is_initialized() {
            ((self.cursor_value() + 1) % (SMOOTH_COUNT as int)) as usize
        } else {
            0
        }
    }

    /// A channel as a cold boot leaves it.
    pub fn new() -> (r: Self)
        ensures
            !r.is_initialized(),
            r.cursor_value() == UNINITIALIZED,
            r.slots() == Seq::new(SMOOTH_COUNT as nat, |i: int| 0i64),
    {
        let r = SmoothedChannel { buf: [0i64; 8], cursor: UNINITIALIZED };
        assert(r.buf@ =~= Seq::new(SMOOTH_COUNT as nat, |i: int| 0i64));
        r
    }

    /// Feeds `val` and returns the smoothed value.
    pub fn smooth(&mut self, val: i64) -> (r: i64)
        ensures
            final(self).slots() == old(self).slots_fed(val),
            final(self).cursor_value() == old(self).cursor_fed(),
            final(self).is_initialized(),
            final(self).window() == next_window(old(self).is_initialized(), old(self).window(), val),
            r == mean(final(self).window()),
            !old(self).is_initialized() ==> r == val,
    {
        proof {
            use_type_invariant(&*self);
        }
        if self.cursor == UNINITIALIZED {
            self.buf = [val; 8];
            self.cursor = 0;
            assert(self.buf@ =~= old(self).slots_fed(val));
            assert(self.window() =~= next_window(false, old(self).window(), val));
        } else {
            let c = self.cursor;
            self.buf[c] = val;
            self.cursor = (c + 1) % SMOOTH_COUNT;
            assert(self.window() =~= next_window(true, old(self).window(), val));
        }
        let mut total: i128 = 0;
        let mut i: usize = 0;
        while i < SMOOTH_COUNT
            invariant
                i <= SMOOTH_COUNT,
                total == sum(self.buf@.take(i as int)),
                i * (i64::MIN as int) <= total <= i * (i64::MAX as int),
            decreases SMOOTH_COUNT - i,
        {
            assert(self.buf@.take(i as int + 1).drop_last() =~= self.buf@.take(i as int));
            total = total + self.buf[i] as i128;
            i = i + 1;
        }
        proof {
            assert(self.buf@.take(8) =~= self.buf@);
            lemma_sum_window(self.buf@);
            lemma_sum_window(self.window());
        }
        let q = total.checked_div_euclid(8);
        q.unwrap() as i64
    }

    /// The raw state, as it is kept in retained memory.
    pub fn to_parts(&self) -> (r: ([i64; 8], usize))
        ensures
            r.0@ == self.slots(),
            r.1 == self.cursor_value(),
            r.1 == UNINITIALIZED || r.1 < SMOOTH_COUNT,
    {
        proof {
            use_type_invariant(self);
        }
        (self.buf, self.cursor)
    }

    /// Takes a channel up from retained memory. A cursor that is neither a
    /// slot nor the mark of a fresh channel is rejected.
    pub fn from_parts(buf: [i64; 8], cursor: usize) -> (r: Option<Self>)
        ensures
            r is Some <==> (cursor == UNINITIALIZED || cursor < SMOOTH_COUNT),
            r matches Some(c) ==> c.slots() == buf@ && c.cursor_value() == cursor,
            r is None ==> cursor >= SMOOTH_COUNT,
    {
        if cursor == UNINITIALIZED || cursor < SMOOTH_COUNT {
            Some(SmoothedChannel { buf, cursor })
        } else {
            None
        }
    }
}

/// The smoothing state of all channels: what the device retains across a
/// deep power-off and loses on a cold boot.
#[derive(Clone, Copy, Debug)]
pub struct RetainedRegion {
    channels: [SmoothedChannel; 3],
}

impl RetainedRegion {
    /// The state of channel `i`.
    pub closed spec fn channel(&self, i: int) -> SmoothedChannel {
        self.channels@[i]
    }

    /// The region as a cold boot leaves it: no channel has a sample.
    pub fn new() -> (r: Self)
        ensures
            forall|i: int| 0 <= i < SMOOTH_ARRAY_COUNT ==> !(#[trigger] r.channel(i)).is_initialized(),
    {
        RetainedRegion { channels: [SmoothedChannel::new(); 3] }
    }

    /// Takes the region up from the channels kept in retained memory.
    pub fn from_channels(channels: [SmoothedChannel; 3]) -> (r: Self)
        ensures
            forall|i: int| 0 <= i < SMOOTH_ARRAY_COUNT ==> #[trigger] r.channel(i) == channels@[i],
    {
        RetainedRegion { channels }
    }

    /// The channels, to keep in retained memory.
    pub fn to_channels(&self) -> (r: [SmoothedChannel; 3])
        ensures
            forall|i: int| 0 <= i < SMOOTH_ARRAY_COUNT ==> #[trigger] r@[i] == self.channel(i),
    {
        self.channels
    }

    /// Feeds `val` to channel `channel` and returns the smoothed value. The
    /// other channels keep their state.
    pub fn get_smoothed(&mut self, channel: usize, val: i64) -> (r: i64)
        requires
            channel < SMOOTH_ARRAY_COUNT,
        ensures
            final(self).channel(channel as int).slots() == old(self).channel(
                channel as int,
            ).slots_fed(val),
            final(self).channel(channel as int).cursor_value() == old(self).channel(
                channel as int,
            ).cursor_fed(),
            final(self).channel(channel as int).is_initialized(),
            final(self).channel(channel as int).window() == next_window(
                old(self).channel(channel as int).is_initialized(),
                old(self).channel(channel as int).window(),
                val,
            ),
            r == mean(final(self).channel(channel as int).window()),
            !old(self).channel(channel as int).is_initialized() ==> r == val,
            forall|i: int|
                0 <= i < SMOOTH_ARRAY_COUNT && i != channel ==> final(self).channel(i) == old(
                    self,
                ).channel(i),
    {
        self.channels[channel].smooth(val)
    }
}

} // verus!
