//! Scroll event coalescing.
//!
//! Merges bursts of raw scroll input into batched deltas before they reach
//! the scene, to reduce layout recalculations during fast scrolling while
//! preserving total displacement exactly: the sum of all deltas is invariant
//! under coalescing.
//!
//! Deltas are integer scroll units chosen by the embedder (for example
//! thousandths of a pixel); cursor positions are device pixels; times are
//! millisecond readings of a monotonic clock supplied by the caller.

use vstd::prelude::*;

verus! {

use crate::clock::{
    spec_elapsed,
    spec_saturating_add,
    spec_saturating_inc,
    saturating_elapsed,
    saturating_add,
    saturating_inc,
};

/// Maximum number of events to coalesce into one batch before forcing
/// processing.
pub const MAX_COALESCED_EVENTS: u32 = 10;

/// Maximum time to hold coalesced events, in milliseconds (about one frame at
/// 60 Hz).
pub const MAX_COALESCE_TIME_MS: u64 = 16;

/// Squared cursor-distance threshold for same-target detection, in device
/// pixels squared (10 px).
pub const CURSOR_DISTANCE_SQ_THRESHOLD: i64 = 100;

/// Bound on the magnitude of one raw event's delta components; keeps any
/// accumulated batch delta well inside the representable range.
pub const MAX_RAW_DELTA: i64 = 0x8000_0000;

/// A cursor position in integer device pixels.
#[derive(Clone, Copy, PartialEq, Eq, Structural, Debug)]
pub struct DeviceIntPoint {
    pub x: i32,
    pub y: i32,
}

impl DeviceIntPoint {
    pub fn new(x: i32, y: i32) -> (r: DeviceIntPoint)
        ensures
            r == (DeviceIntPoint { x, y }),
    {
        DeviceIntPoint { x, y }
    }
}

/// A scroll displacement in integer scroll units.
#[derive(Clone, Copy, PartialEq, Eq, Structural, Debug)]
pub struct ScrollDelta {
    pub x: i64,
    pub y: i64,
}

impl ScrollDelta {
    pub fn new(x: i64, y: i64) -> (r: ScrollDelta)
        ensures
            r == (ScrollDelta { x, y }),
    {
        ScrollDelta { x, y }
    }

    pub fn zero() -> (r: ScrollDelta)
        ensures
            r == (ScrollDelta { x: 0i64, y: 0i64 }),
    {
        ScrollDelta { x: 0, y: 0 }
    }
}

/// A raw event delta small enough to accumulate without overflow.
pub open spec fn small_delta(d: ScrollDelta) -> bool {
    &&& -MAX_RAW_DELTA <= d.x <= MAX_RAW_DELTA
    &&& -MAX_RAW_DELTA <= d.y <= MAX_RAW_DELTA
}

/// Squared distance between two cursor positions, in device pixels squared.
pub open spec fn spec_dist2(a: DeviceIntPoint, b: DeviceIntPoint) -> int {
    (a.x - b.x) * (a.x - b.x) + (a.y - b.y) * (a.y - b.y)
}

/// Integer division that rounds toward zero, as the average of a signed
/// accumulated delta.
pub open spec fn spec_div_toward_zero(a: int, b: int) -> int
    recommends
        b > 0,
{
    if a >= 0 {
        a / b
    } else {
        -((-a) / b)
    }
}

/// A coalesced scroll event combining multiple raw scroll inputs.
#[derive(Clone, Copy, PartialEq, Eq, Structural, Debug)]
pub struct CoalescedScrollEvent {
    /// Accumulated scroll delta: exactly the sum of the folded-in raw deltas.
    pub delta: ScrollDelta,
    /// Cursor position, from the most recent folded-in event.
    pub cursor: DeviceIntPoint,
    /// Number of raw events coalesced into this one.
    pub event_count: u32,
    /// Clock reading at the first event of this batch.
    pub first_event_time_ms: u64,
    /// Clock reading at the most recent event of this batch.
    pub last_event_time_ms: u64,
}

impl CoalescedScrollEvent {
    /// The batch's accumulated delta stays within `event_count` raw deltas'
    /// worth of magnitude, so accumulation can never overflow.
    pub open spec fn wf(self) -> bool {
        &&& 1 <= self.event_count
        &&& -(self.event_count * MAX_RAW_DELTA) <= self.delta.x <= self.event_count * MAX_RAW_DELTA
        &&& -(self.event_count * MAX_RAW_DELTA) <= self.delta.y <= self.event_count * MAX_RAW_DELTA
    }

    /// The batch that one raw event starts.
    pub open spec fn spec_new(delta: ScrollDelta, cursor: DeviceIntPoint, now_ms: u64)
        -> CoalescedScrollEvent {
        CoalescedScrollEvent {
            delta,
            cursor,
            event_count: 1u32,
            first_event_time_ms: now_ms,
            last_event_time_ms: now_ms,
        }
    }

    /// A new raw event merges into this batch if and only if its cursor is
    /// within the proximity threshold of the batch's last cursor, the batch
    /// has not reached the event cap, and the batch's age is within the hold
    /// time.
    pub open spec fn spec_can_coalesce(self, cursor: DeviceIntPoint, now_ms: u64) -> bool {
        &&& spec_dist2(self.cursor, cursor) <= CURSOR_DISTANCE_SQ_THRESHOLD
        &&& self.event_count < MAX_COALESCED_EVENTS
        &&& spec_elapsed(self.first_event_time_ms, now_ms) <= MAX_COALESCE_TIME_MS
    }

    /// The batch after merging one raw event: the delta accumulates exactly,
    /// the event counter grows by one, the cursor and last-event time follow
    /// the new event, and the batch's first-event time is kept.
    pub open spec fn spec_merged(self, delta: ScrollDelta, cursor: DeviceIntPoint, now_ms: u64)
        -> CoalescedScrollEvent {
        CoalescedScrollEvent {
            delta: ScrollDelta {
                x: (self.delta.x + delta.x) as i64,
                y: (self.delta.y + delta.y) as i64,
            },
            cursor,
            event_count: (self.event_count + 1) as u32,
            first_event_time_ms: self.first_event_time_ms,
            last_event_time_ms: now_ms,
        }
    }

    /// The batch should leave the pending queue: it reached the event cap or
    /// exceeded the hold time.
    pub open spec fn spec_should_flush(self, now_ms: u64) -> bool {
        ||| self.event_count >= MAX_COALESCED_EVENTS
        ||| spec_elapsed(self.first_event_time_ms, now_ms) > MAX_COALESCE_TIME_MS
    }

    /// Create a new coalesced event from a single scroll input at clock
    /// reading `now_ms`.
    pub fn new(delta: ScrollDelta, cursor: DeviceIntPoint, now_ms: u64) -> (r: CoalescedScrollEvent)
        requires
            small_delta(delta),
        ensures
            r == Self::spec_new(delta, cursor, now_ms),
            r.wf(),
    {
        CoalescedScrollEvent {
            delta,
            cursor,
            event_count: 1,
            first_event_time_ms: now_ms,
            last_event_time_ms: now_ms,
        }
    }

    /// Try to coalesce another scroll event into this one. Returns true and
    /// merges exactly when the merge conditions hold; otherwise leaves the
    /// batch untouched, so two batches are never merged retroactively.
    pub fn try_coalesce(
        &mut self,
        delta: ScrollDelta,
        cursor: DeviceIntPoint,
        now_ms: u64,
    ) -> (r: bool)
        requires
            old(self).wf(),
            small_delta(delta),
        ensures
            r == old(self).spec_can_coalesce(cursor, now_ms),
            r ==> *final(self) == old(self).spec_merged(delta, cursor, now_ms),
            !r ==> *final(self) == *old(self),
            final(self).wf(),
    {
        let dx = (self.cursor.x as i64) - (cursor.x as i64);
        let dy = (self.cursor.y as i64) - (cursor.y as i64);
        proof {
            lemma_square_bounded(dx as int);
            lemma_square_bounded(dy as int);
        }
        let dist2 = (dx as i128) * (dx as i128) + (dy as i128) * (dy as i128);
        if dist2 > CURSOR_DISTANCE_SQ_THRESHOLD as i128 {
            return false;
        }
        if self.event_count >= MAX_COALESCED_EVENTS {
            return false;
        }
        let elapsed = saturating_elapsed(self.first_event_time_ms, now_ms);
        if elapsed > MAX_COALESCE_TIME_MS {
            return false;
        }
        self.delta.x = self.delta.x + delta.x;
        self.delta.y = self.delta.y + delta.y;
        self.cursor = cursor;
        self.event_count = self.event_count + 1;
        self.last_event_time_ms = now_ms;
        true
    }

    /// Check whether this coalesced event should be flushed at clock reading
    /// `now_ms`.
    pub fn should_flush(&self, now_ms: u64) -> (r: bool)
        ensures
            r == self.spec_should_flush(now_ms),
    {
        if self.event_count >= MAX_COALESCED_EVENTS {
            return true;
        }
        let elapsed = saturating_elapsed(self.first_event_time_ms, now_ms);
        elapsed > MAX_COALESCE_TIME_MS
    }

    /// The average delta per folded-in event (for velocity estimates),
    /// rounded toward zero.
    pub fn average_delta(&self) -> (r: ScrollDelta)
        requires
            self.wf(),
        ensures
            r.x == spec_div_toward_zero(self.delta.x as int, self.event_count as int),
            r.y == spec_div_toward_zero(self.delta.y as int, self.event_count as int),
    {
        ScrollDelta {
            x: div_toward_zero(self.delta.x, self.event_count),
            y: div_toward_zero(self.delta.y, self.event_count),
        }
    }
}

proof fn lemma_square_bounded(d: int)
    requires
        -0x1_0000_0000 <= d <= 0x1_0000_0000,
    ensures
        0 <= d * d <= 0x1_0000_0000_0000_0000,
{
    assert(0 <= d * d <= 0x1_0000_0000 * 0x1_0000_0000) by (nonlinear_arith)
        requires
            -0x1_0000_0000 <= d <= 0x1_0000_0000,
    ;
}

/// Signed division by a positive count, rounding toward zero.
fn div_toward_zero(a: i64, count: u32) -> (r: i64)
    requires
        count >= 1,
        a > i64::MIN,
    ensures
        r == spec_div_toward_zero(a as int, count as int),
{
    if a >= 0 {
        ((a as u64) / (count as u64)) as i64
    } else {
        let m = ((-a) as u64) / (count as u64);
        proof {
            assert((-a) as u64 / (count as u64) <= (-a) as u64 / 1) by (nonlinear_arith)
                requires
                    count as u64 >= 1,
            ;
        }
        -(m as i64)
    }
}

/// Sum of the x components of a sequence of batch deltas.
pub open spec fn total_dx(s: Seq<CoalescedScrollEvent>) -> int
    decreases s.len(),
{
    if s.len() == 0 {
        0
    } else {
        total_dx(s.drop_last()) + s.last().delta.x
    }
}

/// Sum of the y components of a sequence of batch deltas.
pub open spec fn total_dy(s: Seq<CoalescedScrollEvent>) -> int
    decreases s.len(),
{
    if s.len() == 0 {
        0
    } else {
        total_dy(s.drop_last()) + s.last().delta.y
    }
}

/// Sum of the raw event counts folded into a sequence of batches.
pub open spec fn total_events(s: Seq<CoalescedScrollEvent>) -> int
    decreases s.len(),
{
    if s.len() == 0 {
        0
    } else {
        total_events(s.drop_last()) + s.last().event_count
    }
}

proof fn lemma_totals_push(s: Seq<CoalescedScrollEvent>, b: CoalescedScrollEvent)
    ensures
        total_dx(s.push(b)) == total_dx(s) + b.delta.x,
        total_dy(s.push(b)) == total_dy(s) + b.delta.y,
        total_events(s.push(b)) == total_events(s) + b.event_count,
{
    assert(s.push(b).drop_last() =~= s);
}

proof fn lemma_totals_update(s: Seq<CoalescedScrollEvent>, j: int, b: CoalescedScrollEvent)
    requires
        0 <= j < s.len(),
    ensures
        total_dx(s.update(j, b)) == total_dx(s) - s[j].delta.x + b.delta.x,
        total_dy(s.update(j, b)) == total_dy(s) - s[j].delta.y + b.delta.y,
        total_events(s.update(j, b)) == total_events(s) - s[j].event_count + b.event_count,
    decreases s.len(),
{
    let t = s.update(j, b);
    if j == s.len() - 1 {
        assert(t.drop_last() =~= s.drop_last());
        assert(t.last() == b);
    } else {
        assert(t.drop_last() =~= s.drop_last().update(j, b));
        lemma_totals_update(s.drop_last(), j, b);
        assert(t.last() == s.last());
        assert(s.drop_last()[j] == s[j]);
    }
}

/// Index of the first pending batch that a raw event at `cursor` and `now_ms`
/// would merge into, or -1 when none accepts it.
pub open spec fn find_mergeable(
    s: Seq<CoalescedScrollEvent>,
    cursor: DeviceIntPoint,
    now_ms: u64,
) -> int
    decreases s.len(),
{
    if s.len() == 0 {
        -1
    } else if s[0].spec_can_coalesce(cursor, now_ms) {
        0
    } else {
        let r = find_mergeable(s.drop_first(), cursor, now_ms);
        if r >= 0 {
            r + 1
        } else {
            -1
        }
    }
}

proof fn lemma_find_mergeable_none(s: Seq<CoalescedScrollEvent>, cursor: DeviceIntPoint, now_ms: u64)
    requires
        forall|k: int| 0 <= k < s.len() ==> !(#[trigger] s[k]).spec_can_coalesce(cursor, now_ms),
    ensures
        find_mergeable(s, cursor, now_ms) == -1,
    decreases s.len(),
{
    if s.len() > 0 {
        assert(forall|k: int|
            0 <= k < s.drop_first().len() ==> #[trigger] s.drop_first()[k] == s[k + 1]);
        lemma_find_mergeable_none(s.drop_first(), cursor, now_ms);
    }
}

proof fn lemma_find_mergeable_at(
    s: Seq<CoalescedScrollEvent>,
    cursor: DeviceIntPoint,
    now_ms: u64,
    i: int,
)
    requires
        0 <= i < s.len(),
        forall|k: int| 0 <= k < i ==> !(#[trigger] s[k]).spec_can_coalesce(cursor, now_ms),
        s[i].spec_can_coalesce(cursor, now_ms),
    ensures
        find_mergeable(s, cursor, now_ms) == i,
    decreases i,
{
    if i > 0 {
        assert(forall|k: int|
            0 <= k < s.drop_first().len() ==> #[trigger] s.drop_first()[k] == s[k + 1]);
        lemma_find_mergeable_at(s.drop_first(), cursor, now_ms, i - 1);
    }
}

/// What the pending queue becomes when one raw event arrives: with coalescing
/// disabled the event starts its own batch; otherwise it merges into the
/// first batch that accepts it, and starts a new batch when none does.
pub open spec fn spec_add_event(
    pending: Seq<CoalescedScrollEvent>,
    delta: ScrollDelta,
    cursor: DeviceIntPoint,
    now_ms: u64,
    enabled: bool,
) -> Seq<CoalescedScrollEvent> {
    if !enabled {
        pending.push(CoalescedScrollEvent::spec_new(delta, cursor, now_ms))
    } else {
        let j = find_mergeable(pending, cursor, now_ms);
        if j >= 0 {
            pending.update(j, pending[j].spec_merged(delta, cursor, now_ms))
        } else {
            pending.push(CoalescedScrollEvent::spec_new(delta, cursor, now_ms))
        }
    }
}

/// Every pending batch respects its accumulation bound.
pub open spec fn all_wf(s: Seq<CoalescedScrollEvent>) -> bool {
    forall|i: int| 0 <= i < s.len() ==> (#[trigger] s[i]).wf()
}

/// Coalescing conserves displacement: one arriving event adds exactly its
/// delta to the total pending delta and exactly one to the total pending
/// event count, whether it merges or starts a new batch.
pub proof fn lemma_add_event_conserves_totals(
    pending: Seq<CoalescedScrollEvent>,
    delta: ScrollDelta,
    cursor: DeviceIntPoint,
    now_ms: u64,
    enabled: bool,
)
    requires
        all_wf(pending),
        small_delta(delta),
    ensures
        total_dx(spec_add_event(pending, delta, cursor, now_ms, enabled)) == total_dx(pending)
            + delta.x,
        total_dy(spec_add_event(pending, delta, cursor, now_ms, enabled)) == total_dy(pending)
            + delta.y,
        total_events(spec_add_event(pending, delta, cursor, now_ms, enabled)) == total_events(
            pending,
        ) + 1,
        all_wf(spec_add_event(pending, delta, cursor, now_ms, enabled)),
{
    let nb = CoalescedScrollEvent::spec_new(delta, cursor, now_ms);
    let j = find_mergeable(pending, cursor, now_ms);
    if enabled && j >= 0 {
        lemma_find_mergeable_in_range(pending, cursor, now_ms);
        let b = pending[j];
        let m = b.spec_merged(delta, cursor, now_ms);
        assert(b.spec_can_coalesce(cursor, now_ms)) by {
            lemma_find_mergeable_hits(pending, cursor, now_ms);
        }
        assert(b.event_count < MAX_COALESCED_EVENTS);
        assert(-(10 * MAX_RAW_DELTA) <= b.delta.x + delta.x <= 10 * MAX_RAW_DELTA);
        assert(m.delta.x == b.delta.x + delta.x);
        assert(m.delta.y == b.delta.y + delta.y);
        assert(m.wf());
        lemma_totals_update(pending, j, m);
        assert(all_wf(pending.update(j, m))) by {
            assert(forall|i: int|
                0 <= i < pending.len() && i != j ==> pending.update(j, m)[i] == pending[i]);
        }
    } else {
        lemma_totals_push(pending, nb);
        assert(all_wf(pending.push(nb))) by {
            assert(forall|i: int|
                0 <= i < pending.len() ==> pending.push(nb)[i] == pending[i]);
        }
    }
}

proof fn lemma_find_mergeable_in_range(
    s: Seq<CoalescedScrollEvent>,
    cursor: DeviceIntPoint,
    now_ms: u64,
)
    ensures
        -1 <= find_mergeable(s, cursor, now_ms) < s.len(),
    decreases s.len(),
{
    if s.len() > 0 && !s[0].spec_can_coalesce(cursor, now_ms) {
        lemma_find_mergeable_in_range(s.drop_first(), cursor, now_ms);
    }
}

proof fn lemma_find_mergeable_hits(
    s: Seq<CoalescedScrollEvent>,
    cursor: DeviceIntPoint,
    now_ms: u64,
)
    requires
        find_mergeable(s, cursor, now_ms) >= 0,
    ensures
        find_mergeable(s, cursor, now_ms) < s.len(),
        s[find_mergeable(s, cursor, now_ms)].spec_can_coalesce(cursor, now_ms),
    decreases s.len(),
{
    if s.len() > 0 && !s[0].spec_can_coalesce(cursor, now_ms) {
        lemma_find_mergeable_hits(s.drop_first(), cursor, now_ms);
        assert(s.drop_first()[find_mergeable(s.drop_first(), cursor, now_ms)] == s[
            find_mergeable(s, cursor, now_ms)]);
    }
}

/// Batches are never merged retroactively: an arriving event touches at most
/// one pending batch, and every other batch is left exactly as it was.
pub proof fn lemma_no_retroactive_merge(
    pending: Seq<CoalescedScrollEvent>,
    delta: ScrollDelta,
    cursor: DeviceIntPoint,
    now_ms: u64,
    enabled: bool,
)
    ensures
        spec_add_event(pending, delta, cursor, now_ms, enabled).len() >= pending.len(),
        forall|k: int|
            0 <= k < pending.len() && k != find_mergeable(pending, cursor, now_ms)
                ==> #[trigger] spec_add_event(pending, delta, cursor, now_ms, enabled)[k]
                == pending[k],
{
    lemma_find_mergeable_in_range(pending, cursor, now_ms);
}

/// A cursor beyond the proximity threshold of every pending batch always
/// starts a new batch; the pending batches are untouched.
pub proof fn lemma_distant_cursor_starts_new_batch(
    pending: Seq<CoalescedScrollEvent>,
    delta: ScrollDelta,
    cursor: DeviceIntPoint,
    now_ms: u64,
)
    requires
        forall|k: int|
            0 <= k < pending.len() ==> spec_dist2((#[trigger] pending[k]).cursor, cursor)
                > CURSOR_DISTANCE_SQ_THRESHOLD,
    ensures
        spec_add_event(pending, delta, cursor, now_ms, true) == pending.push(
            CoalescedScrollEvent::spec_new(delta, cursor, now_ms),
        ),
{
    lemma_find_mergeable_none(pending, cursor, now_ms);
}

/// Configuration for scroll coalescing behavior. The merge limits themselves
/// are the fixed constants above; the switch here can disable coalescing
/// entirely (for debugging), making every raw event its own batch.
#[derive(Clone, Copy, PartialEq, Eq, Structural, Debug)]
pub struct ScrollCoalescerConfig {
    /// Maximum events to coalesce.
    pub max_coalesced_events: u32,
    /// Maximum time to hold events (ms).
    pub max_coalesce_time_ms: u64,
    /// Cursor distance threshold for same-target detection, in device pixels.
    pub cursor_threshold_px: u32,
    /// Enable coalescing.
    pub enabled: bool,
}

/// The default coalescer configuration: the fixed merge limits, coalescing
/// on.
pub open spec fn spec_default_scroll_config() -> ScrollCoalescerConfig {
    ScrollCoalescerConfig {
        max_coalesced_events: MAX_COALESCED_EVENTS,
        max_coalesce_time_ms: MAX_COALESCE_TIME_MS,
        cursor_threshold_px: 10u32,
        enabled: true,
    }
}

impl Default for ScrollCoalescerConfig {
    fn default() -> (r: ScrollCoalescerConfig)
        ensures
            r == spec_default_scroll_config(),
    {
        ScrollCoalescerConfig {
            max_coalesced_events: MAX_COALESCED_EVENTS,
            max_coalesce_time_ms: MAX_COALESCE_TIME_MS,
            cursor_threshold_px: 10,
            enabled: true,
        }
    }
}

/// Statistics about coalescing effectiveness.
#[derive(Clone, Copy, PartialEq, Eq, Structural, Debug)]
pub struct CoalescingStats {
    /// Total raw events received.
    pub total_events: u64,
    /// Total coalesced batches emitted.
    pub coalesced_events: u64,
    /// Raw events that were folded into an existing batch rather than
    /// emitted separately.
    pub events_saved: u64,
}

impl CoalescingStats {
    /// The coalescing ratio in permille (raw events per emitted batch; higher
    /// means more effective), saturating at the representable maximum. With
    /// no events observed the ratio is one (1000 permille).
    pub fn coalescing_ratio(&self) -> (r: u64)
        ensures
            self.total_events == 0 ==> r == 1000,
            self.total_events > 0 ==> r as int == {
                let d = if self.coalesced_events > 0 {
                    self.coalesced_events as int
                } else {
                    1
                };
                let q = self.total_events as int * 1000 / d;
                if q <= u64::MAX {
                    q
                } else {
                    u64::MAX as int
                }
            },
    {
        if self.total_events == 0 {
            return 1000;
        }
        let d: u64 = if self.coalesced_events > 0 {
            self.coalesced_events
        } else {
            1
        };
        let q = (self.total_events as u128) * 1000 / (d as u128);
        if q <= u64::MAX as u128 {
            q as u64
        } else {
            u64::MAX
        }
    }

    /// Reset statistics to zero.
    pub fn reset(&mut self)
        ensures
            *final(self) == (CoalescingStats {
                total_events: 0u64,
                coalesced_events: 0u64,
                events_saved: 0u64,
            }),
    {
        self.total_events = 0;
        self.coalesced_events = 0;
        self.events_saved = 0;
    }
}

impl Default for CoalescingStats {
    fn default() -> (r: CoalescingStats)
        ensures
            r == (CoalescingStats {
                total_events: 0u64,
                coalesced_events: 0u64,
                events_saved: 0u64,
            }),
    {
        CoalescingStats { total_events: 0, coalesced_events: 0, events_saved: 0 }
    }
}

/// Pending batches that should be flushed at `now_ms`.
pub open spec fn flushed_batches(s: Seq<CoalescedScrollEvent>, now_ms: u64) -> Seq<
    CoalescedScrollEvent,
> {
    s.filter(|b: CoalescedScrollEvent| b.spec_should_flush(now_ms))
}

/// Pending batches that stay queued at `now_ms`.
pub open spec fn kept_batches(s: Seq<CoalescedScrollEvent>, now_ms: u64) -> Seq<
    CoalescedScrollEvent,
> {
    s.filter(|b: CoalescedScrollEvent| !b.spec_should_flush(now_ms))
}

proof fn lemma_flush_partition_push(
    s: Seq<CoalescedScrollEvent>,
    b: CoalescedScrollEvent,
    now_ms: u64,
)
    ensures
        flushed_batches(s.push(b), now_ms) == if b.spec_should_flush(now_ms) {
            flushed_batches(s, now_ms).push(b)
        } else {
            flushed_batches(s, now_ms)
        },
        kept_batches(s.push(b), now_ms) == if !b.spec_should_flush(now_ms) {
            kept_batches(s, now_ms).push(b)
        } else {
            kept_batches(s, now_ms)
        },
{
    reveal(Seq::filter);
    assert(s.push(b).drop_last() =~= s);
}

/// Flushing loses nothing: the flushed and the kept batches together carry
/// exactly the pending totals.
pub proof fn lemma_flush_conserves_totals(s: Seq<CoalescedScrollEvent>, now_ms: u64)
    ensures
        total_dx(flushed_batches(s, now_ms)) + total_dx(kept_batches(s, now_ms)) == total_dx(s),
        total_dy(flushed_batches(s, now_ms)) + total_dy(kept_batches(s, now_ms)) == total_dy(s),
        total_events(flushed_batches(s, now_ms)) + total_events(kept_batches(s, now_ms))
            == total_events(s),
    decreases s.len(),
{
    if s.len() == 0 {
        reveal(Seq::filter);
    } else {
        lemma_flush_conserves_totals(s.drop_last(), now_ms);
        lemma_flush_partition_push(s.drop_last(), s.last(), now_ms);
        assert(s.drop_last().push(s.last()) =~= s);
        lemma_totals_push(s.drop_last(), s.last());
        if s.last().spec_should_flush(now_ms) {
            lemma_totals_push(flushed_batches(s.drop_last(), now_ms), s.last());
        } else {
            lemma_totals_push(kept_batches(s.drop_last(), now_ms), s.last());
        }
    }
}

/// Scroll event coalescer that batches raw scroll events.
#[derive(Clone, Debug)]
pub struct ScrollCoalescer {
    /// Pending coalesced batches, in arrival order of their first events.
    pub pending: Vec<CoalescedScrollEvent>,
    /// Configuration.
    pub config: ScrollCoalescerConfig,
    /// Statistics.
    pub stats: CoalescingStats,
}

impl ScrollCoalescer {
    /// Every pending batch respects its accumulation bound.
    pub open spec fn wf(self) -> bool {
        all_wf(self.pending@)
    }

    /// Create a new scroll coalescer with the default configuration.
    pub fn new() -> (r: ScrollCoalescer)
        ensures
            r.wf(),
            r.pending@.len() == 0,
            r.config == spec_default_scroll_config(),
            r.stats == (CoalescingStats {
                total_events: 0u64,
                coalesced_events: 0u64,
                events_saved: 0u64,
            }),
    {
        ScrollCoalescer {
            pending: Vec::new(),
            config: ScrollCoalescerConfig {
                max_coalesced_events: MAX_COALESCED_EVENTS,
                max_coalesce_time_ms: MAX_COALESCE_TIME_MS,
                cursor_threshold_px: 10,
                enabled: true,
            },
            stats: CoalescingStats { total_events: 0, coalesced_events: 0, events_saved: 0 },
        }
    }

    /// Create a new scroll coalescer with a custom configuration.
    pub fn with_config(config: ScrollCoalescerConfig) -> (r: ScrollCoalescer)
        ensures
            r.wf(),
            r.pending@.len() == 0,
            r.config == config,
            r.stats == (CoalescingStats {
                total_events: 0u64,
                coalesced_events: 0u64,
                events_saved: 0u64,
            }),
    {
        ScrollCoalescer {
            pending: Vec::new(),
            config,
            stats: CoalescingStats { total_events: 0, coalesced_events: 0, events_saved: 0 },
        }
    }

    /// Add a scroll event at clock reading `now_ms`, folding it into the
    /// first pending batch that accepts it or starting a new batch. The total
    /// pending displacement grows by exactly this event's delta, and the
    /// total pending event count by exactly one.
    pub fn add_event(&mut self, delta: ScrollDelta, cursor: DeviceIntPoint, now_ms: u64)
        requires
            old(self).wf(),
            small_delta(delta),
        ensures
            final(self).pending@ == spec_add_event(
                old(self).pending@,
                delta,
                cursor,
                now_ms,
                old(self).config.enabled,
            ),
            final(self).config == old(self).config,
            final(self).stats.total_events == spec_saturating_inc(old(self).stats.total_events),
            final(self).stats.coalesced_events == old(self).stats.coalesced_events,
            final(self).stats.events_saved == if old(self).config.enabled && find_mergeable(
                old(self).pending@,
                cursor,
                now_ms,
            ) >= 0 {
                spec_saturating_inc(old(self).stats.events_saved)
            } else {
                old(self).stats.events_saved as int
            },
            final(self).wf(),
            total_dx(final(self).pending@) == total_dx(old(self).pending@) + delta.x,
            total_dy(final(self).pending@) == total_dy(old(self).pending@) + delta.y,
            total_events(final(self).pending@) == total_events(old(self).pending@) + 1,
    {
        proof {
            lemma_add_event_conserves_totals(
                self.pending@,
                delta,
                cursor,
                now_ms,
                self.config.enabled,
            );
        }
        self.stats.total_events = saturating_inc(self.stats.total_events);

        if !self.config.enabled {
            let b = CoalescedScrollEvent::new(delta, cursor, now_ms);
            self.pending.push(b);
            return;
        }

        let ghost orig = self.pending@;
        let n = self.pending.len();
        let mut i: usize = 0;
        while i < n
            invariant
                i <= n,
                n == orig.len(),
                self.pending@ == orig,
                self.config == old(self).config,
                self.config.enabled,
                orig == old(self).pending@,
                self.stats.total_events == spec_saturating_inc(old(self).stats.total_events),
                self.stats.coalesced_events == old(self).stats.coalesced_events,
                self.stats.events_saved == old(self).stats.events_saved,
                all_wf(orig),
                small_delta(delta),
                forall|k: int|
                    0 <= k < i ==> !(#[trigger] orig[k]).spec_can_coalesce(cursor, now_ms),
            decreases n - i,
        {
            let mut b = self.pending[i];
            if b.try_coalesce(delta, cursor, now_ms) {
                proof {
                    lemma_find_mergeable_at(orig, cursor, now_ms, i as int);
                }
                self.pending.set(i, b);
                self.stats.events_saved = saturating_inc(self.stats.events_saved);
                proof {
                    assert(self.pending@ == spec_add_event(orig, delta, cursor, now_ms, true));
                    lemma_add_event_conserves_totals(orig, delta, cursor, now_ms, true);
                }
                return;
            }
            i = i + 1;
        }
        proof {
            lemma_find_mergeable_none(orig, cursor, now_ms);
        }
        let b = CoalescedScrollEvent::new(delta, cursor, now_ms);
        self.pending.push(b);
    }

    /// Flush and return all pending batches that should be processed at clock
    /// reading `now_ms`, keeping the rest queued. Together the flushed and
    /// the kept batches carry exactly the displacement that was pending.
    pub fn flush(&mut self, now_ms: u64) -> (r: Vec<CoalescedScrollEvent>)
        requires
            old(self).wf(),
        ensures
            r@ == flushed_batches(old(self).pending@, now_ms),
            final(self).pending@ == kept_batches(old(self).pending@, now_ms),
            final(self).config == old(self).config,
            final(self).stats.total_events == old(self).stats.total_events,
            final(self).stats.events_saved == old(self).stats.events_saved,
            final(self).stats.coalesced_events == spec_saturating_add(
                old(self).stats.coalesced_events,
                (r@.len() as u64),
            ),
            final(self).wf(),
            total_dx(r@) + total_dx(final(self).pending@) == total_dx(old(self).pending@),
            total_dy(r@) + total_dy(final(self).pending@) == total_dy(old(self).pending@),
            total_events(r@) + total_events(final(self).pending@) == total_events(
                old(self).pending@,
            ),
    {
        proof {
            lemma_flush_conserves_totals(self.pending@, now_ms);
        }
        let mut ready: Vec<CoalescedScrollEvent> = Vec::new();
        let mut kept: Vec<CoalescedScrollEvent> = Vec::new();
        let n = self.pending.len();
        let mut i: usize = 0;
        while i < n
            invariant
                i <= n,
                n == self.pending@.len(),
                ready@ == flushed_batches(self.pending@.subrange(0, i as int), now_ms),
                kept@ == kept_batches(self.pending@.subrange(0, i as int), now_ms),
                all_wf(self.pending@),
                all_wf(kept@),
            decreases n - i,
        {
            let b = self.pending[i];
            proof {
                assert(self.pending@.subrange(0, i as int + 1) =~= self.pending@.subrange(
                    0,
                    i as int,
                ).push(self.pending@[i as int]));
                lemma_flush_partition_push(
                    self.pending@.subrange(0, i as int),
                    self.pending@[i as int],
                    now_ms,
                );
            }
            if b.should_flush(now_ms) {
                ready.push(b);
            } else {
                kept.push(b);
            }
            i = i + 1;
        }
        proof {
            assert(self.pending@.subrange(0, self.pending@.len() as int) =~= self.pending@);
        }
        self.pending = kept;
        self.stats.coalesced_events = saturating_add(
            self.stats.coalesced_events,
            ready.len() as u64,
        );
        ready
    }

    /// Force flush all pending batches (at a guaranteed flush point: frame
    /// boundary or shutdown), so no input is ever silently dropped.
    pub fn flush_all(&mut self) -> (r: Vec<CoalescedScrollEvent>)
        ensures
            r == old(self).pending,
            final(self).pending@.len() == 0,
            final(self).config == old(self).config,
            final(self).stats.total_events == old(self).stats.total_events,
            final(self).stats.events_saved == old(self).stats.events_saved,
            final(self).stats.coalesced_events == spec_saturating_add(
                old(self).stats.coalesced_events,
                (r@.len() as u64),
            ),
            final(self).wf(),
    {
        let mut drained: Vec<CoalescedScrollEvent> = Vec::new();
        core::mem::swap(&mut drained, &mut self.pending);
        self.stats.coalesced_events = saturating_add(
            self.stats.coalesced_events,
            drained.len() as u64,
        );
        drained
    }

    /// Check whether there are any pending batches.
    pub fn has_pending(&self) -> (r: bool)
        ensures
            r == (self.pending@.len() > 0),
    {
        !self.pending.is_empty()
    }

    /// Get the current coalescing statistics.
    pub fn stats(&self) -> (r: &CoalescingStats)
        ensures
            *r == self.stats,
    {
        &self.stats
    }

    /// Get a mutable reference to the configuration.
    pub fn config_mut(&mut self) -> (r: &mut ScrollCoalescerConfig)
        ensures
            *r == old(self).config,
            *final(self) == (ScrollCoalescer { config: *final(r), ..*old(self) }),
    {
        &mut self.config
    }
}

impl Default for ScrollCoalescer {
    fn default() -> (r: ScrollCoalescer)
        ensures
            r.wf(),
            r.pending@.len() == 0,
            r.config == spec_default_scroll_config(),
            r.stats == (CoalescingStats {
                total_events: 0u64,
                coalesced_events: 0u64,
                events_saved: 0u64,
            }),
    {
        ScrollCoalescer::new()
    }
}

/// Scroll location handed to the renderer.
#[derive(Clone, Copy, PartialEq, Eq, Structural, Debug)]
pub enum ScrollLocation {
    /// Scroll by a delta amount.
    Delta(ScrollDelta),
    /// Scroll to reveal a specific point.
    Start(DeviceIntPoint),
}

impl From<CoalescedScrollEvent> for ScrollLocation {
    /// A coalesced batch scrolls by its accumulated delta.
    fn from(event: CoalescedScrollEvent) -> (r: ScrollLocation) {
        ScrollLocation::Delta(event.delta)
    }
}

impl vstd::std_specs::convert::FromSpecImpl<CoalescedScrollEvent> for ScrollLocation {
    open spec fn obeys_from_spec() -> bool {
        true
    }

    open spec fn from_spec(event: CoalescedScrollEvent) -> ScrollLocation {
        ScrollLocation::Delta(event.delta)
    }
}

/// Sum of the x components of a sequence of raw deltas.
pub open spec fn sum_deltas_x(ds: Seq<ScrollDelta>) -> int
    decreases ds.len(),
{
    if ds.len() == 0 {
        0
    } else {
        ds[0].x + sum_deltas_x(ds.drop_first())
    }
}

/// Sum of the y components of a sequence of raw deltas.
pub open spec fn sum_deltas_y(ds: Seq<ScrollDelta>) -> int
    decreases ds.len(),
{
    if ds.len() == 0 {
        0
    } else {
        ds[0].y + sum_deltas_y(ds.drop_first())
    }
}

/// The pending queue after a whole sequence of raw events arrives in order,
/// all at the same cursor and the same clock reading.
pub open spec fn spec_add_events(
    pending: Seq<CoalescedScrollEvent>,
    ds: Seq<ScrollDelta>,
    cursor: DeviceIntPoint,
    now_ms: u64,
    enabled: bool,
) -> Seq<CoalescedScrollEvent>
    decreases ds.len(),
{
    if ds.len() == 0 {
        pending
    } else {
        spec_add_events(
            spec_add_event(pending, ds[0], cursor, now_ms, enabled),
            ds.drop_first(),
            cursor,
            now_ms,
            enabled,
        )
    }
}

proof fn lemma_burst_aux(
    b: CoalescedScrollEvent,
    ds: Seq<ScrollDelta>,
    cursor: DeviceIntPoint,
    now_ms: u64,
)
    requires
        b.wf(),
        b.cursor == cursor,
        b.first_event_time_ms == now_ms,
        b.last_event_time_ms == now_ms,
        b.event_count + ds.len() <= MAX_COALESCED_EVENTS,
        forall|i: int| 0 <= i < ds.len() ==> small_delta(#[trigger] ds[i]),
    ensures
        spec_add_events(seq![b], ds, cursor, now_ms, true) == seq![
            CoalescedScrollEvent {
                delta: ScrollDelta {
                    x: (b.delta.x + sum_deltas_x(ds)) as i64,
                    y: (b.delta.y + sum_deltas_y(ds)) as i64,
                },
                cursor,
                event_count: (b.event_count + ds.len()) as u32,
                first_event_time_ms: now_ms,
                last_event_time_ms: now_ms,
            },
        ],
        -((b.event_count + ds.len()) * MAX_RAW_DELTA) <= b.delta.x + sum_deltas_x(ds) <= (
        b.event_count + ds.len()) * MAX_RAW_DELTA,
        -((b.event_count + ds.len()) * MAX_RAW_DELTA) <= b.delta.y + sum_deltas_y(ds) <= (
        b.event_count + ds.len()) * MAX_RAW_DELTA,
    decreases ds.len(),
{
    if ds.len() == 0 {
        assert(seq![b] == seq![
            CoalescedScrollEvent {
                delta: ScrollDelta {
                    x: (b.delta.x + sum_deltas_x(ds)) as i64,
                    y: (b.delta.y + sum_deltas_y(ds)) as i64,
                },
                cursor,
                event_count: (b.event_count + ds.len()) as u32,
                first_event_time_ms: now_ms,
                last_event_time_ms: now_ms,
            },
        ]);
    } else {
        let d0 = ds[0];
        assert(small_delta(d0));
        assert(spec_dist2(cursor, cursor) == 0);
        assert(spec_elapsed(now_ms, now_ms) == 0);
        assert(b.spec_can_coalesce(cursor, now_ms));
        lemma_find_mergeable_at(seq![b], cursor, now_ms, 0);
        let m = b.spec_merged(d0, cursor, now_ms);
        assert(b.event_count < MAX_COALESCED_EVENTS);
        assert(-(10 * MAX_RAW_DELTA) <= b.delta.x + d0.x <= 10 * MAX_RAW_DELTA);
        assert(m.delta.x == b.delta.x + d0.x);
        assert(m.delta.y == b.delta.y + d0.y);
        assert(m.wf());
        assert(spec_add_event(seq![b], d0, cursor, now_ms, true) =~= seq![m]);
        lemma_burst_aux(m, ds.drop_first(), cursor, now_ms);
        assert(m.delta.x + sum_deltas_x(ds.drop_first()) == b.delta.x + sum_deltas_x(ds));
        assert(m.delta.y + sum_deltas_y(ds.drop_first()) == b.delta.y + sum_deltas_y(ds));
    }
}

/// Coalescing a burst exactly: raw deltas `d1..dN` arriving at one cursor
/// position within the hold time and under the event cap, starting from an
/// empty queue, leave exactly one batch whose delta is the exact sum of the
/// raw deltas and whose event count is N.
pub proof fn lemma_burst_coalesces_exactly(
    ds: Seq<ScrollDelta>,
    cursor: DeviceIntPoint,
    now_ms: u64,
)
    requires
        1 <= ds.len() <= MAX_COALESCED_EVENTS,
        forall|i: int| 0 <= i < ds.len() ==> small_delta(#[trigger] ds[i]),
    ensures
        spec_add_events(Seq::empty(), ds, cursor, now_ms, true) == seq![
            CoalescedScrollEvent {
                delta: ScrollDelta {
                    x: sum_deltas_x(ds) as i64,
                    y: sum_deltas_y(ds) as i64,
                },
                cursor,
                event_count: ds.len() as u32,
                first_event_time_ms: now_ms,
                last_event_time_ms: now_ms,
            },
        ],
{
    let d0 = ds[0];
    assert(small_delta(d0));
    let nb = CoalescedScrollEvent::spec_new(d0, cursor, now_ms);
    assert(find_mergeable(Seq::<CoalescedScrollEvent>::empty(), cursor, now_ms) == -1);
    assert(spec_add_event(Seq::empty(), d0, cursor, now_ms, true) =~= seq![nb]);
    assert(nb.wf());
    lemma_burst_aux(nb, ds.drop_first(), cursor, now_ms);
    assert(nb.delta.x + sum_deltas_x(ds.drop_first()) == sum_deltas_x(ds));
    assert(nb.delta.y + sum_deltas_y(ds.drop_first()) == sum_deltas_y(ds));
}

} // verus!
