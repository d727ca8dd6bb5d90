//! Pipeline registry and composition orchestrator.
//!
//! The central component: owns the authoritative record of which rendering
//! pipelines are alive, the current composition request, and per-pipeline
//! paint-metric and resource state, and drives the scroll coalescer and the
//! frame pacer in response to inbound messages and frame-presented signals.
//!
//! The orchestrator never blocks and never talks to the content process or
//! the renderer itself: mutating entry points take plain values in, and what
//! must be sent outward (paint-metric events, resource cleanups, the decision
//! to composite) is returned to the embedder, which performs the sends.

use vstd::prelude::*;

verus! {

use crate::clock::{spec_elapsed, saturating_elapsed, spec_saturating_inc, saturating_inc};
use crate::extended_compositor_msg::ExtendedCompositorMsg;
use crate::frame_pacing::FramePacing;
use crate::ids::{Epoch, PipelineId, WebViewId};
use crate::resource_tracker::{PipelineResources, ResourceCleanup};
use crate::scroll_coalescing::{CoalescedScrollEvent, DeviceIntPoint, ScrollCoalescer};

/// Why a composite was performed. This is advisory, for diagnostics: a
/// composite renders the current scene state regardless of why it was
/// requested.
#[derive(Clone, Copy, PartialEq, Eq, Structural, Debug)]
pub enum CompositingReason {
    /// The single composite in headless mode.
    Headless,
    /// A composite to run an animation.
    Animation,
    /// A new renderer frame has arrived.
    NewWebRenderFrame,
    /// The window was resized and needs a synchronous repaint.
    Resize,
}

/// Whether a composite is pending. Multiple triggers collapse to a single
/// pending request; only the most recent reason is retained.
#[derive(Clone, Copy, PartialEq, Eq, Structural, Debug)]
pub enum CompositionRequest {
    /// Idle: nothing asked for a frame.
    NoCompositingNecessary,
    /// A composite is pending for the recorded reason.
    CompositeNow(CompositingReason),
}

/// Shutdown progress. The progression is linear and never steps backward;
/// once finished, the orchestrator accepts no further mutating messages.
#[derive(Clone, Copy, PartialEq, Eq, Structural, Debug)]
pub enum ShutdownState {
    /// The compositor is running.
    NotShuttingDown,
    /// Shutdown has begun: in-flight composite requests are abandoned and
    /// only cleanup still drains.
    ShuttingDown,
    /// The compositor has shut down.
    FinishedShuttingDown,
}

/// A shutdown state's position in the linear progression.
pub open spec fn shutdown_rank(s: ShutdownState) -> int {
    match s {
        ShutdownState::NotShuttingDown => 0,
        ShutdownState::ShuttingDown => 1,
        ShutdownState::FinishedShuttingDown => 2,
    }
}

/// The paint status of one metric of one pipeline, used to trigger paint
/// timing metrics exactly once.
#[derive(Clone, Copy, PartialEq, Eq, Structural, Debug)]
pub enum PaintMetricState {
    /// Still waiting for a display list which triggers this metric.
    Waiting,
    /// The display list that triggers this metric has been processed at the
    /// given epoch (with its first-reflow flag), and the metric waits for a
    /// frame at or after that epoch to actually be presented.
    Seen(Epoch, bool),
    /// The metric has been reported; nothing more will ever be sent.
    Sent,
}

/// A paint-metric state's position in the `Waiting -> Seen -> Sent`
/// progression.
pub open spec fn metric_rank(m: PaintMetricState) -> int {
    match m {
        PaintMetricState::Waiting => 0,
        PaintMetricState::Seen(_, _) => 1,
        PaintMetricState::Sent => 2,
    }
}

/// One paint-metric state may evolve into another: the progression only ever
/// moves forward through `Waiting -> Seen -> Sent`.
pub open spec fn metric_progress(a: PaintMetricState, b: PaintMetricState) -> bool {
    metric_rank(a) <= metric_rank(b)
}

/// Which paint metric an event reports.
#[derive(Clone, Copy, PartialEq, Eq, Structural, Debug)]
pub enum PaintMetricKind {
    /// First paint.
    FirstPaint,
    /// First contentful paint.
    FirstContentfulPaint,
}

/// A one-shot paint-metric event for the content side, sent at most once per
/// pipeline per metric kind.
#[derive(Clone, Copy, PartialEq, Eq, Structural, Debug)]
pub struct PaintMetricEvent {
    pub pipeline_id: PipelineId,
    pub kind: PaintMetricKind,
}

/// An axis-aligned rectangle in device pixels.
#[derive(Clone, Copy, PartialEq, Eq, Structural, Debug)]
pub struct DeviceIntRect {
    pub x: i32,
    pub y: i32,
    pub width: i32,
    pub height: i32,
}

/// Whether a rectangle contains a point (half-open on the far edges).
pub open spec fn rect_contains(r: DeviceIntRect, p: DeviceIntPoint) -> bool {
    &&& r.x <= p.x < r.x + r.width
    &&& r.y <= p.y < r.y + r.height
}

/// One entry of a pipeline's cached hit-test item list, in paint order (later
/// entries are on top).
#[derive(Clone, Copy, PartialEq, Eq, Structural, Debug)]
pub struct HitTestItem {
    /// The content node this item stands for.
    pub node: u64,
    /// The item's bounds in device pixels.
    pub bounds: DeviceIntRect,
}

/// One node of the compositor-side scroll tree mirror: the renderer is the
/// source of truth for the structure, and the compositor writes offsets here
/// optimistically so scroll positions resolve without a renderer round trip.
#[derive(Clone, Copy, PartialEq, Eq, Structural, Debug)]
pub struct ScrollTreeNode {
    /// The external scroll id shared with the renderer.
    pub external_id: u64,
    /// Current scroll offset, in the coalescer's scroll units.
    pub offset_x: i64,
    /// Current scroll offset, in the coalescer's scroll units.
    pub offset_y: i64,
}

/// Per-pipeline state tracked by the orchestrator.
#[derive(Clone, Debug)]
pub struct PipelineDetails {
    /// Handle to the live content-side pipeline connection, when announced.
    pub pipeline: Option<u64>,
    /// The id of the parent pipeline, if any (for embedded frames).
    pub parent_pipeline_id: Option<PipelineId>,
    /// The epoch of the most recent display list for this pipeline.
    pub most_recent_display_list_epoch: Option<Epoch>,
    /// Whether animations are running.
    pub animations_running: bool,
    /// Whether there are animation callbacks running.
    pub animation_callbacks_running: bool,
    /// Whether to reduce work because the pipeline is backgrounded.
    pub throttled: bool,
    /// Hit test items from the most recent display list, in paint order;
    /// discarded and rebuilt whenever a new display list is processed.
    pub hit_test_items: Vec<HitTestItem>,
    /// The compositor-side scroll tree mirror.
    pub scroll_tree: Vec<ScrollTreeNode>,
    /// The paint metric status of the first paint.
    pub first_paint_metric: PaintMetricState,
    /// The paint metric status of the first contentful paint.
    pub first_contentful_paint_metric: PaintMetricState,
    /// Resources to clean up when this pipeline retires.
    pub resources: PipelineResources,
}

impl PipelineDetails {
    /// A freshly announced pipeline: nothing received, nothing tracked, both
    /// paint metrics waiting.
    pub fn new() -> (r: PipelineDetails)
        ensures
            r.pipeline is None,
            r.parent_pipeline_id is None,
            r.most_recent_display_list_epoch is None,
            !r.animations_running,
            !r.animation_callbacks_running,
            !r.throttled,
            r.hit_test_items@.len() == 0,
            r.scroll_tree@.len() == 0,
            r.first_paint_metric == PaintMetricState::Waiting,
            r.first_contentful_paint_metric == PaintMetricState::Waiting,
            r.resources.image_keys@.len() == 0,
            r.resources.font_keys@.len() == 0,
            r.resources.font_instance_keys@.len() == 0,
    {
        PipelineDetails {
            pipeline: None,
            parent_pipeline_id: None,
            most_recent_display_list_epoch: None,
            animations_running: false,
            animation_callbacks_running: false,
            throttled: false,
            hit_test_items: Vec::new(),
            scroll_tree: Vec::new(),
            first_paint_metric: PaintMetricState::Waiting,
            first_contentful_paint_metric: PaintMetricState::Waiting,
            resources: PipelineResources::new(),
        }
    }
}

/// Index of the registry entry for the given pipeline, or -1 when there is
/// none.
pub open spec fn find_details(s: Seq<(PipelineId, PipelineDetails)>, pid: PipelineId) -> int
    decreases s.len(),
{
    if s.len() == 0 {
        -1
    } else if s[0].0 == pid {
        0
    } else {
        let r = find_details(s.drop_first(), pid);
        if r >= 0 {
            r + 1
        } else {
            -1
        }
    }
}

proof fn lemma_find_details_none(s: Seq<(PipelineId, PipelineDetails)>, pid: PipelineId)
    requires
        forall|k: int| 0 <= k < s.len() ==> (#[trigger] s[k]).0 != pid,
    ensures
        find_details(s, pid) == -1,
    decreases s.len(),
{
    if s.len() > 0 {
        assert(forall|k: int|
            0 <= k < s.drop_first().len() ==> #[trigger] s.drop_first()[k] == s[k + 1]);
        lemma_find_details_none(s.drop_first(), pid);
    }
}

proof fn lemma_find_details_at(s: Seq<(PipelineId, PipelineDetails)>, pid: PipelineId, i: int)
    requires
        0 <= i < s.len(),
        forall|k: int| 0 <= k < i ==> (#[trigger] s[k]).0 != pid,
        s[i].0 == pid,
    ensures
        find_details(s, pid) == i,
    decreases i,
{
    if i > 0 {
        assert(forall|k: int|
            0 <= k < s.drop_first().len() ==> #[trigger] s.drop_first()[k] == s[k + 1]);
        lemma_find_details_at(s.drop_first(), pid, i - 1);
    }
}

proof fn lemma_find_details_props(s: Seq<(PipelineId, PipelineDetails)>, pid: PipelineId)
    ensures
        -1 <= find_details(s, pid) < s.len(),
        find_details(s, pid) >= 0 ==> s[find_details(s, pid)].0 == pid,
        find_details(s, pid) >= 0 ==> forall|k: int|
            0 <= k < find_details(s, pid) ==> (#[trigger] s[k]).0 != pid,
        find_details(s, pid) == -1 ==> forall|k: int|
            0 <= k < s.len() ==> (#[trigger] s[k]).0 != pid,
    decreases s.len(),
{
    if s.len() > 0 && s[0].0 != pid {
        let rest = s.drop_first();
        assert(forall|k: int| 0 <= k < rest.len() ==> #[trigger] rest[k] == s[k + 1]);
        lemma_find_details_props(rest, pid);
        if find_details(s, pid) >= 0 {
            assert forall|k: int| 0 <= k < find_details(s, pid) implies (#[trigger] s[k]).0
                != pid by {
                if k > 0 {
                    assert(rest[k - 1] == s[k]);
                }
            }
        } else {
            assert forall|k: int| 0 <= k < s.len() implies (#[trigger] s[k]).0 != pid by {
                if k > 0 {
                    assert(rest[k - 1] == s[k]);
                }
            }
        }
    }
}

/// Index of the webview entry for the given webview, or -1.
pub open spec fn find_webview(s: Seq<(WebViewId, PipelineId)>, wid: WebViewId) -> int
    decreases s.len(),
{
    if s.len() == 0 {
        -1
    } else if s[0].0 == wid {
        0
    } else {
        let r = find_webview(s.drop_first(), wid);
        if r >= 0 {
            r + 1
        } else {
            -1
        }
    }
}

proof fn lemma_find_webview_none(s: Seq<(WebViewId, PipelineId)>, wid: WebViewId)
    requires
        forall|k: int| 0 <= k < s.len() ==> (#[trigger] s[k]).0 != wid,
    ensures
        find_webview(s, wid) == -1,
    decreases s.len(),
{
    if s.len() > 0 {
        assert(forall|k: int|
            0 <= k < s.drop_first().len() ==> #[trigger] s.drop_first()[k] == s[k + 1]);
        lemma_find_webview_none(s.drop_first(), wid);
    }
}

proof fn lemma_find_webview_at(s: Seq<(WebViewId, PipelineId)>, wid: WebViewId, i: int)
    requires
        0 <= i < s.len(),
        forall|k: int| 0 <= k < i ==> (#[trigger] s[k]).0 != wid,
        s[i].0 == wid,
    ensures
        find_webview(s, wid) == i,
    decreases i,
{
    if i > 0 {
        assert(forall|k: int|
            0 <= k < s.drop_first().len() ==> #[trigger] s.drop_first()[k] == s[k + 1]);
        lemma_find_webview_at(s.drop_first(), wid, i - 1);
    }
}

/// The compositing coordinator: pipeline registry, composition request, and
/// the timed components it drives.
#[derive(Debug)]
pub struct IOCompositor {
    /// Each webview and its current pipeline.
    pub webviews: Vec<(WebViewId, PipelineId)>,
    /// Details about each active pipeline, one entry per pipeline.
    pub pipeline_details: Vec<(PipelineId, PipelineDetails)>,
    /// Whether a composite is pending this frame.
    pub composition_request: CompositionRequest,
    /// Shutdown progress.
    pub shutdown_state: ShutdownState,
    /// Pending raw scroll input.
    pub scroll_coalescer: ScrollCoalescer,
    /// Frame timing.
    pub frame_pacer: FramePacing,
    /// Accumulated pinch-zoom factor since the last composite, in permille
    /// (1000 = no zoom).
    pub pending_zoom_permille: u64,
    /// Clock reading when the last animation tick was forwarded.
    pub last_animation_tick_ns: u64,
    /// Mutating messages dropped because shutdown had finished.
    pub dropped_after_shutdown: u64,
}

impl IOCompositor {
    /// The registry's bookkeeping is consistent: one entry per webview, one
    /// entry per pipeline, and the timed components are internally
    /// consistent.
    pub open spec fn wf(self) -> bool {
        &&& forall|i: int, j: int|
            0 <= i < j < self.webviews@.len() ==> (#[trigger] self.webviews@[i]).0 != (
            #[trigger] self.webviews@[j]).0
        &&& forall|i: int, j: int|
            0 <= i < j < self.pipeline_details@.len() ==> (
            #[trigger] self.pipeline_details@[i]).0 != (#[trigger] self.pipeline_details@[j]).0
        &&& self.scroll_coalescer.wf()
        &&& self.frame_pacer.wf()
    }

    /// After shutdown has finished, every mutating message is dropped.
    pub open spec fn rejects_mutations(self) -> bool {
        self.shutdown_state == ShutdownState::FinishedShuttingDown
    }

    /// Create a new orchestrator at clock reading `now_ns`: no pipelines, no
    /// pending composite, not shutting down.
    pub fn new(now_ns: u64) -> (r: IOCompositor)
        ensures
            r.wf(),
            r.webviews@.len() == 0,
            r.pipeline_details@.len() == 0,
            r.composition_request == CompositionRequest::NoCompositingNecessary,
            r.shutdown_state == ShutdownState::NotShuttingDown,
            r.scroll_coalescer.pending@.len() == 0,
            r.pending_zoom_permille == 1000,
            r.last_animation_tick_ns == 0,
            r.dropped_after_shutdown == 0,
    {
        IOCompositor {
            webviews: Vec::new(),
            pipeline_details: Vec::new(),
            composition_request: CompositionRequest::NoCompositingNecessary,
            shutdown_state: ShutdownState::NotShuttingDown,
            scroll_coalescer: ScrollCoalescer::new(),
            frame_pacer: FramePacing::new(now_ns),
            pending_zoom_permille: 1000,
            last_animation_tick_ns: 0,
            dropped_after_shutdown: 0,
        }
    }

    /// Create a webview-to-pipeline mapping. Registering an already-present
    /// webview fails silently: the call is idempotent and the existing
    /// mapping is kept.
    pub fn register_webview(&mut self, id: WebViewId, initial_pipeline: PipelineId)
        requires
            old(self).wf(),
        ensures
            old(self).rejects_mutations() ==> *final(self) == (IOCompositor {
                dropped_after_shutdown: (spec_saturating_inc(old(self).dropped_after_shutdown)
                    as u64),
                ..*old(self)
            }),
            !old(self).rejects_mutations() && find_webview(old(self).webviews@, id) >= 0
                ==> *final(self) == *old(self),
            !old(self).rejects_mutations() && find_webview(old(self).webviews@, id) == -1
                ==> *final(self) == (IOCompositor {
                webviews: final(self).webviews,
                ..*old(self)
            }) && final(self).webviews@ == old(self).webviews@.push((id, initial_pipeline)),
            final(self).wf(),
    {
        if self.is_shutdown_finished() {
            self.dropped_after_shutdown = saturating_inc(self.dropped_after_shutdown);
            return;
        }
        let ghost entries = self.webviews@;
        let n = self.webviews.len();
        let mut i: usize = 0;
        while i < n
            invariant
                0 <= i <= n,
                n == entries.len(),
                self.webviews@ == entries,
                forall|k: int| 0 <= k < i ==> (#[trigger] entries[k]).0 != id,
            ensures
                0 <= i <= n,
                self.webviews@ == entries,
                forall|k: int| 0 <= k < i ==> (#[trigger] entries[k]).0 != id,
                i < n ==> entries[i as int].0 == id,
            decreases n - i,
        {
            if self.webviews[i].0 == id {
                break;
            }
            i = i + 1;
        }
        if i < n {
            proof {
                lemma_find_webview_at(entries, id, i as int);
            }
            return;
        }
        proof {
            lemma_find_webview_none(entries, id);
        }
        self.webviews.push((id, initial_pipeline));
    }

    /// Whether shutdown has finished.
    pub fn is_shutdown_finished(&self) -> (r: bool)
        ensures
            r == self.rejects_mutations(),
    {
        match self.shutdown_state {
            ShutdownState::FinishedShuttingDown => true,
            _ => false,
        }
    }

    /// Set the composition request to a pending composite for the given
    /// reason. Multiple triggers collapse to one pending request; the most
    /// recent reason is retained. Never blocks.
    pub fn request_composite(&mut self, reason: CompositingReason)
        ensures
            old(self).rejects_mutations() ==> *final(self) == (IOCompositor {
                dropped_after_shutdown: (spec_saturating_inc(old(self).dropped_after_shutdown)
                    as u64),
                ..*old(self)
            }),
            !old(self).rejects_mutations() ==> *final(self) == (IOCompositor {
                composition_request: CompositionRequest::CompositeNow(reason),
                ..*old(self)
            }),
            old(self).wf() ==> final(self).wf(),
    {
        if self.is_shutdown_finished() {
            self.dropped_after_shutdown = saturating_inc(self.dropped_after_shutdown);
            return;
        }
        self.composition_request = CompositionRequest::CompositeNow(reason);
    }

    /// Begin shutdown: the state advances monotonically to at least
    /// `ShuttingDown` and any in-flight composite request is abandoned, never
    /// force-completed.
    pub fn begin_shutdown(&mut self)
        ensures
            *final(self) == (IOCompositor {
                shutdown_state: final(self).shutdown_state,
                composition_request: final(self).composition_request,
                ..*old(self)
            }),
            final(self).shutdown_state == if old(self).shutdown_state
                == ShutdownState::NotShuttingDown {
                ShutdownState::ShuttingDown
            } else {
                old(self).shutdown_state
            },
            shutdown_rank(old(self).shutdown_state) <= shutdown_rank(final(self).shutdown_state),
            final(self).composition_request == CompositionRequest::NoCompositingNecessary,
            old(self).wf() ==> final(self).wf(),
    {
        match self.shutdown_state {
            ShutdownState::NotShuttingDown => {
                self.shutdown_state = ShutdownState::ShuttingDown;
            },
            _ => {},
        }
        self.composition_request = CompositionRequest::NoCompositingNecessary;
    }

    /// Finish shutdown: the state advances monotonically to
    /// `FinishedShuttingDown`, after which no mutating message is accepted.
    pub fn finish_shutdown(&mut self)
        ensures
            *final(self) == (IOCompositor {
                shutdown_state: ShutdownState::FinishedShuttingDown,
                ..*old(self)
            }),
            shutdown_rank(old(self).shutdown_state) <= shutdown_rank(final(self).shutdown_state),
            old(self).wf() ==> final(self).wf(),
    {
        self.shutdown_state = ShutdownState::FinishedShuttingDown;
    }

    /// Whether an animation tick may be forwarded to the content process at
    /// clock reading `now_ns`: at most one tick per target frame interval, to
    /// avoid flooding a process that is itself rate-limited by presentation.
    pub fn should_send_animation_tick(&self, now_ns: u64) -> (r: bool)
        ensures
            r == (spec_elapsed(self.last_animation_tick_ns, now_ns)
                >= self.frame_pacer.target_frame_duration_ns),
    {
        saturating_elapsed(self.last_animation_tick_ns, now_ns)
            >= self.frame_pacer.target_frame_duration_ns
    }

    /// Record that an animation tick was forwarded at clock reading `now_ns`.
    pub fn note_animation_tick_sent(&mut self, now_ns: u64)
        ensures
            *final(self) == (IOCompositor { last_animation_tick_ns: now_ns, ..*old(self) }),
            old(self).wf() ==> final(self).wf(),
    {
        self.last_animation_tick_ns = now_ns;
    }
}

/// A paint metric's transition when a display list is processed: a waiting
/// metric is now seen at this epoch; a seen or sent metric is untouched.
pub open spec fn metric_on_display_list(m: PaintMetricState, epoch: Epoch, first_reflow: bool)
    -> PaintMetricState {
    match m {
        PaintMetricState::Waiting => PaintMetricState::Seen(epoch, first_reflow),
        _ => m,
    }
}

/// Details with any parent reference to the retired pipeline cleared.
pub open spec fn spec_clear_parent(d: PipelineDetails, pid: PipelineId) -> PipelineDetails {
    if d.parent_pipeline_id == Some(pid) {
        PipelineDetails { parent_pipeline_id: None, ..d }
    } else {
        d
    }
}

/// Index of the scroll tree node with the given external id, or -1.
pub open spec fn find_scroll_node(s: Seq<ScrollTreeNode>, external_id: u64) -> int
    decreases s.len(),
{
    if s.len() == 0 {
        -1
    } else if s[0].external_id == external_id {
        0
    } else {
        let r = find_scroll_node(s.drop_first(), external_id);
        if r >= 0 {
            r + 1
        } else {
            -1
        }
    }
}

proof fn lemma_find_scroll_node_none(s: Seq<ScrollTreeNode>, external_id: u64)
    requires
        forall|k: int| 0 <= k < s.len() ==> (#[trigger] s[k]).external_id != external_id,
    ensures
        find_scroll_node(s, external_id) == -1,
    decreases s.len(),
{
    if s.len() > 0 {
        assert(forall|k: int|
            0 <= k < s.drop_first().len() ==> #[trigger] s.drop_first()[k] == s[k + 1]);
        lemma_find_scroll_node_none(s.drop_first(), external_id);
    }
}

proof fn lemma_find_scroll_node_at(s: Seq<ScrollTreeNode>, external_id: u64, i: int)
    requires
        0 <= i < s.len(),
        forall|k: int| 0 <= k < i ==> (#[trigger] s[k]).external_id != external_id,
        s[i].external_id == external_id,
    ensures
        find_scroll_node(s, external_id) == i,
    decreases i,
{
    if i > 0 {
        assert(forall|k: int|
            0 <= k < s.drop_first().len() ==> #[trigger] s.drop_first()[k] == s[k + 1]);
        lemma_find_scroll_node_at(s.drop_first(), external_id, i - 1);
    }
}

/// Signed saturating addition for scroll offsets.
pub open spec fn spec_sat_add_i64(a: i64, b: i64) -> int {
    if a + b > i64::MAX {
        i64::MAX as int
    } else if a + b < i64::MIN {
        i64::MIN as int
    } else {
        a + b
    }
}

/// Add two scroll offsets, sticking at the representable bounds.
fn sat_add_i64(a: i64, b: i64) -> (r: i64)
    ensures
        r == spec_sat_add_i64(a, b),
{
    if b >= 0 {
        if a <= i64::MAX - b {
            a + b
        } else {
            i64::MAX
        }
    } else {
        if a >= i64::MIN - b {
            a + b
        } else {
            i64::MIN
        }
    }
}

/// The topmost (last in paint order) hit-test item containing the point, or
/// -1 when none does.
pub open spec fn find_topmost_hit(items: Seq<HitTestItem>, p: DeviceIntPoint) -> int
    decreases items.len(),
{
    if items.len() == 0 {
        -1
    } else if rect_contains(items.last().bounds, p) {
        items.len() - 1
    } else {
        find_topmost_hit(items.drop_last(), p)
    }
}

impl IOCompositor {
    /// Find the registry index of a pipeline.
    fn find_details_index(&self, pipeline_id: PipelineId) -> (r: Option<usize>)
        ensures
            match r {
                Some(i) => find_details(self.pipeline_details@, pipeline_id) == i
                    && i < self.pipeline_details@.len() && self.pipeline_details@[i as int].0
                    == pipeline_id,
                None => find_details(self.pipeline_details@, pipeline_id) == -1,
            },
    {
        let n = self.pipeline_details.len();
        let mut i: usize = 0;
        while i < n
            invariant
                0 <= i <= n,
                n == self.pipeline_details@.len(),
                forall|k: int| 0 <= k < i ==> (#[trigger] self.pipeline_details@[k]).0 != pipeline_id,
            decreases n - i,
        {
            if self.pipeline_details[i].0 == pipeline_id {
                proof {
                    lemma_find_details_at(self.pipeline_details@, pipeline_id, i as int);
                }
                return Some(i);
            }
            i = i + 1;
        }
        proof {
            lemma_find_details_none(self.pipeline_details@, pipeline_id);
        }
        None
    }

    /// Create or update a pipeline's registry entry; never errors. Unknown
    /// pipelines are created on demand, since content processes may announce
    /// pipelines asynchronously relative to the orchestrator's view. A
    /// re-attach (a reused pipeline id after a new navigation) resets both
    /// paint-metric slots to waiting, so stale terminal states can never
    /// suppress the new document's metrics.
    pub fn attach_pipeline(
        &mut self,
        pipeline_id: PipelineId,
        parent_pipeline_id: Option<PipelineId>,
        pipeline_handle: Option<u64>,
    )
        requires
            old(self).wf(),
        ensures
            old(self).rejects_mutations() ==> *final(self) == (IOCompositor {
                dropped_after_shutdown: (spec_saturating_inc(old(self).dropped_after_shutdown)
                    as u64),
                ..*old(self)
            }),
            !old(self).rejects_mutations() ==> *final(self) == (IOCompositor {
                pipeline_details: final(self).pipeline_details,
                ..*old(self)
            }),
            !old(self).rejects_mutations() && find_details(old(self).pipeline_details@, pipeline_id)
                == -1 ==> {
                let entries = final(self).pipeline_details@;
                let n = old(self).pipeline_details@.len() as int;
                &&& entries.len() == n + 1
                &&& forall|k: int|
                    0 <= k < n ==> #[trigger] entries[k] == old(self).pipeline_details@[k]
                &&& entries[n].0 == pipeline_id
                &&& entries[n].1.pipeline == pipeline_handle
                &&& entries[n].1.parent_pipeline_id == parent_pipeline_id
                &&& entries[n].1.most_recent_display_list_epoch is None
                &&& entries[n].1.first_paint_metric == PaintMetricState::Waiting
                &&& entries[n].1.first_contentful_paint_metric == PaintMetricState::Waiting
                &&& entries[n].1.hit_test_items@.len() == 0
                &&& entries[n].1.scroll_tree@.len() == 0
                &&& entries[n].1.resources.image_keys@.len() == 0
                &&& entries[n].1.resources.font_keys@.len() == 0
                &&& entries[n].1.resources.font_instance_keys@.len() == 0
            },
            !old(self).rejects_mutations() && find_details(old(self).pipeline_details@, pipeline_id)
                >= 0 ==> {
                let j = find_details(old(self).pipeline_details@, pipeline_id);
                let d = old(self).pipeline_details@[j].1;
                final(self).pipeline_details@ == old(self).pipeline_details@.update(
                    j,
                    (
                        pipeline_id,
                        PipelineDetails {
                            pipeline: pipeline_handle,
                            parent_pipeline_id,
                            first_paint_metric: PaintMetricState::Waiting,
                            first_contentful_paint_metric: PaintMetricState::Waiting,
                            ..d
                        },
                    ),
                )
            },
            final(self).wf(),
    {
        if self.is_shutdown_finished() {
            self.dropped_after_shutdown = saturating_inc(self.dropped_after_shutdown);
            return;
        }
        match self.find_details_index(pipeline_id) {
            Some(j) => {
                let mut entry: (PipelineId, PipelineDetails) = (
                    PipelineId { namespace_id: 0, index: 0 },
                    PipelineDetails::new(),
                );
                self.pipeline_details.set_and_swap(j, &mut entry);
                entry.1.pipeline = pipeline_handle;
                entry.1.parent_pipeline_id = parent_pipeline_id;
                entry.1.first_paint_metric = PaintMetricState::Waiting;
                entry.1.first_contentful_paint_metric = PaintMetricState::Waiting;
                self.pipeline_details.set_and_swap(j, &mut entry);
                proof {
                    assert(self.pipeline_details@ =~= old(self).pipeline_details@.update(
                        j as int,
                        self.pipeline_details@[j as int],
                    ));
                    assert(forall|k: int|
                        0 <= k < self.pipeline_details@.len() ==> (
                        #[trigger] self.pipeline_details@[k]).0 == old(
                            self,
                        ).pipeline_details@[k].0);
                }
            },
            None => {
                let mut details = PipelineDetails::new();
                details.pipeline = pipeline_handle;
                details.parent_pipeline_id = parent_pipeline_id;
                proof {
                    lemma_find_details_props(self.pipeline_details@, pipeline_id);
                }
                self.pipeline_details.push((pipeline_id, details));
                proof {
                    assert(forall|k: int|
                        0 <= k < old(self).pipeline_details@.len()
                            ==> #[trigger] self.pipeline_details@[k] == old(
                            self,
                        ).pipeline_details@[k]);
                }
            },
        }
    }

    /// Remove a pipeline's registry entry, draining its resource ledger into
    /// one cleanup descriptor for the caller to submit as a single deletion
    /// transaction, and clearing any parent references to it. Retiring an
    /// unknown pipeline is ignored. After this call no message referencing
    /// the pipeline causes a mutation until a fresh attach re-creates it.
    pub fn retire_pipeline(&mut self, pipeline_id: PipelineId) -> (r: Option<ResourceCleanup>)
        requires
            old(self).wf(),
        ensures
            old(self).rejects_mutations() ==> *final(self) == (IOCompositor {
                dropped_after_shutdown: (spec_saturating_inc(old(self).dropped_after_shutdown)
                    as u64),
                ..*old(self)
            }) && r is None,
            !old(self).rejects_mutations() && find_details(old(self).pipeline_details@, pipeline_id)
                == -1 ==> *final(self) == *old(self) && r is None,
            !old(self).rejects_mutations() && find_details(old(self).pipeline_details@, pipeline_id)
                >= 0 ==> {
                let j = find_details(old(self).pipeline_details@, pipeline_id);
                let without = old(self).pipeline_details@.remove(j);
                let drained = old(self).pipeline_details@[j].1.resources;
                &&& *final(self) == (IOCompositor {
                    pipeline_details: final(self).pipeline_details,
                    ..*old(self)
                })
                &&& final(self).pipeline_details@.len() == without.len()
                &&& forall|k: int|
                    0 <= k < without.len() ==> (#[trigger] final(self).pipeline_details@[k]).0
                        == without[k].0 && final(self).pipeline_details@[k].1 == spec_clear_parent(
                        without[k].1,
                        pipeline_id,
                    )
                &&& find_details(final(self).pipeline_details@, pipeline_id) == -1
                &&& forall|k: int|
                    0 <= k < final(self).pipeline_details@.len() ==> (
                    #[trigger] final(self).pipeline_details@[k]).1.parent_pipeline_id != Some(
                        pipeline_id,
                    )
                &&& (r matches Some(c) && c.image_keys == drained.image_keys && c.font_keys
                    == drained.font_keys && c.font_instance_keys == drained.font_instance_keys)
            },
            final(self).wf(),
    {
        if self.is_shutdown_finished() {
            self.dropped_after_shutdown = saturating_inc(self.dropped_after_shutdown);
            return None;
        }
        let j = match self.find_details_index(pipeline_id) {
            Some(j) => j,
            None => {
                return None;
            },
        };
        let entry = self.pipeline_details.remove(j);
        let details = entry.1;
        let cleanup = ResourceCleanup {
            image_keys: details.resources.image_keys,
            font_keys: details.resources.font_keys,
            font_instance_keys: details.resources.font_instance_keys,
        };

        // Clear any parent references to the retired pipeline.
        let mut entries: Vec<(PipelineId, PipelineDetails)> = Vec::new();
        core::mem::swap(&mut entries, &mut self.pipeline_details);
        let ghost without = entries@;
        let m = entries.len();
        let mut k: usize = 0;
        while k < m
            invariant
                0 <= k <= m,
                m == entries@.len(),
                m == without.len(),
                forall|t: int| k <= t < m ==> #[trigger] entries@[t] == without[t],
                forall|t: int|
                    0 <= t < k ==> (#[trigger] entries@[t]).0 == without[t].0
                        && entries@[t].1 == spec_clear_parent(without[t].1, pipeline_id),
            decreases m - k,
        {
            let is_child = match &entries[k].1.parent_pipeline_id {
                Some(parent) => *parent == pipeline_id,
                None => false,
            };
            if is_child {
                let mut e: (PipelineId, PipelineDetails) = (
                    PipelineId { namespace_id: 0, index: 0 },
                    PipelineDetails::new(),
                );
                entries.set_and_swap(k, &mut e);
                e.1.parent_pipeline_id = None;
                entries.set_and_swap(k, &mut e);
            }
            k = k + 1;
        }
        self.pipeline_details = entries;

        proof {
            let oldd = old(self).pipeline_details@;
            let newd = self.pipeline_details@;
            lemma_find_details_props(oldd, pipeline_id);
            // Keys after removal are the old keys with index `j` skipped, so
            // they stay distinct and none is the retired pipeline.
            assert(forall|t: int|
                0 <= t < without.len() ==> (#[trigger] without[t]).0 == if t < j as int {
                    oldd[t].0
                } else {
                    oldd[t + 1].0
                });
            assert(forall|t: int| 0 <= t < newd.len() ==> (#[trigger] newd[t]).0 == without[t].0);
            assert(forall|t: int| 0 <= t < newd.len() ==> (#[trigger] newd[t]).0 != pipeline_id);
            lemma_find_details_none(newd, pipeline_id);
        }
        Some(cleanup)
    }

    /// Record a display list received for a pipeline at the given epoch: the
    /// most-recent epoch advances, the hit-test item list is discarded and
    /// rebuilt (item indices are only valid for the display list they came
    /// from), and a waiting paint metric moves to seen at this epoch. A
    /// display list for an unknown pipeline is ignored.
    pub fn note_display_list_received(
        &mut self,
        pipeline_id: PipelineId,
        epoch: Epoch,
        is_first_reflow: bool,
        hit_test_items: Vec<HitTestItem>,
    )
        requires
            old(self).wf(),
        ensures
            old(self).rejects_mutations() ==> *final(self) == (IOCompositor {
                dropped_after_shutdown: (spec_saturating_inc(old(self).dropped_after_shutdown)
                    as u64),
                ..*old(self)
            }),
            !old(self).rejects_mutations() && find_details(old(self).pipeline_details@, pipeline_id)
                == -1 ==> *final(self) == *old(self),
            !old(self).rejects_mutations() && find_details(old(self).pipeline_details@, pipeline_id)
                >= 0 ==> {
                let j = find_details(old(self).pipeline_details@, pipeline_id);
                let d = old(self).pipeline_details@[j].1;
                &&& *final(self) == (IOCompositor {
                    pipeline_details: final(self).pipeline_details,
                    ..*old(self)
                })
                &&& final(self).pipeline_details@ == old(self).pipeline_details@.update(
                    j,
                    (
                        pipeline_id,
                        PipelineDetails {
                            most_recent_display_list_epoch: Some(epoch),
                            hit_test_items,
                            first_paint_metric: metric_on_display_list(
                                d.first_paint_metric,
                                epoch,
                                is_first_reflow,
                            ),
                            first_contentful_paint_metric: metric_on_display_list(
                                d.first_contentful_paint_metric,
                                epoch,
                                is_first_reflow,
                            ),
                            ..d
                        },
                    ),
                )
                &&& metric_progress(
                    d.first_paint_metric,
                    final(self).pipeline_details@[j].1.first_paint_metric,
                )
                &&& metric_progress(
                    d.first_contentful_paint_metric,
                    final(self).pipeline_details@[j].1.first_contentful_paint_metric,
                )
            },
            final(self).wf(),
    {
        if self.is_shutdown_finished() {
            self.dropped_after_shutdown = saturating_inc(self.dropped_after_shutdown);
            return;
        }
        let j = match self.find_details_index(pipeline_id) {
            Some(j) => j,
            None => {
                return;
            },
        };
        let mut entry: (PipelineId, PipelineDetails) = (
            PipelineId { namespace_id: 0, index: 0 },
            PipelineDetails::new(),
        );
        self.pipeline_details.set_and_swap(j, &mut entry);
        entry.1.most_recent_display_list_epoch = Some(epoch);
        entry.1.hit_test_items = hit_test_items;
        match entry.1.first_paint_metric {
            PaintMetricState::Waiting => {
                entry.1.first_paint_metric = PaintMetricState::Seen(epoch, is_first_reflow);
            },
            _ => {},
        }
        match entry.1.first_contentful_paint_metric {
            PaintMetricState::Waiting => {
                entry.1.first_contentful_paint_metric = PaintMetricState::Seen(
                    epoch,
                    is_first_reflow,
                );
            },
            _ => {},
        }
        self.pipeline_details.set_and_swap(j, &mut entry);
        proof {
            assert(self.pipeline_details@ =~= old(self).pipeline_details@.update(
                j as int,
                self.pipeline_details@[j as int],
            ));
        }
    }

    /// Record a resource allocated on behalf of a pipeline in that pipeline's
    /// cleanup ledger. An unknown pipeline is created on demand, as for
    /// attach: the resource will need cleanup whether or not the pipeline was
    /// announced yet.
    pub fn handle_resource_message(&mut self, msg: &ExtendedCompositorMsg)
        requires
            old(self).wf(),
        ensures
            old(self).rejects_mutations() ==> *final(self) == (IOCompositor {
                dropped_after_shutdown: (spec_saturating_inc(old(self).dropped_after_shutdown)
                    as u64),
                ..*old(self)
            }),
            !old(self).rejects_mutations() ==> {
                let pid = msg.spec_pipeline_id();
                let entries = final(self).pipeline_details@;
                let j0 = find_details(old(self).pipeline_details@, pid);
                let j = find_details(entries, pid);
                let e = entries[j].1;
                &&& *final(self) == (IOCompositor {
                    pipeline_details: final(self).pipeline_details,
                    ..*old(self)
                })
                &&& j >= 0
                &&& entries[j].0 == pid
                // A known pipeline's entry is updated in place: only the named
                // ledger grows, by exactly this key, and the rest of the entry
                // is untouched.
                &&& (j0 >= 0 ==> {
                    let before = old(self).pipeline_details@[j0].1;
                    &&& j == j0
                    &&& entries == old(self).pipeline_details@.update(j0, (pid, e))
                    &&& e == (PipelineDetails { resources: e.resources, ..before })
                    &&& ((*msg) matches ExtendedCompositorMsg::AddImage { key, .. } ==> {
                        &&& e.resources.image_keys@ == before.resources.image_keys@.push(key)
                        &&& e.resources.font_keys == before.resources.font_keys
                        &&& e.resources.font_instance_keys
                            == before.resources.font_instance_keys
                    })
                    &&& ((*msg) matches ExtendedCompositorMsg::AddFont { font_key, .. } ==> {
                        &&& e.resources.font_keys@ == before.resources.font_keys@.push(font_key)
                        &&& e.resources.image_keys == before.resources.image_keys
                        &&& e.resources.font_instance_keys
                            == before.resources.font_instance_keys
                    })
                    &&& ((*msg) matches ExtendedCompositorMsg::AddFontInstance {
                        instance_key,
                        ..
                    } ==> {
                        &&& e.resources.font_instance_keys@
                            == before.resources.font_instance_keys@.push(instance_key)
                        &&& e.resources.image_keys == before.resources.image_keys
                        &&& e.resources.font_keys == before.resources.font_keys
                    })
                })
                // An unknown pipeline is created on demand at the end, holding
                // nothing but this key: the resource will need cleanup whether
                // or not the pipeline was announced yet.
                &&& (j0 == -1 ==> {
                    &&& j == old(self).pipeline_details@.len()
                    &&& entries == old(self).pipeline_details@.push((pid, e))
                    &&& e.pipeline is None
                    &&& e.parent_pipeline_id is None
                    &&& e.most_recent_display_list_epoch is None
                    &&& e.first_paint_metric == PaintMetricState::Waiting
                    &&& e.first_contentful_paint_metric == PaintMetricState::Waiting
                    &&& e.hit_test_items@.len() == 0
                    &&& e.scroll_tree@.len() == 0
                    &&& ((*msg) matches ExtendedCompositorMsg::AddImage { key, .. } ==> {
                        &&& e.resources.image_keys@ == seq![key]
                        &&& e.resources.font_keys@.len() == 0
                        &&& e.resources.font_instance_keys@.len() == 0
                    })
                    &&& ((*msg) matches ExtendedCompositorMsg::AddFont { font_key, .. } ==> {
                        &&& e.resources.font_keys@ == seq![font_key]
                        &&& e.resources.image_keys@.len() == 0
                        &&& e.resources.font_instance_keys@.len() == 0
                    })
                    &&& ((*msg) matches ExtendedCompositorMsg::AddFontInstance {
                        instance_key,
                        ..
                    } ==> {
                        &&& e.resources.font_instance_keys@ == seq![instance_key]
                        &&& e.resources.image_keys@.len() == 0
                        &&& e.resources.font_keys@.len() == 0
                    })
                })
            },
            final(self).wf(),
    {
        if self.is_shutdown_finished() {
            self.dropped_after_shutdown = saturating_inc(self.dropped_after_shutdown);
            return;
        }
        let pid = msg.pipeline_id();
        let j = match self.find_details_index(pid) {
            Some(j) => j,
            None => {
                proof {
                    lemma_find_details_props(self.pipeline_details@, pid);
                }
                self.pipeline_details.push((pid, PipelineDetails::new()));
                proof {
                    assert(forall|k: int|
                        0 <= k < old(self).pipeline_details@.len()
                            ==> #[trigger] self.pipeline_details@[k] == old(
                            self,
                        ).pipeline_details@[k]);
                    lemma_find_details_at(
                        self.pipeline_details@,
                        pid,
                        self.pipeline_details@.len() - 1,
                    );
                }
                self.pipeline_details.len() - 1
            },
        };
        let ghost mid = self.pipeline_details@;
        proof {
            lemma_find_details_props(mid, pid);
        }
        let mut entry: (PipelineId, PipelineDetails) = (
            PipelineId { namespace_id: 0, index: 0 },
            PipelineDetails::new(),
        );
        self.pipeline_details.set_and_swap(j, &mut entry);
        match msg {
            ExtendedCompositorMsg::AddImage { key, .. } => {
                entry.1.resources.track_image(*key);
            },
            ExtendedCompositorMsg::AddFont { font_key, .. } => {
                entry.1.resources.track_font(*font_key);
            },
            ExtendedCompositorMsg::AddFontInstance { instance_key, .. } => {
                entry.1.resources.track_font_instance(*instance_key);
            },
        }
        self.pipeline_details.set_and_swap(j, &mut entry);
        proof {
            assert(self.pipeline_details@ =~= mid.update(
                j as int,
                self.pipeline_details@[j as int],
            ));
            assert(forall|k: int|
                0 <= k < self.pipeline_details@.len() ==> (
                #[trigger] self.pipeline_details@[k]).0 == mid[k].0);
            lemma_find_details_at(self.pipeline_details@, pid, j as int);
            if find_details(old(self).pipeline_details@, pid) == -1 {
                // The on-demand entry went in at the end, and the update
                // landed on it: together one push of the final entry.
                assert(self.pipeline_details@ =~= old(self).pipeline_details@.push(
                    self.pipeline_details@[j as int],
                ));
            } else {
                assert(self.pipeline_details@ =~= old(self).pipeline_details@.update(
                    j as int,
                    self.pipeline_details@[j as int],
                ));
            }
        }
    }

    /// Resolve the topmost hit-test item of a pipeline at a device-pixel
    /// point, from the cached list of its most recent display list, without
    /// waiting on the renderer. Unknown pipelines and missed points resolve
    /// to nothing.
    pub fn hit_test(&self, pipeline_id: PipelineId, point: DeviceIntPoint) -> (r: Option<
        HitTestItem,
    >)
        ensures
            find_details(self.pipeline_details@, pipeline_id) == -1 ==> r is None,
            find_details(self.pipeline_details@, pipeline_id) >= 0 ==> {
                let items = self.pipeline_details@[find_details(
                    self.pipeline_details@,
                    pipeline_id,
                )].1.hit_test_items@;
                match r {
                    Some(item) => find_topmost_hit(items, point) >= 0 && item == items[
                        find_topmost_hit(items, point)
                    ] && rect_contains(item.bounds, point),
                    None => find_topmost_hit(items, point) == -1,
                }
            },
    {
        let j = match self.find_details_index(pipeline_id) {
            Some(j) => j,
            None => {
                return None;
            },
        };
        let items = &self.pipeline_details[j].1.hit_test_items;
        let n = items.len();
        proof {
            assert(items@.subrange(0, n as int) =~= items@);
        }
        let mut i: usize = n;
        while i > 0
            invariant
                0 <= i <= n,
                n == items@.len(),
                0 <= (j as int) < self.pipeline_details@.len(),
                find_details(self.pipeline_details@, pipeline_id) == j as int,
                items@ == self.pipeline_details@[j as int].1.hit_test_items@,
                find_topmost_hit(items@, point) == find_topmost_hit(
                    items@.subrange(0, i as int),
                    point,
                ),
            decreases i,
        {
            proof {
                assert(items@.subrange(0, i as int).drop_last() =~= items@.subrange(
                    0,
                    i as int - 1,
                ));
                assert(items@.subrange(0, i as int).last() == items@[i as int - 1]);
            }
            let item = items[i - 1];
            if point.x >= item.bounds.x && point.y >= item.bounds.y && (point.x as i64)
                < (item.bounds.x as i64) + (item.bounds.width as i64) && (point.y as i64)
                < (item.bounds.y as i64) + (item.bounds.height as i64) {
                proof {
                    assert(rect_contains(items@[i as int - 1].bounds, point));
                }
                return Some(item);
            }
            i = i - 1;
        }
        proof {
            assert(items@.subrange(0, 0) =~= Seq::<HitTestItem>::empty());
        }
        None
    }

    /// Replace a pipeline's scroll tree mirror with the structure the
    /// renderer derived from layout; the renderer is the source of truth for
    /// the structure. Unknown pipelines are ignored.
    pub fn set_scroll_tree(&mut self, pipeline_id: PipelineId, nodes: Vec<ScrollTreeNode>)
        requires
            old(self).wf(),
        ensures
            old(self).rejects_mutations() ==> *final(self) == (IOCompositor {
                dropped_after_shutdown: (spec_saturating_inc(old(self).dropped_after_shutdown)
                    as u64),
                ..*old(self)
            }),
            !old(self).rejects_mutations() && find_details(old(self).pipeline_details@, pipeline_id)
                == -1 ==> *final(self) == *old(self),
            !old(self).rejects_mutations() && find_details(old(self).pipeline_details@, pipeline_id)
                >= 0 ==> {
                let j = find_details(old(self).pipeline_details@, pipeline_id);
                let d = old(self).pipeline_details@[j].1;
                &&& *final(self) == (IOCompositor {
                    pipeline_details: final(self).pipeline_details,
                    ..*old(self)
                })
                &&& final(self).pipeline_details@ == old(self).pipeline_details@.update(
                    j,
                    (pipeline_id, PipelineDetails { scroll_tree: nodes, ..d }),
                )
            },
            final(self).wf(),
    {
        if self.is_shutdown_finished() {
            self.dropped_after_shutdown = saturating_inc(self.dropped_after_shutdown);
            return;
        }
        let j = match self.find_details_index(pipeline_id) {
            Some(j) => j,
            None => {
                return;
            },
        };
        let mut entry: (PipelineId, PipelineDetails) = (
            PipelineId { namespace_id: 0, index: 0 },
            PipelineDetails::new(),
        );
        self.pipeline_details.set_and_swap(j, &mut entry);
        entry.1.scroll_tree = nodes;
        self.pipeline_details.set_and_swap(j, &mut entry);
        proof {
            assert(self.pipeline_details@ =~= old(self).pipeline_details@.update(
                j as int,
                self.pipeline_details@[j as int],
            ));
        }
    }

    /// Apply a coalesced scroll displacement to one node of a pipeline's
    /// scroll tree mirror, saturating at the representable offset bounds.
    /// Unknown pipelines and unknown nodes are ignored: a message referencing
    /// a retired pipeline must not mutate anything.
    pub fn apply_scroll_to_node(
        &mut self,
        pipeline_id: PipelineId,
        external_id: u64,
        delta_x: i64,
        delta_y: i64,
    )
        requires
            old(self).wf(),
        ensures
            old(self).rejects_mutations() ==> *final(self) == (IOCompositor {
                dropped_after_shutdown: (spec_saturating_inc(old(self).dropped_after_shutdown)
                    as u64),
                ..*old(self)
            }),
            !old(self).rejects_mutations() && find_details(old(self).pipeline_details@, pipeline_id)
                == -1 ==> *final(self) == *old(self),
            !old(self).rejects_mutations() && find_details(old(self).pipeline_details@, pipeline_id)
                >= 0 ==> {
                let j = find_details(old(self).pipeline_details@, pipeline_id);
                let d = old(self).pipeline_details@[j].1;
                let t = find_scroll_node(d.scroll_tree@, external_id);
                &&& (t == -1 ==> *final(self) == *old(self))
                &&& (t >= 0 ==> {
                    let node = d.scroll_tree@[t];
                    &&& *final(self) == (IOCompositor {
                        pipeline_details: final(self).pipeline_details,
                        ..*old(self)
                    })
                    &&& final(self).pipeline_details@ == old(self).pipeline_details@.update(
                        j,
                        (
                            pipeline_id,
                            PipelineDetails {
                                scroll_tree: final(self).pipeline_details@[j].1.scroll_tree,
                                ..d
                            },
                        ),
                    )
                    &&& final(self).pipeline_details@[j].1.scroll_tree@ == d.scroll_tree@.update(
                        t,
                        ScrollTreeNode {
                            external_id,
                            offset_x: (spec_sat_add_i64(node.offset_x, delta_x) as i64),
                            offset_y: (spec_sat_add_i64(node.offset_y, delta_y) as i64),
                        },
                    )
                })
            },
            final(self).wf(),
    {
        if self.is_shutdown_finished() {
            self.dropped_after_shutdown = saturating_inc(self.dropped_after_shutdown);
            return;
        }
        let j = match self.find_details_index(pipeline_id) {
            Some(j) => j,
            None => {
                return;
            },
        };

        // Look the node up without touching anything, so an unknown node is a
        // true no-op.
        let ghost nodes0 = self.pipeline_details@[j as int].1.scroll_tree@;
        let n = self.pipeline_details[j].1.scroll_tree.len();
        let mut t: usize = 0;
        let mut found = false;
        while t < n
            invariant_except_break
                found == false,
            invariant
                0 <= t <= n,
                n == nodes0.len(),
                nodes0 == self.pipeline_details@[j as int].1.scroll_tree@,
                j < self.pipeline_details@.len(),
                forall|k: int| 0 <= k < t ==> (#[trigger] nodes0[k]).external_id != external_id,
            ensures
                0 <= t <= n,
                forall|k: int| 0 <= k < t ==> (#[trigger] nodes0[k]).external_id != external_id,
                found ==> t < n && nodes0[t as int].external_id == external_id,
                !found ==> t == n,
            decreases n - t,
        {
            if self.pipeline_details[j].1.scroll_tree[t].external_id == external_id {
                found = true;
                break;
            }
            t = t + 1;
        }

        if !found {
            proof {
                lemma_find_scroll_node_none(nodes0, external_id);
            }
            return;
        }
        proof {
            lemma_find_scroll_node_at(nodes0, external_id, t as int);
        }
        let mut entry: (PipelineId, PipelineDetails) = (
            PipelineId { namespace_id: 0, index: 0 },
            PipelineDetails::new(),
        );
        self.pipeline_details.set_and_swap(j, &mut entry);
        let node = entry.1.scroll_tree[t];
        let updated = ScrollTreeNode {
            external_id,
            offset_x: sat_add_i64(node.offset_x, delta_x),
            offset_y: sat_add_i64(node.offset_y, delta_y),
        };
        entry.1.scroll_tree.set(t, updated);
        self.pipeline_details.set_and_swap(j, &mut entry);
        proof {
            assert(self.pipeline_details@ =~= old(self).pipeline_details@.update(
                j as int,
                self.pipeline_details@[j as int],
            ));
            assert(forall|k: int|
                0 <= k < self.pipeline_details@.len() ==> (
                #[trigger] self.pipeline_details@[k]).0 == old(self).pipeline_details@[k].0);
        }
    }
}

/// A paint metric's transition when a frame at `presented` has actually been
/// presented: a metric seen at an epoch at or before the presented one is now
/// sent; anything else is untouched. This is the only transition that can
/// reach `Sent`, and it never fires before a frame at or after the seen epoch
/// was presented: reversing that would report paint timing for content that
/// was never shown.
pub open spec fn metric_on_present(m: PaintMetricState, presented: Epoch) -> PaintMetricState {
    match m {
        PaintMetricState::Seen(e, _) => if e.0 <= presented.0 {
            PaintMetricState::Sent
        } else {
            m
        },
        _ => m,
    }
}

/// Whether presenting a frame at this epoch reports the metric: exactly when
/// the metric was seen at an epoch at or before it.
pub open spec fn metric_emits(m: PaintMetricState, presented: Epoch) -> bool {
    m matches PaintMetricState::Seen(e, _) && e.0 <= presented.0
}

/// Pipeline details after a frame at `presented` was shown for it.
pub open spec fn details_on_present(d: PipelineDetails, presented: Epoch) -> PipelineDetails {
    PipelineDetails {
        first_paint_metric: metric_on_present(d.first_paint_metric, presented),
        first_contentful_paint_metric: metric_on_present(
            d.first_contentful_paint_metric,
            presented,
        ),
        ..d
    }
}

/// The registry after one frame-presented notification for one pipeline.
pub open spec fn spec_present_step(
    entries: Seq<(PipelineId, PipelineDetails)>,
    pid: PipelineId,
    presented: Epoch,
) -> Seq<(PipelineId, PipelineDetails)> {
    let j = find_details(entries, pid);
    if j < 0 {
        entries
    } else {
        entries.update(j, (entries[j].0, details_on_present(entries[j].1, presented)))
    }
}

/// The metric events one frame-presented notification emits: one per metric
/// slot that was seen at or before the presented epoch.
pub open spec fn spec_present_events(
    entries: Seq<(PipelineId, PipelineDetails)>,
    pid: PipelineId,
    presented: Epoch,
) -> Seq<PaintMetricEvent> {
    let j = find_details(entries, pid);
    if j < 0 {
        Seq::empty()
    } else {
        let d = entries[j].1;
        (if metric_emits(d.first_paint_metric, presented) {
            seq![PaintMetricEvent { pipeline_id: pid, kind: PaintMetricKind::FirstPaint }]
        } else {
            Seq::empty()
        }) + (if metric_emits(d.first_contentful_paint_metric, presented) {
            seq![
                PaintMetricEvent {
                    pipeline_id: pid,
                    kind: PaintMetricKind::FirstContentfulPaint,
                },
            ]
        } else {
            Seq::empty()
        })
    }
}

/// The registry after a whole batch of frame-presented notifications, in
/// arrival order.
pub open spec fn spec_present_all(
    entries: Seq<(PipelineId, PipelineDetails)>,
    presented: Seq<(PipelineId, Epoch)>,
) -> Seq<(PipelineId, PipelineDetails)>
    decreases presented.len(),
{
    if presented.len() == 0 {
        entries
    } else {
        spec_present_all(
            spec_present_step(entries, presented[0].0, presented[0].1),
            presented.drop_first(),
        )
    }
}

/// The metric events a whole batch of frame-presented notifications emits.
pub open spec fn spec_present_all_events(
    entries: Seq<(PipelineId, PipelineDetails)>,
    presented: Seq<(PipelineId, Epoch)>,
) -> Seq<PaintMetricEvent>
    decreases presented.len(),
{
    if presented.len() == 0 {
        Seq::empty()
    } else {
        spec_present_events(entries, presented[0].0, presented[0].1) + spec_present_all_events(
            spec_present_step(entries, presented[0].0, presented[0].1),
            presented.drop_first(),
        )
    }
}

/// Every metric transition only moves forward: processing a display list
/// never takes a metric backward in `Waiting -> Seen -> Sent`.
pub proof fn lemma_metric_progress_on_display_list(
    m: PaintMetricState,
    epoch: Epoch,
    first_reflow: bool,
)
    ensures
        metric_progress(m, metric_on_display_list(m, epoch, first_reflow)),
{
}

/// Every metric transition only moves forward: a frame presentation never
/// takes a metric backward in `Waiting -> Seen -> Sent`.
pub proof fn lemma_metric_progress_on_present(m: PaintMetricState, presented: Epoch)
    ensures
        metric_progress(m, metric_on_present(m, presented)),
{
}

/// `Sent` is absorbing: no transition leaves it.
pub proof fn lemma_sent_is_absorbing(
    epoch: Epoch,
    first_reflow: bool,
    presented: Epoch,
)
    ensures
        metric_on_display_list(PaintMetricState::Sent, epoch, first_reflow)
            == PaintMetricState::Sent,
        metric_on_present(PaintMetricState::Sent, presented) == PaintMetricState::Sent,
{
}

/// A metric is emitted at most once: the presentation that reports it leaves
/// it `Sent`, and no later presentation reports it again, however many
/// frame-presented notifications arrive afterward.
pub proof fn lemma_metric_emitted_at_most_once(
    m: PaintMetricState,
    presented1: Epoch,
    presented2: Epoch,
)
    requires
        metric_emits(m, presented1),
    ensures
        metric_on_present(m, presented1) == PaintMetricState::Sent,
        !metric_emits(metric_on_present(m, presented1), presented2),
        metric_on_present(metric_on_present(m, presented1), presented2)
            == PaintMetricState::Sent,
{
}

/// A second frame-presented notification for a pipeline never repeats an
/// event that the first one emitted: whatever the first notification
/// reported is `Sent` afterward and stays silent.
pub proof fn lemma_no_double_emission(
    entries: Seq<(PipelineId, PipelineDetails)>,
    pid: PipelineId,
    presented1: Epoch,
    presented2: Epoch,
)
    ensures
        forall|ev: PaintMetricEvent|
            spec_present_events(entries, pid, presented1).contains(ev) ==> !spec_present_events(
                #[trigger] spec_present_step(entries, pid, presented1),
                pid,
                presented2,
            ).contains(ev),
{
    let j = find_details(entries, pid);
    if j >= 0 {
        lemma_find_details_props(entries, pid);
        let stepped = spec_present_step(entries, pid, presented1);
        lemma_find_details_at(stepped, pid, j);
        let e1 = spec_present_events(entries, pid, presented1);
        let e2 = spec_present_events(stepped, pid, presented2);
        let d = entries[j].1;
        let d2 = stepped[j].1;
        assert(d2 == details_on_present(d, presented1));
        assert forall|ev: PaintMetricEvent| e1.contains(ev) implies !e2.contains(ev) by {
            if ev.kind == PaintMetricKind::FirstPaint {
                assert(metric_emits(d.first_paint_metric, presented1));
                assert(d2.first_paint_metric == PaintMetricState::Sent);
                assert(!metric_emits(d2.first_paint_metric, presented2));
                assert(forall|t: int| 0 <= t < e2.len() ==> (#[trigger] e2[t]).kind
                    != PaintMetricKind::FirstPaint);
            } else {
                assert(metric_emits(d.first_contentful_paint_metric, presented1));
                assert(d2.first_contentful_paint_metric == PaintMetricState::Sent);
                assert(!metric_emits(d2.first_contentful_paint_metric, presented2));
                assert(forall|t: int| 0 <= t < e2.len() ==> (#[trigger] e2[t]).kind
                    != PaintMetricKind::FirstContentfulPaint);
            }
        }
    }
}

impl IOCompositor {
    /// Process one frame-presented notification: for this pipeline, every
    /// paint metric seen at or before the presented epoch transitions to sent
    /// and yields exactly one event for the content side. This is the only
    /// path that can reach `Sent`. Unknown pipelines emit nothing.
    pub fn note_frame_presented_for(&mut self, pipeline_id: PipelineId, presented: Epoch) -> (r:
        Vec<PaintMetricEvent>)
        requires
            old(self).wf(),
        ensures
            old(self).rejects_mutations() ==> *final(self) == (IOCompositor {
                dropped_after_shutdown: (spec_saturating_inc(old(self).dropped_after_shutdown)
                    as u64),
                ..*old(self)
            }) && r@.len() == 0,
            !old(self).rejects_mutations() ==> *final(self) == (IOCompositor {
                pipeline_details: final(self).pipeline_details,
                ..*old(self)
            }) && final(self).pipeline_details@ == spec_present_step(
                old(self).pipeline_details@,
                pipeline_id,
                presented,
            ) && r@ == spec_present_events(old(self).pipeline_details@, pipeline_id, presented),
            final(self).wf(),
    {
        if self.is_shutdown_finished() {
            self.dropped_after_shutdown = saturating_inc(self.dropped_after_shutdown);
            return Vec::new();
        }
        let mut events: Vec<PaintMetricEvent> = Vec::new();
        let j = match self.find_details_index(pipeline_id) {
            Some(j) => j,
            None => {
                proof {
                    assert(events@ =~= spec_present_events(
                        old(self).pipeline_details@,
                        pipeline_id,
                        presented,
                    ));
                }
                return events;
            },
        };
        let mut entry: (PipelineId, PipelineDetails) = (
            PipelineId { namespace_id: 0, index: 0 },
            PipelineDetails::new(),
        );
        self.pipeline_details.set_and_swap(j, &mut entry);
        match entry.1.first_paint_metric {
            PaintMetricState::Seen(e, _) => {
                if e.0 <= presented.0 {
                    entry.1.first_paint_metric = PaintMetricState::Sent;
                    events.push(
                        PaintMetricEvent {
                            pipeline_id,
                            kind: PaintMetricKind::FirstPaint,
                        },
                    );
                }
            },
            _ => {},
        }
        match entry.1.first_contentful_paint_metric {
            PaintMetricState::Seen(e, _) => {
                if e.0 <= presented.0 {
                    entry.1.first_contentful_paint_metric = PaintMetricState::Sent;
                    events.push(
                        PaintMetricEvent {
                            pipeline_id,
                            kind: PaintMetricKind::FirstContentfulPaint,
                        },
                    );
                }
            },
            _ => {},
        }
        self.pipeline_details.set_and_swap(j, &mut entry);
        proof {
            assert(self.pipeline_details@ =~= old(self).pipeline_details@.update(
                j as int,
                self.pipeline_details@[j as int],
            ));
            assert(forall|k: int|
                0 <= k < self.pipeline_details@.len() ==> (
                #[trigger] self.pipeline_details@[k]).0 == old(self).pipeline_details@[k].0);
            assert(events@ =~= spec_present_events(
                old(self).pipeline_details@,
                pipeline_id,
                presented,
            ));
        }
        events
    }

    /// Process a batch of frame-presented notifications, one per pipeline
    /// whose frame was actually rendered, in arrival order; the returned
    /// one-shot metric events are for the embedder to forward to the content
    /// side.
    pub fn note_frame_presented(&mut self, presented: &Vec<(PipelineId, Epoch)>) -> (r: Vec<
        PaintMetricEvent,
    >)
        requires
            old(self).wf(),
        ensures
            old(self).rejects_mutations() ==> *final(self) == (IOCompositor {
                dropped_after_shutdown: (spec_saturating_inc(old(self).dropped_after_shutdown)
                    as u64),
                ..*old(self)
            }) && r@.len() == 0,
            !old(self).rejects_mutations() ==> *final(self) == (IOCompositor {
                pipeline_details: final(self).pipeline_details,
                ..*old(self)
            }) && final(self).pipeline_details@ == spec_present_all(
                old(self).pipeline_details@,
                presented@,
            ) && r@ == spec_present_all_events(old(self).pipeline_details@, presented@),
            final(self).wf(),
    {
        if self.is_shutdown_finished() {
            self.dropped_after_shutdown = saturating_inc(self.dropped_after_shutdown);
            return Vec::new();
        }
        let mut events: Vec<PaintMetricEvent> = Vec::new();
        let n = presented.len();
        proof {
            assert(presented@.skip(0) =~= presented@);
            assert(events@ + spec_present_all_events(self.pipeline_details@, presented@)
                =~= spec_present_all_events(self.pipeline_details@, presented@));
        }
        let mut i: usize = 0;
        while i < n
            invariant
                0 <= i <= n,
                n == presented@.len(),
                self.wf(),
                !self.rejects_mutations(),
                *self == (IOCompositor { pipeline_details: self.pipeline_details, ..*old(self) }),
                spec_present_all(self.pipeline_details@, presented@.skip(i as int))
                    == spec_present_all(old(self).pipeline_details@, presented@),
                events@ + spec_present_all_events(self.pipeline_details@, presented@.skip(i as int))
                    == spec_present_all_events(old(self).pipeline_details@, presented@),
            decreases n - i,
        {
            proof {
                assert(presented@.skip(i as int)[0] == presented@[i as int]);
                assert(presented@.skip(i as int).drop_first() =~= presented@.skip(i as int + 1));
            }
            let (pid, ep) = presented[i];
            let ghost before = self.pipeline_details@;
            let ghost events_before = events@;
            let mut step_events = self.note_frame_presented_for(pid, ep);
            events.append(&mut step_events);
            proof {
                assert(events@ =~= events_before + spec_present_events(before, pid, ep));
                assert((events_before + spec_present_events(before, pid, ep))
                    + spec_present_all_events(self.pipeline_details@, presented@.skip(i as int + 1))
                    =~= events_before + (spec_present_events(before, pid, ep)
                    + spec_present_all_events(
                    self.pipeline_details@,
                    presented@.skip(i as int + 1),
                )));
            }
            i = i + 1;
        }
        proof {
            assert(presented@.skip(n as int) =~= Seq::<(PipelineId, Epoch)>::empty());
            assert(events@ + Seq::<PaintMetricEvent>::empty() =~= events@);
        }
        events
    }
}

/// The accumulated zoom after folding in one pinch factor, both in permille:
/// multiplicative, saturating at the representable maximum.
pub open spec fn spec_zoom_combine(acc_permille: u64, factor_permille: u64) -> int {
    let p = acc_permille * factor_permille / 1000;
    if p <= u64::MAX {
        p
    } else {
        u64::MAX as int
    }
}

/// The composition request after the scroll phase of a tick: freshly flushed
/// scroll batches demand a new frame; otherwise whatever was pending stands.
pub open spec fn spec_request_after_scroll(
    req: CompositionRequest,
    has_batches: bool,
) -> CompositionRequest {
    if has_batches {
        CompositionRequest::CompositeNow(CompositingReason::NewWebRenderFrame)
    } else {
        req
    }
}

/// What one tick decided: the scroll batches to forward to the scene, the
/// zoom to apply (neutral unless a composite fires), and whether to hand a
/// composite to the renderer now.
pub struct TickOutcome {
    /// Coalesced scroll batches flushed this tick, for the embedder to
    /// resolve against the scene and forward.
    pub scroll_batches: Vec<CoalescedScrollEvent>,
    /// The accumulated pinch zoom to apply with this composite, in permille;
    /// neutral (1000) when no composite fires.
    pub zoom_permille: u64,
    /// The composite to perform now, if the pacer approved one.
    pub composite: Option<CompositingReason>,
}

impl IOCompositor {
    /// Enqueue one raw scroll event at clock reading `now_ms`. The event
    /// merges into the first pending batch within the proximity threshold and
    /// limits, or starts a new batch; the total pending displacement grows by
    /// exactly this delta.
    pub fn on_scroll_event(
        &mut self,
        delta: crate::scroll_coalescing::ScrollDelta,
        cursor: DeviceIntPoint,
        now_ms: u64,
    )
        requires
            old(self).wf(),
            crate::scroll_coalescing::small_delta(delta),
        ensures
            old(self).rejects_mutations() ==> *final(self) == (IOCompositor {
                dropped_after_shutdown: (spec_saturating_inc(old(self).dropped_after_shutdown)
                    as u64),
                ..*old(self)
            }),
            !old(self).rejects_mutations() ==> {
                &&& *final(self) == (IOCompositor {
                    scroll_coalescer: final(self).scroll_coalescer,
                    ..*old(self)
                })
                &&& final(self).scroll_coalescer.pending@
                    == crate::scroll_coalescing::spec_add_event(
                    old(self).scroll_coalescer.pending@,
                    delta,
                    cursor,
                    now_ms,
                    old(self).scroll_coalescer.config.enabled,
                )
                &&& crate::scroll_coalescing::total_dx(final(self).scroll_coalescer.pending@)
                    == crate::scroll_coalescing::total_dx(old(self).scroll_coalescer.pending@)
                    + delta.x
                &&& crate::scroll_coalescing::total_dy(final(self).scroll_coalescer.pending@)
                    == crate::scroll_coalescing::total_dy(old(self).scroll_coalescer.pending@)
                    + delta.y
            },
            final(self).wf(),
    {
        if self.is_shutdown_finished() {
            self.dropped_after_shutdown = saturating_inc(self.dropped_after_shutdown);
            return;
        }
        self.scroll_coalescer.add_event(delta, cursor, now_ms);
    }

    /// Fold one pinch-zoom factor (in permille) into the zoom pending for the
    /// next composite. Zoom events are never coalesced with scroll events:
    /// they accumulate multiplicatively on their own.
    pub fn on_zoom_event(&mut self, magnification_permille: u64)
        requires
            old(self).wf(),
        ensures
            old(self).rejects_mutations() ==> *final(self) == (IOCompositor {
                dropped_after_shutdown: (spec_saturating_inc(old(self).dropped_after_shutdown)
                    as u64),
                ..*old(self)
            }),
            !old(self).rejects_mutations() ==> *final(self) == (IOCompositor {
                pending_zoom_permille: (spec_zoom_combine(
                    old(self).pending_zoom_permille,
                    magnification_permille,
                ) as u64),
                ..*old(self)
            }),
            final(self).wf(),
    {
        if self.is_shutdown_finished() {
            self.dropped_after_shutdown = saturating_inc(self.dropped_after_shutdown);
            return;
        }
        proof {
            crate::frame_pacing::lemma_u64_mul_fits_u128(
                self.pending_zoom_permille,
                magnification_permille,
            );
        }
        let p = (self.pending_zoom_permille as u128) * (magnification_permille as u128) / 1000;
        self.pending_zoom_permille = if p <= u64::MAX as u128 {
            p as u64
        } else {
            u64::MAX
        };
    }

    /// The per-iteration entry point: flush the scroll batches that are due
    /// at clock reading `now_ms` (their displacement leaves with them,
    /// exactly), raise a composite request when any flushed, and fire the
    /// pending composite when the frame pacer approves the time `now_ns` —
    /// clearing the request and handing out the accumulated zoom. After
    /// shutdown has finished, a tick is a no-op.
    pub fn tick(&mut self, now_ms: u64, now_ns: u64) -> (r: TickOutcome)
        requires
            old(self).wf(),
        ensures
            old(self).rejects_mutations() ==> *final(self) == *old(self)
                && r.scroll_batches@.len() == 0 && r.zoom_permille == 1000 && r.composite is None,
            !old(self).rejects_mutations() ==> {
                let flushed = crate::scroll_coalescing::flushed_batches(
                    old(self).scroll_coalescer.pending@,
                    now_ms,
                );
                let req = spec_request_after_scroll(
                    old(self).composition_request,
                    flushed.len() > 0,
                );
                let fires = req is CompositeNow
                    && old(self).frame_pacer.spec_should_generate_frame(now_ns);
                &&& r.scroll_batches@ == flushed
                &&& final(self).scroll_coalescer.pending@
                    == crate::scroll_coalescing::kept_batches(
                    old(self).scroll_coalescer.pending@,
                    now_ms,
                )
                &&& crate::scroll_coalescing::total_dx(r.scroll_batches@)
                    + crate::scroll_coalescing::total_dx(final(self).scroll_coalescer.pending@)
                    == crate::scroll_coalescing::total_dx(old(self).scroll_coalescer.pending@)
                &&& crate::scroll_coalescing::total_dy(r.scroll_batches@)
                    + crate::scroll_coalescing::total_dy(final(self).scroll_coalescer.pending@)
                    == crate::scroll_coalescing::total_dy(old(self).scroll_coalescer.pending@)
                &&& (fires ==> {
                    &&& (req matches CompositionRequest::CompositeNow(reason) && r.composite
                        == Some(reason))
                    &&& final(self).composition_request
                        == CompositionRequest::NoCompositingNecessary
                    &&& r.zoom_permille == old(self).pending_zoom_permille
                    &&& final(self).pending_zoom_permille == 1000
                })
                &&& (!fires ==> {
                    &&& r.composite is None
                    &&& final(self).composition_request == req
                    &&& r.zoom_permille == 1000
                    &&& final(self).pending_zoom_permille == old(self).pending_zoom_permille
                })
                &&& final(self).scroll_coalescer.config == old(self).scroll_coalescer.config
                &&& final(self).scroll_coalescer.stats.total_events == old(
                    self,
                ).scroll_coalescer.stats.total_events
                &&& final(self).scroll_coalescer.stats.events_saved == old(
                    self,
                ).scroll_coalescer.stats.events_saved
                &&& final(self).scroll_coalescer.stats.coalesced_events
                    == crate::clock::spec_saturating_add(
                    old(self).scroll_coalescer.stats.coalesced_events,
                    (flushed.len() as u64),
                )
                &&& final(self).webviews == old(self).webviews
                &&& final(self).pipeline_details == old(self).pipeline_details
                &&& final(self).shutdown_state == old(self).shutdown_state
                &&& final(self).frame_pacer == old(self).frame_pacer
                &&& final(self).last_animation_tick_ns == old(self).last_animation_tick_ns
                &&& final(self).dropped_after_shutdown == old(self).dropped_after_shutdown
            },
            final(self).wf(),
    {
        if self.is_shutdown_finished() {
            return TickOutcome {
                scroll_batches: Vec::new(),
                zoom_permille: 1000,
                composite: None,
            };
        }
        let scroll_batches = self.scroll_coalescer.flush(now_ms);
        if !scroll_batches.is_empty() {
            self.composition_request = CompositionRequest::CompositeNow(
                CompositingReason::NewWebRenderFrame,
            );
        }
        let pending_reason = match self.composition_request {
            CompositionRequest::CompositeNow(reason) => Some(reason),
            CompositionRequest::NoCompositingNecessary => None,
        };
        match pending_reason {
            Some(reason) => {
                if self.frame_pacer.should_generate_frame(now_ns) {
                    self.composition_request = CompositionRequest::NoCompositingNecessary;
                    let zoom = self.pending_zoom_permille;
                    self.pending_zoom_permille = 1000;
                    return TickOutcome {
                        scroll_batches,
                        zoom_permille: zoom,
                        composite: Some(reason),
                    };
                }
            },
            None => {},
        }
        TickOutcome { scroll_batches, zoom_permille: 1000, composite: None }
    }
}

impl IOCompositor {
    /// Record whether a pipeline is running animations or animation
    /// callbacks. Unknown pipelines are ignored.
    pub fn set_animation_state(
        &mut self,
        pipeline_id: PipelineId,
        animations_running: bool,
        animation_callbacks_running: bool,
    )
        requires
            old(self).wf(),
        ensures
            old(self).rejects_mutations() ==> *final(self) == (IOCompositor {
                dropped_after_shutdown: (spec_saturating_inc(old(self).dropped_after_shutdown)
                    as u64),
                ..*old(self)
            }),
            !old(self).rejects_mutations() && find_details(old(self).pipeline_details@, pipeline_id)
                == -1 ==> *final(self) == *old(self),
            !old(self).rejects_mutations() && find_details(old(self).pipeline_details@, pipeline_id)
                >= 0 ==> {
                let j = find_details(old(self).pipeline_details@, pipeline_id);
                let d = old(self).pipeline_details@[j].1;
                &&& *final(self) == (IOCompositor {
                    pipeline_details: final(self).pipeline_details,
                    ..*old(self)
                })
                &&& final(self).pipeline_details@ == old(self).pipeline_details@.update(
                    j,
                    (
                        pipeline_id,
                        PipelineDetails {
                            animations_running,
                            animation_callbacks_running,
                            ..d
                        },
                    ),
                )
            },
            final(self).wf(),
    {
        if self.is_shutdown_finished() {
            self.dropped_after_shutdown = saturating_inc(self.dropped_after_shutdown);
            return;
        }
        let j = match self.find_details_index(pipeline_id) {
            Some(j) => j,
            None => {
                return;
            },
        };
        let mut entry: (PipelineId, PipelineDetails) = (
            PipelineId { namespace_id: 0, index: 0 },
            PipelineDetails::new(),
        );
        self.pipeline_details.set_and_swap(j, &mut entry);
        entry.1.animations_running = animations_running;
        entry.1.animation_callbacks_running = animation_callbacks_running;
        self.pipeline_details.set_and_swap(j, &mut entry);
        proof {
            assert(self.pipeline_details@ =~= old(self).pipeline_details@.update(
                j as int,
                self.pipeline_details@[j as int],
            ));
        }
    }

    /// Record whether a pipeline is backgrounded and should reduce work.
    /// Unknown pipelines are ignored.
    pub fn set_throttled(&mut self, pipeline_id: PipelineId, throttled: bool)
        requires
            old(self).wf(),
        ensures
            old(self).rejects_mutations() ==> *final(self) == (IOCompositor {
                dropped_after_shutdown: (spec_saturating_inc(old(self).dropped_after_shutdown)
                    as u64),
                ..*old(self)
            }),
            !old(self).rejects_mutations() && find_details(old(self).pipeline_details@, pipeline_id)
                == -1 ==> *final(self) == *old(self),
            !old(self).rejects_mutations() && find_details(old(self).pipeline_details@, pipeline_id)
                >= 0 ==> {
                let j = find_details(old(self).pipeline_details@, pipeline_id);
                let d = old(self).pipeline_details@[j].1;
                &&& *final(self) == (IOCompositor {
                    pipeline_details: final(self).pipeline_details,
                    ..*old(self)
                })
                &&& final(self).pipeline_details@ == old(self).pipeline_details@.update(
                    j,
                    (pipeline_id, PipelineDetails { throttled, ..d }),
                )
            },
            final(self).wf(),
    {
        if self.is_shutdown_finished() {
            self.dropped_after_shutdown = saturating_inc(self.dropped_after_shutdown);
            return;
        }
        let j = match self.find_details_index(pipeline_id) {
            Some(j) => j,
            None => {
                return;
            },
        };
        let mut entry: (PipelineId, PipelineDetails) = (
            PipelineId { namespace_id: 0, index: 0 },
            PipelineDetails::new(),
        );
        self.pipeline_details.set_and_swap(j, &mut entry);
        entry.1.throttled = throttled;
        self.pipeline_details.set_and_swap(j, &mut entry);
        proof {
            assert(self.pipeline_details@ =~= old(self).pipeline_details@.update(
                j as int,
                self.pipeline_details@[j as int],
            ));
        }
    }
}

} // verus!
