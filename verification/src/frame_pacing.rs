//! Frame pacing.
//!
//! Decides, relative to a target refresh interval, whether a new frame should
//! be generated now or deferred, and classifies frames as on-time or dropped.
//!
//! All times are nanosecond readings of a monotonic clock supplied by the
//! caller; rates are in millihertz. A refresh rate of 60 Hz is the value
//! `60_000`, and its target frame duration is `1_000_000_000_000 / 60_000`
//! nanoseconds.

use vstd::prelude::*;

verus! {

use crate::clock::{spec_elapsed, spec_saturating_inc, saturating_elapsed};

/// Default refresh rate assumption when detection fails: 60 Hz.
pub const DEFAULT_REFRESH_RATE_MILLIHZ: u64 = 60_000;

/// Upper bound on plausible refresh rates: 360 Hz.
pub const MAX_REFRESH_RATE_MILLIHZ: u64 = 360_000;

/// Nanoseconds in one second, scaled by the millihertz unit: dividing this by
/// a rate in millihertz gives the frame duration in nanoseconds.
pub const NANOS_TIMES_MILLI: u64 = 1_000_000_000_000;

/// A refresh rate is plausible when it is positive and at most 360 Hz. An
/// invalid rate must never be accepted: it would produce a zero or absurd
/// target duration and defeat pacing entirely.
pub open spec fn valid_refresh_rate(millihz: u64) -> bool {
    0 < millihz <= MAX_REFRESH_RATE_MILLIHZ
}

/// Target frame duration in nanoseconds for a refresh rate in millihertz.
pub open spec fn spec_target_ns(millihz: u64) -> int
    recommends
        millihz > 0,
{
    NANOS_TIMES_MILLI as int / millihz as int
}

/// Exponential smoothing with a factor in permille, clamped to at most one:
/// `(current * (1000 - a) + sample * a) / 1000`.
pub open spec fn spec_smooth(current: u64, sample: u64, factor_permille: u64) -> int {
    let a = if factor_permille <= 1000 {
        factor_permille as int
    } else {
        1000
    };
    (current as int * (1000 - a) + sample as int * a) / 1000
}

/// The duration above which a frame counts as dropped: the target duration
/// scaled by the drop threshold in permille.
pub open spec fn spec_drop_threshold_ns(target_ns: u64, threshold_permille: u64) -> int {
    target_ns as int * threshold_permille as int / 1000
}

pub proof fn lemma_u64_mul_fits_u128(a: u64, b: u64)
    ensures
        a as int * b as int <= u128::MAX,
{
    assert(a as int * b as int <= u64::MAX as int * u64::MAX as int) by (nonlinear_arith)
        requires
            0 <= a <= u64::MAX,
            0 <= b <= u64::MAX,
    ;
}

proof fn lemma_smooth_bounded(current: u64, sample: u64, factor_permille: u64)
    ensures
        0 <= spec_smooth(current, sample, factor_permille),
        spec_smooth(current, sample, factor_permille) <= current as int
            || spec_smooth(current, sample, factor_permille) <= sample as int,
{
    let a = if factor_permille <= 1000 {
        factor_permille as int
    } else {
        1000
    };
    let c = current as int;
    let s = sample as int;
    let m = if c >= s {
        c
    } else {
        s
    };
    assert(c * (1000 - a) + s * a >= 0) by (nonlinear_arith)
        requires
            0 <= a <= 1000,
            0 <= c,
            0 <= s,
    ;
    assert(c * (1000 - a) + s * a <= m * 1000) by (nonlinear_arith)
        requires
            0 <= a <= 1000,
            0 <= c <= m,
            0 <= s <= m,
    ;
    assert((c * (1000 - a) + s * a) / 1000 <= m) by (nonlinear_arith)
        requires
            c * (1000 - a) + s * a <= m * 1000,
            0 <= m,
    ;
}

/// The default pacing configuration: vsync on, adaptive, smoothing factor
/// one tenth, drop threshold one and a half times the target.
pub open spec fn spec_default_config() -> FramePacingConfig {
    FramePacingConfig {
        vsync_enabled: true,
        adaptive_vsync: true,
        smoothing_factor_permille: 100u64,
        drop_threshold_permille: 1500u64,
        debug_logging: false,
    }
}

/// Configuration for frame pacing behavior.
#[derive(Clone, PartialEq, Eq, Structural, Debug)]
pub struct FramePacingConfig {
    /// Enable vsync-aligned frame scheduling.
    pub vsync_enabled: bool,
    /// Enable adaptive vsync (skip the vsync wait when behind schedule).
    pub adaptive_vsync: bool,
    /// Frame time smoothing factor in permille (0..=1000; higher = faster to
    /// follow new samples).
    pub smoothing_factor_permille: u64,
    /// Threshold for frame drop detection, as a permille multiplier of the
    /// target duration.
    pub drop_threshold_permille: u64,
    /// Enable frame timing debug logging in the embedder.
    pub debug_logging: bool,
}

impl Default for FramePacingConfig {
    /// Vsync on, adaptive, smoothing 0.1, drop threshold 1.5x.
    fn default() -> (r: FramePacingConfig)
        ensures
            r == spec_default_config(),
    {
        FramePacingConfig {
            vsync_enabled: true,
            adaptive_vsync: true,
            smoothing_factor_permille: 100,
            drop_threshold_permille: 1500,
            debug_logging: false,
        }
    }
}

/// Frame timing statistics, in integer units: durations in nanoseconds, rates
/// in millihertz.
#[derive(Clone, PartialEq, Eq, Structural, Debug)]
pub struct FrameStats {
    /// Total frames rendered.
    pub total_frames: u64,
    /// Frames that exceeded the drop threshold.
    pub dropped_frames: u64,
    /// Smoothed average frame time in nanoseconds.
    pub avg_frame_time_ns: u64,
    /// Smoothed average render time (excluding the vsync wait) in nanoseconds.
    pub avg_render_time_ns: u64,
    /// Current refresh rate in millihertz.
    pub refresh_rate_millihz: u64,
    /// Effective frame rate in millihertz, derived from the average frame
    /// time.
    pub effective_fps_millihz: u64,
}

/// Frame timing and pacing state.
#[derive(Clone, Debug)]
pub struct FramePacing {
    /// Target frame duration in nanoseconds, always derived from the refresh
    /// rate.
    pub target_frame_duration_ns: u64,
    /// Current refresh rate in millihertz.
    pub refresh_rate_millihz: u64,
    /// Clock reading at the last frame presentation.
    pub last_frame_time_ns: u64,
    /// Clock reading when the last frame started rendering, if tracked.
    pub last_render_start_ns: Option<u64>,
    /// Smoothed average frame time in nanoseconds.
    pub avg_frame_time_ns: u64,
    /// Smoothed average render time in nanoseconds.
    pub avg_render_time_ns: u64,
    /// Total frames presented.
    pub frame_count: u64,
    /// Frames that exceeded the drop threshold.
    pub dropped_frames: u64,
    /// Configuration.
    pub config: FramePacingConfig,
}

impl FramePacing {
    /// The pacer's internal consistency: the refresh rate is plausible, the
    /// target duration is derived from it, and no more frames were dropped
    /// than presented.
    pub open spec fn wf(self) -> bool {
        &&& valid_refresh_rate(self.refresh_rate_millihz)
        &&& self.target_frame_duration_ns == spec_target_ns(self.refresh_rate_millihz)
        &&& self.dropped_frames <= self.frame_count
    }

    /// Whether a frame must be generated at clock reading `now_ns`: always
    /// when vsync is off; otherwise once the target duration has elapsed
    /// since the last presentation, or already when the pacer is behind
    /// schedule under adaptive vsync.
    pub open spec fn spec_should_generate_frame(self, now_ns: u64) -> bool {
        if !self.config.vsync_enabled {
            true
        } else {
            let elapsed = spec_elapsed(self.last_frame_time_ns, now_ns);
            ||| (self.config.adaptive_vsync && elapsed >= spec_drop_threshold_ns(
                self.target_frame_duration_ns,
                self.config.drop_threshold_permille,
            ))
            ||| elapsed >= self.target_frame_duration_ns
        }
    }

    /// Whether a frame presented at `now_ns` counts as dropped: its duration
    /// exceeded the drop threshold.
    pub open spec fn spec_frame_dropped(self, now_ns: u64) -> bool {
        spec_elapsed(self.last_frame_time_ns, now_ns) > spec_drop_threshold_ns(
            self.target_frame_duration_ns,
            self.config.drop_threshold_permille,
        )
    }

    /// Create a new frame pacing controller with default settings, at clock
    /// reading `now_ns`.
    pub fn new(now_ns: u64) -> (r: FramePacing)
        ensures
            r.wf(),
            r.config == spec_default_config(),
            r.refresh_rate_millihz == DEFAULT_REFRESH_RATE_MILLIHZ,
            r.last_frame_time_ns == now_ns,
            r.last_render_start_ns is None,
            r.avg_frame_time_ns == spec_target_ns(DEFAULT_REFRESH_RATE_MILLIHZ),
            r.avg_render_time_ns == 0,
            r.frame_count == 0,
            r.dropped_frames == 0,
    {
        Self::with_config(
            FramePacingConfig {
                vsync_enabled: true,
                adaptive_vsync: true,
                smoothing_factor_permille: 100,
                drop_threshold_permille: 1500,
                debug_logging: false,
            },
            now_ns,
        )
    }

    /// Create a new frame pacing controller with a custom configuration, at
    /// clock reading `now_ns`.
    pub fn with_config(config: FramePacingConfig, now_ns: u64) -> (r: FramePacing)
        ensures
            r.wf(),
            r.config == config,
            r.refresh_rate_millihz == DEFAULT_REFRESH_RATE_MILLIHZ,
            r.last_frame_time_ns == now_ns,
            r.last_render_start_ns is None,
            r.avg_frame_time_ns == spec_target_ns(DEFAULT_REFRESH_RATE_MILLIHZ),
            r.avg_render_time_ns == 0,
            r.frame_count == 0,
            r.dropped_frames == 0,
    {
        let target: u64 = NANOS_TIMES_MILLI / DEFAULT_REFRESH_RATE_MILLIHZ;
        FramePacing {
            target_frame_duration_ns: target,
            refresh_rate_millihz: DEFAULT_REFRESH_RATE_MILLIHZ,
            last_frame_time_ns: now_ns,
            last_render_start_ns: None,
            avg_frame_time_ns: target,
            avg_render_time_ns: 0,
            frame_count: 0,
            dropped_frames: 0,
            config,
        }
    }

    /// Set the target refresh rate, in millihertz. A rate that is zero or
    /// above the plausible maximum is rejected and the previous rate is
    /// retained, so the target duration can never become zero or absurd.
    pub fn set_refresh_rate(&mut self, millihz: u64)
        ensures
            valid_refresh_rate(millihz) ==> *final(self) == (FramePacing {
                refresh_rate_millihz: millihz,
                target_frame_duration_ns: (spec_target_ns(millihz) as u64),
                ..*old(self)
            }),
            !valid_refresh_rate(millihz) ==> *final(self) == *old(self),
            old(self).wf() ==> final(self).wf(),
    {
        if millihz > 0 && millihz <= MAX_REFRESH_RATE_MILLIHZ {
            self.refresh_rate_millihz = millihz;
            self.target_frame_duration_ns = NANOS_TIMES_MILLI / millihz;
        }
    }

    /// Get the current refresh rate in millihertz.
    pub fn refresh_rate(&self) -> (r: u64)
        ensures
            r == self.refresh_rate_millihz,
    {
        self.refresh_rate_millihz
    }

    /// Get the target frame duration in nanoseconds.
    pub fn target_frame_duration(&self) -> (r: u64)
        ensures
            r == self.target_frame_duration_ns,
    {
        self.target_frame_duration_ns
    }

    /// Check whether it is time to generate a new frame at clock reading
    /// `now_ns`.
    pub fn should_generate_frame(&self, now_ns: u64) -> (r: bool)
        ensures
            r == self.spec_should_generate_frame(now_ns),
    {
        if !self.config.vsync_enabled {
            return true;
        }
        let elapsed: u64 = saturating_elapsed(self.last_frame_time_ns, now_ns);
        if self.config.adaptive_vsync {
            proof {
                lemma_u64_mul_fits_u128(
                    self.target_frame_duration_ns,
                    self.config.drop_threshold_permille,
                );
            }
            let behind = (self.target_frame_duration_ns as u128)
                * (self.config.drop_threshold_permille as u128) / 1000;
            if (elapsed as u128) >= behind {
                return true;
            }
        }
        elapsed >= self.target_frame_duration_ns
    }

    /// Time in nanoseconds until the next frame should be generated: zero
    /// when vsync is off or the target duration has already elapsed.
    pub fn time_until_next_frame(&self, now_ns: u64) -> (r: u64)
        ensures
            !self.config.vsync_enabled ==> r == 0,
            self.config.vsync_enabled ==> r == if spec_elapsed(self.last_frame_time_ns, now_ns)
                < self.target_frame_duration_ns {
                self.target_frame_duration_ns - spec_elapsed(self.last_frame_time_ns, now_ns)
            } else {
                0
            },
    {
        if !self.config.vsync_enabled {
            return 0;
        }
        let elapsed: u64 = saturating_elapsed(self.last_frame_time_ns, now_ns);
        if elapsed < self.target_frame_duration_ns {
            self.target_frame_duration_ns - elapsed
        } else {
            0
        }
    }

    /// Mark the start of frame rendering at clock reading `now_ns`.
    pub fn begin_frame(&mut self, now_ns: u64)
        ensures
            *final(self) == (FramePacing { last_render_start_ns: Some(now_ns), ..*old(self) }),
    {
        self.last_render_start_ns = Some(now_ns);
    }

    /// Mark frame presentation at clock reading `now_ns` and update timing:
    /// the drop counter grows by exactly one when the frame exceeded the drop
    /// threshold and is untouched otherwise, the averages are smoothed toward
    /// the observed durations, and the presentation clock advances to
    /// `now_ns`.
    pub fn on_frame_presented(&mut self, now_ns: u64)
        ensures
            final(self).dropped_frames == if old(self).spec_frame_dropped(now_ns) {
                spec_saturating_inc(old(self).dropped_frames)
            } else {
                old(self).dropped_frames as int
            },
            final(self).frame_count == spec_saturating_inc(old(self).frame_count),
            final(self).avg_frame_time_ns == spec_smooth(
                old(self).avg_frame_time_ns,
                (spec_elapsed(old(self).last_frame_time_ns, now_ns) as u64),
                old(self).config.smoothing_factor_permille,
            ),
            final(self).avg_render_time_ns == match old(self).last_render_start_ns {
                Some(start) => spec_smooth(
                    old(self).avg_render_time_ns,
                    (spec_elapsed(start, now_ns) as u64),
                    old(self).config.smoothing_factor_permille,
                ),
                None => old(self).avg_render_time_ns as int,
            },
            final(self).last_frame_time_ns == now_ns,
            final(self).last_render_start_ns is None,
            final(self).refresh_rate_millihz == old(self).refresh_rate_millihz,
            final(self).target_frame_duration_ns == old(self).target_frame_duration_ns,
            final(self).config == old(self).config,
            old(self).wf() ==> final(self).wf(),
    {
        let frame_time: u64 = saturating_elapsed(self.last_frame_time_ns, now_ns);

        match self.last_render_start_ns {
            Some(start) => {
                let render_time: u64 = saturating_elapsed(start, now_ns);
                self.avg_render_time_ns = smooth_ns(
                    self.avg_render_time_ns,
                    render_time,
                    self.config.smoothing_factor_permille,
                );
                self.last_render_start_ns = None;
            },
            None => {},
        }

        proof {
            lemma_u64_mul_fits_u128(
                self.target_frame_duration_ns,
                self.config.drop_threshold_permille,
            );
        }
        let threshold = (self.target_frame_duration_ns as u128)
            * (self.config.drop_threshold_permille as u128) / 1000;
        if (frame_time as u128) > threshold {
            if self.dropped_frames < u64::MAX {
                self.dropped_frames = self.dropped_frames + 1;
            }
        }

        self.avg_frame_time_ns = smooth_ns(
            self.avg_frame_time_ns,
            frame_time,
            self.config.smoothing_factor_permille,
        );
        self.last_frame_time_ns = now_ns;
        if self.frame_count < u64::MAX {
            self.frame_count = self.frame_count + 1;
        }
    }

    /// Get current frame statistics. The effective frame rate is the inverse
    /// of the average frame time, in millihertz; zero when no time has been
    /// observed.
    pub fn stats(&self) -> (r: FrameStats)
        ensures
            r.total_frames == self.frame_count,
            r.dropped_frames == self.dropped_frames,
            r.avg_frame_time_ns == self.avg_frame_time_ns,
            r.avg_render_time_ns == self.avg_render_time_ns,
            r.refresh_rate_millihz == self.refresh_rate_millihz,
            r.effective_fps_millihz == if self.avg_frame_time_ns > 0 {
                NANOS_TIMES_MILLI as int / self.avg_frame_time_ns as int
            } else {
                0
            },
    {
        let effective_fps_millihz: u64 = if self.avg_frame_time_ns > 0 {
            NANOS_TIMES_MILLI / self.avg_frame_time_ns
        } else {
            0
        };
        FrameStats {
            total_frames: self.frame_count,
            dropped_frames: self.dropped_frames,
            avg_frame_time_ns: self.avg_frame_time_ns,
            avg_render_time_ns: self.avg_render_time_ns,
            refresh_rate_millihz: self.refresh_rate_millihz,
            effective_fps_millihz,
        }
    }

    /// Get the share of presented frames that were dropped, as a whole
    /// percentage.
    pub fn drop_percentage(&self) -> (r: u64)
        requires
            self.wf(),
        ensures
            r == if self.frame_count == 0 {
                0int
            } else {
                self.dropped_frames as int * 100 / self.frame_count as int
            },
            r <= 100,
    {
        if self.frame_count == 0 {
            return 0;
        }
        let p = (self.dropped_frames as u128) * 100 / (self.frame_count as u128);
        proof {
            let d = self.dropped_frames as int;
            let f = self.frame_count as int;
            assert(d * 100 <= f * 100) by (nonlinear_arith)
                requires
                    0 <= d <= f,
            ;
            assert(d * 100 / f <= f * 100 / f) by (nonlinear_arith)
                requires
                    d * 100 <= f * 100,
                    0 < f,
            ;
            assert(f * 100 / f == 100) by (nonlinear_arith)
                requires
                    0 < f,
            ;
        }
        p as u64
    }

    /// Check whether rendering keeps up with the target refresh rate: the
    /// average frame time is within ten percent above the target duration.
    pub fn is_keeping_up(&self) -> (r: bool)
        ensures
            r == (self.avg_frame_time_ns as int <= self.target_frame_duration_ns as int * 1100
                / 1000),
    {
        let budget = (self.target_frame_duration_ns as u128) * 1100 / 1000;
        (self.avg_frame_time_ns as u128) <= budget
    }

    /// Get a mutable reference to the configuration.
    pub fn config_mut(&mut self) -> (r: &mut FramePacingConfig)
        ensures
            *r == old(self).config,
            *final(self) == (FramePacing { config: *final(r), ..*old(self) }),
    {
        &mut self.config
    }

    /// Reset timing statistics: counters to zero, the average frame time back
    /// to the target duration.
    pub fn reset_stats(&mut self)
        ensures
            *final(self) == (FramePacing {
                frame_count: 0u64,
                dropped_frames: 0u64,
                avg_frame_time_ns: old(self).target_frame_duration_ns,
                avg_render_time_ns: 0u64,
                ..*old(self)
            }),
            old(self).wf() ==> final(self).wf(),
    {
        self.frame_count = 0;
        self.dropped_frames = 0;
        self.avg_frame_time_ns = self.target_frame_duration_ns;
        self.avg_render_time_ns = 0;
    }
}

impl Default for FramePacing {
    /// A pacer with default settings whose clock starts at zero.
    fn default() -> (r: FramePacing)
        ensures
            r.wf(),
            r.config == spec_default_config(),
            r.refresh_rate_millihz == DEFAULT_REFRESH_RATE_MILLIHZ,
            r.frame_count == 0,
            r.dropped_frames == 0,
    {
        FramePacing::new(0)
    }
}

/// Apply exponential smoothing to a duration, with the factor in permille.
fn smooth_ns(current: u64, sample: u64, factor_permille: u64) -> (r: u64)
    ensures
        r == spec_smooth(current, sample, factor_permille),
{
    let a: u64 = if factor_permille <= 1000 {
        factor_permille
    } else {
        1000
    };
    proof {
        lemma_smooth_bounded(current, sample, factor_permille);
    }
    let num = (current as u128) * ((1000 - a) as u128) + (sample as u128) * (a as u128);
    (num / 1000) as u64
}

} // verus!
