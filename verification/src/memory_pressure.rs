//! Memory pressure handling.
//!
//! Periodically samples system memory usage and derives a pressure level that
//! downstream caches must react to. The monitor itself never queries the
//! operating system: the embedder reads the platform's memory figures and
//! hands them in as plain values, together with a millisecond reading of a
//! monotonic clock.
//!
//! The level mapping is a pure function of the utilization percentage with no
//! hysteresis band: a value oscillating around a threshold will flap between
//! levels on successive checks, and callers that need stability must add
//! their own hysteresis.

use vstd::prelude::*;

verus! {

use crate::clock::{spec_elapsed, saturating_elapsed};

/// Memory pressure severity levels.
#[derive(Clone, Copy, PartialEq, Eq, Structural, Debug)]
pub enum MemoryPressureLevel {
    /// Normal operation, no memory constraints.
    Normal,
    /// Warning level: start evicting caches.
    Warning,
    /// Critical level: aggressive eviction, suspend background pipelines.
    Critical,
}

impl Default for MemoryPressureLevel {
    fn default() -> (r: MemoryPressureLevel)
        ensures
            r == MemoryPressureLevel::Normal,
    {
        MemoryPressureLevel::Normal
    }
}

/// Configuration for memory pressure handling. Thresholds are utilization
/// percentages; cache factors are retention multipliers in permille.
#[derive(Clone, Copy, PartialEq, Eq, Structural, Debug)]
pub struct MemoryPressureConfig {
    /// Threshold percentage for the Warning level.
    pub warning_threshold: u64,
    /// Threshold percentage for the Critical level.
    pub critical_threshold: u64,
    /// Minimum interval between pressure checks, in milliseconds.
    pub check_interval_ms: u64,
    /// Cache retention factor for the Warning level, in permille.
    pub warning_cache_factor_permille: u32,
    /// Cache retention factor for the Critical level, in permille.
    pub critical_cache_factor_permille: u32,
}

/// The default pressure configuration: warn at 70%, critical at 90%, check at
/// most every five seconds, retain half resp. a quarter of cache budgets.
pub open spec fn spec_default_pressure_config() -> MemoryPressureConfig {
    MemoryPressureConfig {
        warning_threshold: 70u64,
        critical_threshold: 90u64,
        check_interval_ms: 5000u64,
        warning_cache_factor_permille: 500u32,
        critical_cache_factor_permille: 250u32,
    }
}

impl Default for MemoryPressureConfig {
    fn default() -> (r: MemoryPressureConfig)
        ensures
            r == spec_default_pressure_config(),
    {
        MemoryPressureConfig {
            warning_threshold: 70,
            critical_threshold: 90,
            check_interval_ms: 5000,
            warning_cache_factor_permille: 500,
            critical_cache_factor_permille: 250,
        }
    }
}

/// The pressure level for a utilization percentage: Critical at or above the
/// critical threshold, Warning at or above the warning threshold, Normal
/// below it. The mapping is pure, with no hysteresis.
pub open spec fn spec_level_for_usage(usage_percent: u64, config: MemoryPressureConfig)
    -> MemoryPressureLevel {
    if usage_percent >= config.critical_threshold {
        MemoryPressureLevel::Critical
    } else if usage_percent >= config.warning_threshold {
        MemoryPressureLevel::Warning
    } else {
        MemoryPressureLevel::Normal
    }
}

/// Map a utilization percentage to its pressure level.
pub fn level_for_usage(usage_percent: u64, config: &MemoryPressureConfig)
    -> (r: MemoryPressureLevel)
    ensures
        r == spec_level_for_usage(usage_percent, *config),
{
    if usage_percent >= config.critical_threshold {
        MemoryPressureLevel::Critical
    } else if usage_percent >= config.warning_threshold {
        MemoryPressureLevel::Warning
    } else {
        MemoryPressureLevel::Normal
    }
}

/// Memory pressure monitor state.
#[derive(Clone, Copy, PartialEq, Eq, Structural, Debug)]
pub struct MemoryPressureMonitor {
    /// Configuration.
    pub config: MemoryPressureConfig,
    /// Clock reading at the last due check.
    pub last_check_ms: u64,
    /// The level derived at the last due check.
    pub current_level: MemoryPressureLevel,
}

impl MemoryPressureMonitor {
    /// A check is due when at least the configured interval has elapsed since
    /// the previous one.
    pub open spec fn spec_due(self, now_ms: u64) -> bool {
        spec_elapsed(self.last_check_ms, now_ms) >= self.config.check_interval_ms
    }

    /// The monitor after a `check` call at `now_ms` with the sampled
    /// utilization: unchanged when the check is not yet due, otherwise the
    /// clock is recorded and the level recomputed from the sample.
    pub open spec fn spec_checked(self, now_ms: u64, usage_percent: u64)
        -> MemoryPressureMonitor {
        if self.spec_due(now_ms) {
            MemoryPressureMonitor {
                config: self.config,
                last_check_ms: now_ms,
                current_level: spec_level_for_usage(usage_percent, self.config),
            }
        } else {
            self
        }
    }

    /// Create a new memory pressure monitor at clock reading `now_ms`.
    pub fn new(config: MemoryPressureConfig, now_ms: u64) -> (r: MemoryPressureMonitor)
        ensures
            r == (MemoryPressureMonitor {
                config,
                last_check_ms: now_ms,
                current_level: MemoryPressureLevel::Normal,
            }),
    {
        MemoryPressureMonitor { config, last_check_ms: now_ms, current_level: MemoryPressureLevel::Normal }
    }

    /// Check whether it is time to evaluate memory pressure.
    pub fn should_check(&self, now_ms: u64) -> (r: bool)
        ensures
            r == self.spec_due(now_ms),
    {
        saturating_elapsed(self.last_check_ms, now_ms) >= self.config.check_interval_ms
    }

    /// Evaluate the current memory pressure level. A call before the
    /// configured interval has elapsed is a no-op that returns the level
    /// unchanged without resampling; a due call maps the sampled utilization
    /// percentage to its level.
    pub fn check(&mut self, now_ms: u64, usage_percent: u64) -> (r: MemoryPressureLevel)
        ensures
            *final(self) == old(self).spec_checked(now_ms, usage_percent),
            r == final(self).current_level,
            !old(self).spec_due(now_ms) ==> r == old(self).current_level && *final(self) == *old(
                self,
            ),
    {
        if !self.should_check(now_ms) {
            return self.current_level;
        }
        self.last_check_ms = now_ms;
        self.current_level = level_for_usage(usage_percent, &self.config);
        self.current_level
    }

    /// Get the current pressure level without re-checking.
    pub fn current_level(&self) -> (r: MemoryPressureLevel)
        ensures
            r == self.current_level,
    {
        self.current_level
    }

    /// Get the cache retention factor for the current level, in permille:
    /// full retention under Normal, the configured reductions under Warning
    /// and Critical.
    pub fn cache_reduction_factor(&self) -> (r: u32)
        ensures
            r == match self.current_level {
                MemoryPressureLevel::Normal => 1000u32,
                MemoryPressureLevel::Warning => self.config.warning_cache_factor_permille,
                MemoryPressureLevel::Critical => self.config.critical_cache_factor_permille,
            },
    {
        match self.current_level {
            MemoryPressureLevel::Normal => 1000,
            MemoryPressureLevel::Warning => self.config.warning_cache_factor_permille,
            MemoryPressureLevel::Critical => self.config.critical_cache_factor_permille,
        }
    }
}

impl Default for MemoryPressureMonitor {
    /// A monitor with the default configuration whose clock starts at zero.
    fn default() -> (r: MemoryPressureMonitor)
        ensures
            r == (MemoryPressureMonitor {
                config: spec_default_pressure_config(),
                last_check_ms: 0u64,
                current_level: MemoryPressureLevel::Normal,
            }),
    {
        MemoryPressureMonitor {
            config: MemoryPressureConfig {
                warning_threshold: 70,
                critical_threshold: 90,
                check_interval_ms: 5000,
                warning_cache_factor_permille: 500,
                critical_cache_factor_permille: 250,
            },
            last_check_ms: 0,
            current_level: MemoryPressureLevel::Normal,
        }
    }
}

/// A due check within the configured interval of a previous due check never
/// resamples: whatever utilization the second call would hand in, the level
/// and the whole monitor state are unchanged.
pub proof fn lemma_check_within_interval_is_stable(
    m: MemoryPressureMonitor,
    now1_ms: u64,
    usage1: u64,
    now2_ms: u64,
    usage2: u64,
)
    requires
        m.spec_due(now1_ms),
        now1_ms <= now2_ms,
        spec_elapsed(now1_ms, now2_ms) < m.config.check_interval_ms,
    ensures
        m.spec_checked(now1_ms, usage1).spec_checked(now2_ms, usage2) == m.spec_checked(
            now1_ms,
            usage1,
        ),
        m.spec_checked(now1_ms, usage1).spec_checked(now2_ms, usage2).current_level
            == spec_level_for_usage(usage1, m.config),
{
}

/// Actions a cache owner takes in response to memory pressure; implemented by
/// the embedder's caches.
pub trait MemoryPressureHandler {
    /// Handle a memory pressure event.
    fn handle_memory_pressure(&mut self, level: MemoryPressureLevel);

    /// Evict cached images.
    fn evict_image_caches(&mut self);

    /// Reduce renderer cache sizes by a retention factor in permille.
    fn reduce_webrender_cache_size(&mut self, factor_permille: u32);

    /// Suspend background pipelines.
    fn suspend_background_pipelines(&mut self);

    /// Resume suspended pipelines when pressure subsides.
    fn resume_suspended_pipelines(&mut self);
}

/// A whitespace character, as the meminfo tokenizer sees it.
pub open spec fn is_ws_char(c: char) -> bool {
    c == ' ' || c == '\t' || c == '\n' || c == '\r'
}

/// A decimal digit.
pub open spec fn is_digit_char(c: char) -> bool {
    48 <= c as int <= 57
}

/// First index at or after `i` holding a non-whitespace character (or the
/// end).
pub open spec fn skip_ws(s: Seq<char>, i: int) -> int
    decreases s.len() - i,
{
    if i < 0 || i >= s.len() {
        i
    } else if is_ws_char(s[i]) {
        skip_ws(s, i + 1)
    } else {
        i
    }
}

/// First index at or after `i` holding a whitespace character (or the end).
pub open spec fn skip_token(s: Seq<char>, i: int) -> int
    decreases s.len() - i,
{
    if i < 0 || i >= s.len() {
        i
    } else if !is_ws_char(s[i]) {
        skip_token(s, i + 1)
    } else {
        i
    }
}

proof fn lemma_skip_token_bounds(s: Seq<char>, i: int)
    requires
        0 <= i <= s.len(),
    ensures
        i <= skip_token(s, i) <= s.len(),
    decreases s.len() - i,
{
    if i < s.len() && !is_ws_char(s[i]) {
        lemma_skip_token_bounds(s, i + 1);
    }
}

/// Every character of `t` is a decimal digit.
pub open spec fn all_digit_chars(t: Seq<char>) -> bool {
    forall|i: int| 0 <= i < t.len() ==> is_digit_char(#[trigger] t[i])
}

/// The number that a sequence of decimal digits denotes.
pub open spec fn digits_value(t: Seq<char>) -> int
    decreases t.len(),
{
    if t.len() == 0 {
        0
    } else {
        digits_value(t.drop_last()) * 10 + (t.last() as int - 48)
    }
}

proof fn lemma_digits_value_nonneg(t: Seq<char>)
    requires
        all_digit_chars(t),
    ensures
        digits_value(t) >= 0,
    decreases t.len(),
{
    if t.len() > 0 {
        assert(all_digit_chars(t.drop_last())) by {
            assert(forall|i: int| 0 <= i < t.len() - 1 ==> #[trigger] t.drop_last()[i] == t[i]);
        }
        lemma_digits_value_nonneg(t.drop_last());
    }
}

proof fn lemma_digits_prefix_le(t: Seq<char>, k: int)
    requires
        all_digit_chars(t),
        0 <= k <= t.len(),
    ensures
        digits_value(t.subrange(0, k)) <= digits_value(t),
    decreases t.len() - k,
{
    if k == t.len() {
        assert(t.subrange(0, k) =~= t);
    } else {
        let p = t.subrange(0, k);
        let q = t.subrange(0, k + 1);
        assert(q.drop_last() =~= p);
        assert(all_digit_chars(p)) by {
            assert(forall|i: int| 0 <= i < k ==> #[trigger] p[i] == t[i]);
        }
        lemma_digits_value_nonneg(p);
        assert(digits_value(q) == digits_value(p) * 10 + (t[k] as int - 48));
        assert(digits_value(p) * 10 >= digits_value(p)) by (nonlinear_arith)
            requires
                digits_value(p) >= 0,
        ;
        lemma_digits_prefix_le(t, k + 1);
    }
}

/// The second whitespace-separated token of the line.
pub open spec fn spec_second_token(s: Seq<char>) -> Seq<char> {
    let a0 = skip_ws(s, 0);
    let e0 = skip_token(s, a0);
    let a1 = skip_ws(s, e0);
    let e1 = skip_token(s, a1);
    s.subrange(a1, e1)
}

/// The kilobyte figure on one meminfo line ("MemTotal:  16384 kB" gives
/// 16384): the second whitespace-separated token read as a decimal number,
/// zero when that token is missing, holds a non-digit, or overflows.
pub open spec fn spec_parse_meminfo_kb(s: Seq<char>) -> int {
    let t = spec_second_token(s);
    if t.len() > 0 && all_digit_chars(t) && digits_value(t) <= u64::MAX {
        digits_value(t)
    } else {
        0
    }
}

/// Whether `c` is tokenizer whitespace.
fn is_ws(c: char) -> (r: bool)
    ensures
        r == is_ws_char(c),
{
    c == ' ' || c == '\t' || c == '\n' || c == '\r'
}

/// Parse one line of the kernel's memory summary and extract the kilobyte
/// value: the second whitespace-separated token as a decimal number, or zero
/// when it is missing or malformed.
pub fn parse_meminfo_kb(line: &str) -> (r: u64)
    ensures
        r as int == spec_parse_meminfo_kb(line@),
{
    let ghost s = line@;
    let n = line.unicode_len();
    let mut i: usize = 0;

    // Skip leading whitespace to the first token.
    while i < n
        invariant
            0 <= i <= n,
            n == s.len(),
            s == line@,
            skip_ws(s, 0) == skip_ws(s, i as int),
        ensures
            0 <= i <= n,
            skip_ws(s, 0) == i as int,
        decreases n - i,
    {
        let c = line.get_char(i);
        if !is_ws(c) {
            break;
        }
        i = i + 1;
    }
    let ghost a0 = i as int;

    // Skip the first token.
    while i < n
        invariant
            0 <= i <= n,
            n == s.len(),
            s == line@,
            skip_token(s, a0) == skip_token(s, i as int),
        ensures
            0 <= i <= n,
            skip_token(s, a0) == i as int,
        decreases n - i,
    {
        let c = line.get_char(i);
        if is_ws(c) {
            break;
        }
        i = i + 1;
    }
    let ghost e0 = i as int;

    // Skip the whitespace before the second token.
    while i < n
        invariant
            0 <= i <= n,
            n == s.len(),
            s == line@,
            skip_ws(s, e0) == skip_ws(s, i as int),
        ensures
            0 <= i <= n,
            skip_ws(s, e0) == i as int,
        decreases n - i,
    {
        let c = line.get_char(i);
        if !is_ws(c) {
            break;
        }
        i = i + 1;
    }
    let ghost a1 = i as int;

    // Read the second token as a decimal number.
    let mut acc: u64 = 0;
    while i < n
        invariant
            0 <= a1 <= i <= n,
            n == s.len(),
            s == line@,
            a0 == skip_ws(s, 0),
            e0 == skip_token(s, a0),
            a1 == skip_ws(s, e0),
            skip_token(s, a1) == skip_token(s, i as int),
            forall|k: int| a1 <= k < i ==> is_digit_char(#[trigger] s[k]),
            acc as int == digits_value(s.subrange(a1, i as int)),
        ensures
            0 <= a1 <= i <= n,
            skip_token(s, a1) == i as int,
            forall|k: int| a1 <= k < i ==> is_digit_char(#[trigger] s[k]),
            acc as int == digits_value(s.subrange(a1, i as int)),
        decreases n - i,
    {
        let c = line.get_char(i);
        if is_ws(c) {
            break;
        }
        proof {
            lemma_skip_token_bounds(s, i as int + 1);
        }
        let ghost e1 = skip_token(s, a1);
        assert(e1 > i as int);
        if !(c >= '0' && c <= '9') {
            // A non-digit inside the token: the whole token is rejected.
            assert(s.subrange(a1, e1)[i - a1] == s[i as int]);
            assert(!all_digit_chars(s.subrange(a1, e1)));
            return 0;
        }
        let d: u64 = (c as u32 as u64) - 48;
        if acc > (u64::MAX - d) / 10 {
            // The token denotes a number beyond the representable range.
            proof {
                let t = s.subrange(a1, e1);
                if all_digit_chars(t) {
                    let q = s.subrange(a1, i as int + 1);
                    assert(q.drop_last() =~= s.subrange(a1, i as int));
                    assert(digits_value(q) == acc as int * 10 + d);
                    assert(acc as int > (u64::MAX as int - d) / 10);
                    assert(acc as int * 10 + d > u64::MAX) by (nonlinear_arith)
                        requires
                            acc as int > (u64::MAX as int - d) / 10,
                            0 <= d <= 9,
                    ;
                    assert(q =~= t.subrange(0, i as int + 1 - a1));
                    lemma_digits_prefix_le(t, i as int + 1 - a1);
                }
            }
            return 0;
        }
        proof {
            assert(acc as int * 10 + d <= u64::MAX) by (nonlinear_arith)
                requires
                    acc as int <= (u64::MAX as int - d) / 10,
                    0 <= d <= 9,
            ;
            assert(s.subrange(a1, i as int + 1).drop_last() =~= s.subrange(a1, i as int));
        }
        acc = acc * 10 + d;
        i = i + 1;
    }
    proof {
        let t = s.subrange(a1, i as int);
        assert(all_digit_chars(t)) by {
            assert(forall|k: int| 0 <= k < t.len() ==> #[trigger] t[k] == s[a1 + k]);
        }
    }
    acc
}

/// First index at or after `i` holding a newline (or the end).
pub open spec fn line_end(s: Seq<char>, i: int) -> int
    decreases s.len() - i,
{
    if i < 0 || i >= s.len() {
        i
    } else if s[i] == '\n' {
        i
    } else {
        line_end(s, i + 1)
    }
}

/// The accumulator after scanning the summary text line by line from index
/// `i`: each line that starts with `prefix` replaces the accumulator with
/// that line's kilobyte figure, so the last matching line wins.
pub open spec fn spec_scan_meminfo(s: Seq<char>, prefix: Seq<char>, i: int, acc: int) -> int
    decreases s.len() - i + 1,
{
    if i < 0 || i >= s.len() {
        acc
    } else {
        let e = line_end(s, i);
        let line = s.subrange(i, e);
        let acc2 = if prefix.is_prefix_of(line) {
            spec_parse_meminfo_kb(line)
        } else {
            acc
        };
        let next0 = if e + 1 <= s.len() {
            e + 1
        } else {
            s.len() as int
        };
        let next = if next0 <= i {
            i + 1
        } else {
            next0
        };
        spec_scan_meminfo(s, prefix, next, acc2)
    }
}

/// The memory utilization percentage derived from total and available
/// kilobytes: used memory over total, zero when the total is unknown. An
/// available figure above the total (an inconsistent sample) counts as
/// nothing used.
pub open spec fn spec_usage_percent(total_kb: u64, available_kb: u64) -> int {
    if total_kb == 0 {
        0
    } else {
        let used = if available_kb <= total_kb {
            total_kb - available_kb
        } else {
            0
        };
        used * 100 / total_kb as int
    }
}

/// Compute the memory utilization percentage from total and available
/// kilobytes.
pub fn memory_usage_percent(total_kb: u64, available_kb: u64) -> (r: u64)
    ensures
        r as int == spec_usage_percent(total_kb, available_kb),
        r <= 100,
{
    if total_kb == 0 {
        return 0;
    }
    let used: u64 = if available_kb <= total_kb {
        total_kb - available_kb
    } else {
        0
    };
    let p = (used as u128) * 100 / (total_kb as u128);
    proof {
        let u = used as int;
        let t = total_kb as int;
        assert(u * 100 <= t * 100) by (nonlinear_arith)
            requires
                0 <= u <= t,
        ;
        assert(u * 100 / t <= t * 100 / t) by (nonlinear_arith)
            requires
                u * 100 <= t * 100,
                0 < t,
        ;
        assert(t * 100 / t == 100) by (nonlinear_arith)
            requires
                0 < t,
        ;
    }
    p as u64
}

/// Whether `prefix` is a prefix of `line`, character for character.
fn has_prefix(line: &str, prefix: &str) -> (r: bool)
    ensures
        r == prefix@.is_prefix_of(line@),
{
    let pn = prefix.unicode_len();
    let ln = line.unicode_len();
    if pn > ln {
        return false;
    }
    let mut k: usize = 0;
    while k < pn
        invariant
            0 <= k <= pn,
            pn == prefix@.len(),
            ln == line@.len(),
            pn <= ln,
            forall|j: int| 0 <= j < k ==> prefix@[j] == line@[j],
        decreases pn - k,
    {
        if line.get_char(k) != prefix.get_char(k) {
            assert(!prefix@.is_prefix_of(line@)) by {
                assert(line@.subrange(0, pn as int)[k as int] == line@[k as int]);
            }
            return false;
        }
        k = k + 1;
    }
    proof {
        assert(prefix@ =~= line@.subrange(0, pn as int));
    }
    true
}

/// Derive the memory utilization percentage from the text of the kernel's
/// memory summary: the total and available kilobyte figures are taken from
/// the lines labelled with them (the last occurrence of each winning), and
/// utilization is used memory over total. Unknown totals read as no pressure.
pub fn linux_memory_usage(meminfo: &str) -> (r: u64)
    ensures
        r as int == spec_usage_percent(
            (spec_scan_meminfo(meminfo@, "MemTotal:"@, 0, 0) as u64),
            (spec_scan_meminfo(meminfo@, "MemAvailable:"@, 0, 0) as u64),
        ),
        r <= 100,
{
    let ghost s = meminfo@;
    let n = meminfo.unicode_len();
    let mut total: u64 = 0;
    let mut available: u64 = 0;
    let mut i: usize = 0;

    proof {
        lemma_parse_range_fits(s, "MemTotal:"@, 0, 0);
        lemma_parse_range_fits(s, "MemAvailable:"@, 0, 0);
    }

    while i < n
        invariant
            0 <= i <= n,
            n == s.len(),
            s == meminfo@,
            total <= u64::MAX,
            available <= u64::MAX,
            spec_scan_meminfo(s, "MemTotal:"@, i as int, total as int) == spec_scan_meminfo(
                s,
                "MemTotal:"@,
                0,
                0,
            ),
            spec_scan_meminfo(s, "MemAvailable:"@, i as int, available as int)
                == spec_scan_meminfo(s, "MemAvailable:"@, 0, 0),
        decreases n - i,
    {
        // Find the end of the current line.
        let mut e: usize = i;
        while e < n
            invariant
                i <= e <= n,
                n == s.len(),
                s == meminfo@,
                line_end(s, i as int) == line_end(s, e as int),
            ensures
                i <= e <= n,
                line_end(s, i as int) == e as int,
            decreases n - e,
        {
            if meminfo.get_char(e) == '\n' {
                break;
            }
            e = e + 1;
        }

        let line = meminfo.substring_char(i, e);
        if has_prefix(line, "MemTotal:") {
            total = parse_meminfo_kb(line);
        }
        if has_prefix(line, "MemAvailable:") {
            available = parse_meminfo_kb(line);
        }

        if e < n {
            i = e + 1;
        } else {
            i = n;
        }
    }
    memory_usage_percent(total, available)
}

proof fn lemma_parse_range_fits(s: Seq<char>, prefix: Seq<char>, i: int, acc: int)
    requires
        0 <= acc <= u64::MAX,
    ensures
        0 <= spec_scan_meminfo(s, prefix, i, acc) <= u64::MAX,
    decreases s.len() - i + 1,
{
    if 0 <= i < s.len() {
        let e = line_end(s, i);
        let line = s.subrange(i, e);
        if prefix.is_prefix_of(line) {
            let t = spec_second_token(line);
            if t.len() > 0 && all_digit_chars(t) && digits_value(t) <= u64::MAX {
                lemma_digits_value_nonneg(t);
            }
        }
        let next0 = if e + 1 <= s.len() {
            e + 1
        } else {
            s.len() as int
        };
        let next = if next0 <= i {
            i + 1
        } else {
            next0
        };
        let acc2 = if prefix.is_prefix_of(line) {
            spec_parse_meminfo_kb(line)
        } else {
            acc
        };
        lemma_parse_range_fits(s, prefix, next, acc2);
    }
}

} // verus!
