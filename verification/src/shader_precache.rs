//! Shader precaching configuration.
//!
//! Configurable shader precaching strategies to balance startup time against
//! runtime smoothness: compile nothing up front, compile in the background,
//! or compile everything synchronously at startup.

use vstd::prelude::*;

verus! {

/// Shader precaching strategy.
#[derive(Clone, Copy, PartialEq, Eq, Structural, Debug)]
pub enum ShaderPrecacheStrategy {
    /// No precaching: compile shaders on demand. Fastest startup, but may
    /// cause stalls during first use of each shader.
    NoPrecache,
    /// Compile shaders asynchronously in the background. A balance of startup
    /// time and runtime smoothness.
    Async,
    /// Full synchronous compilation at startup. Slowest startup, but no
    /// shader compilation stalls at runtime.
    Full,
}

impl Default for ShaderPrecacheStrategy {
    fn default() -> (r: ShaderPrecacheStrategy)
        ensures
            r == ShaderPrecacheStrategy::Async,
    {
        ShaderPrecacheStrategy::Async
    }
}

/// The lowercase image of a character, folding ASCII letters only.
pub open spec fn ascii_lower(c: char) -> int {
    if 65 <= c as int <= 90 {
        c as int + 32
    } else {
        c as int
    }
}

/// Two strings are equal up to ASCII case.
pub open spec fn eq_ignore_ascii_case(a: Seq<char>, b: Seq<char>) -> bool {
    a.len() == b.len() && forall|i: int| 0 <= i < a.len() ==> ascii_lower(a[i]) == ascii_lower(
        #[trigger] b[i],
    )
}

/// Compare two strings for equality up to ASCII case.
fn str_eq_ignore_ascii_case(a: &str, b: &str) -> (r: bool)
    ensures
        r == eq_ignore_ascii_case(a@, b@),
{
    let an = a.unicode_len();
    let bn = b.unicode_len();
    if an != bn {
        return false;
    }
    let mut i: usize = 0;
    while i < an
        invariant
            0 <= i <= an,
            an == a@.len(),
            an == b@.len(),
            forall|j: int| 0 <= j < i ==> ascii_lower(a@[j]) == ascii_lower(#[trigger] b@[j]),
        decreases an - i,
    {
        let ca = a.get_char(i);
        let cb = b.get_char(i);
        let la: u32 = if ca >= 'A' && ca <= 'Z' {
            ca as u32 + 32
        } else {
            ca as u32
        };
        let lb: u32 = if cb >= 'A' && cb <= 'Z' {
            cb as u32 + 32
        } else {
            cb as u32
        };
        if la != lb {
            return false;
        }
        i = i + 1;
    }
    true
}

/// The strategy a configuration keyword names: "none", "off" and "disabled"
/// select no precaching; "async" and "background" the background compile;
/// "full", "sync" and "synchronous" the synchronous compile; anything else is
/// unrecognized. Matching ignores ASCII case.
pub open spec fn spec_strategy_from_str(s: Seq<char>) -> Option<ShaderPrecacheStrategy> {
    if eq_ignore_ascii_case(s, "none"@) || eq_ignore_ascii_case(s, "off"@)
        || eq_ignore_ascii_case(s, "disabled"@) {
        Some(ShaderPrecacheStrategy::NoPrecache)
    } else if eq_ignore_ascii_case(s, "async"@) || eq_ignore_ascii_case(s, "background"@) {
        Some(ShaderPrecacheStrategy::Async)
    } else if eq_ignore_ascii_case(s, "full"@) || eq_ignore_ascii_case(s, "sync"@)
        || eq_ignore_ascii_case(s, "synchronous"@) {
        Some(ShaderPrecacheStrategy::Full)
    } else {
        None
    }
}

impl ShaderPrecacheStrategy {
    /// Get a human-readable description of the strategy.
    pub fn description(&self) -> (r: &'static str)
        ensures
            *self is NoPrecache ==> r@
                == "No precaching - fastest startup, potential runtime stalls"@,
            *self is Async ==> r@
                == "Async compilation - balanced startup and runtime performance"@,
            *self is Full ==> r@ == "Full precaching - slowest startup, smoothest runtime"@,
    {
        match self {
            ShaderPrecacheStrategy::NoPrecache => {
                "No precaching - fastest startup, potential runtime stalls"
            },
            ShaderPrecacheStrategy::Async => {
                "Async compilation - balanced startup and runtime performance"
            },
            ShaderPrecacheStrategy::Full => {
                "Full precaching - slowest startup, smoothest runtime"
            },
        }
    }

    /// Parse a strategy keyword from a configuration file or command line,
    /// ignoring ASCII case.
    pub fn from_str(s: &str) -> (r: Option<ShaderPrecacheStrategy>)
        ensures
            r == spec_strategy_from_str(s@),
    {
        if str_eq_ignore_ascii_case(s, "none") || str_eq_ignore_ascii_case(s, "off")
            || str_eq_ignore_ascii_case(s, "disabled") {
            Some(ShaderPrecacheStrategy::NoPrecache)
        } else if str_eq_ignore_ascii_case(s, "async") || str_eq_ignore_ascii_case(
            s,
            "background",
        ) {
            Some(ShaderPrecacheStrategy::Async)
        } else if str_eq_ignore_ascii_case(s, "full") || str_eq_ignore_ascii_case(s, "sync")
            || str_eq_ignore_ascii_case(s, "synchronous") {
            Some(ShaderPrecacheStrategy::Full)
        } else {
            None
        }
    }
}

/// Shader precaching configuration.
#[derive(Clone, Debug)]
pub struct ShaderPrecacheConfig {
    /// Precaching strategy.
    pub strategy: ShaderPrecacheStrategy,
    /// Use optimized (release) shaders even in debug builds.
    pub use_optimized_shaders: bool,
    /// Custom shader directory override (None = use the default).
    pub shader_dir: Option<String>,
}

impl Default for ShaderPrecacheConfig {
    /// Background compilation with optimized shaders from the default
    /// directory.
    fn default() -> (r: ShaderPrecacheConfig)
        ensures
            r.strategy == ShaderPrecacheStrategy::Async,
            r.use_optimized_shaders,
            r.shader_dir is None,
    {
        ShaderPrecacheConfig {
            strategy: ShaderPrecacheStrategy::Async,
            use_optimized_shaders: true,
            shader_dir: None,
        }
    }
}

impl ShaderPrecacheConfig {
    /// Create a config for fastest startup (development and testing).
    pub fn fast_startup() -> (r: ShaderPrecacheConfig)
        ensures
            r.strategy == ShaderPrecacheStrategy::NoPrecache,
            !r.use_optimized_shaders,
            r.shader_dir is None,
    {
        ShaderPrecacheConfig {
            strategy: ShaderPrecacheStrategy::NoPrecache,
            use_optimized_shaders: false,
            shader_dir: None,
        }
    }

    /// Create a config for smoothest runtime (production).
    pub fn smooth_runtime() -> (r: ShaderPrecacheConfig)
        ensures
            r.strategy == ShaderPrecacheStrategy::Full,
            r.use_optimized_shaders,
            r.shader_dir is None,
    {
        ShaderPrecacheConfig {
            strategy: ShaderPrecacheStrategy::Full,
            use_optimized_shaders: true,
            shader_dir: None,
        }
    }

    /// Create a config for balanced performance (the default).
    pub fn balanced() -> (r: ShaderPrecacheConfig)
        ensures
            r.strategy == ShaderPrecacheStrategy::Async,
            r.use_optimized_shaders,
            r.shader_dir is None,
    {
        ShaderPrecacheConfig {
            strategy: ShaderPrecacheStrategy::Async,
            use_optimized_shaders: true,
            shader_dir: None,
        }
    }
}

/// A counter increment that sticks at the maximum rather than wrapping.
pub open spec fn spec_saturating_inc_u32(x: u32) -> int {
    if x < u32::MAX {
        x + 1
    } else {
        x as int
    }
}

/// Shader compilation progress tracking.
#[derive(Clone, Copy, PartialEq, Eq, Structural, Debug)]
pub struct ShaderCompilationProgress {
    /// Total shaders to compile.
    pub total: u32,
    /// Shaders compiled so far.
    pub compiled: u32,
    /// Shaders that failed to compile.
    pub failed: u32,
    /// Whether compilation is complete.
    pub complete: bool,
}

impl ShaderCompilationProgress {
    /// Create a new progress tracker for `total` shaders.
    pub fn new(total: u32) -> (r: ShaderCompilationProgress)
        ensures
            r == (ShaderCompilationProgress {
                total,
                compiled: 0u32,
                failed: 0u32,
                complete: false,
            }),
    {
        ShaderCompilationProgress { total, compiled: 0, failed: 0, complete: false }
    }

    /// Get the completion percentage: processed shaders (compiled or failed)
    /// over the total; an empty batch counts as done.
    pub fn percentage(&self) -> (r: u64)
        ensures
            self.total == 0 ==> r == 100,
            self.total > 0 ==> r == (self.compiled + self.failed) * 100 / self.total as int,
    {
        if self.total == 0 {
            100
        } else {
            (((self.compiled as u64) + (self.failed as u64)) * 100 / (self.total as u64))
        }
    }

    /// Check whether any shaders failed.
    pub fn has_failures(&self) -> (r: bool)
        ensures
            r == (self.failed > 0),
    {
        self.failed > 0
    }

    /// Record one successfully compiled shader and refresh the completion
    /// flag.
    pub fn on_shader_compiled(&mut self)
        ensures
            final(self).compiled == spec_saturating_inc(old(self).compiled),
            final(self).failed == old(self).failed,
            final(self).total == old(self).total,
            final(self).complete == (old(self).complete || spec_saturating_inc(old(self).compiled)
                + old(self).failed >= old(self).total),
    {
        if self.compiled < u32::MAX {
            self.compiled = self.compiled + 1;
        }
        self.check_complete();
    }

    /// Record one failed shader and refresh the completion flag.
    pub fn on_shader_failed(&mut self)
        ensures
            final(self).failed == spec_saturating_inc(old(self).failed),
            final(self).compiled == old(self).compiled,
            final(self).total == old(self).total,
            final(self).complete == (old(self).complete || old(self).compiled
                + spec_saturating_inc(old(self).failed) >= old(self).total),
    {
        if self.failed < u32::MAX {
            self.failed = self.failed + 1;
        }
        self.check_complete();
    }

    /// Mark the batch complete once every shader has been processed. The flag
    /// is never cleared: completion is absorbing.
    pub fn check_complete(&mut self)
        ensures
            final(self).complete == (old(self).complete || old(self).compiled + old(self).failed
                >= old(self).total),
            final(self).total == old(self).total,
            final(self).compiled == old(self).compiled,
            final(self).failed == old(self).failed,
    {
        if (self.compiled as u64) + (self.failed as u64) >= (self.total as u64) {
            self.complete = true;
        }
    }
}

/// The saturating increment used by the progress counters.
pub open spec fn spec_saturating_inc(x: u32) -> int {
    spec_saturating_inc_u32(x)
}

/// Builder for a shader precache configuration.
pub struct ShaderPrecacheConfigBuilder {
    /// The configuration assembled so far.
    pub config: ShaderPrecacheConfig,
}

impl ShaderPrecacheConfigBuilder {
    /// Create a new builder with default settings.
    pub fn new() -> (r: ShaderPrecacheConfigBuilder)
        ensures
            r.config.strategy == ShaderPrecacheStrategy::Async,
            r.config.use_optimized_shaders,
            r.config.shader_dir is None,
    {
        ShaderPrecacheConfigBuilder {
            config: ShaderPrecacheConfig {
                strategy: ShaderPrecacheStrategy::Async,
                use_optimized_shaders: true,
                shader_dir: None,
            },
        }
    }

    /// Set the precaching strategy.
    pub fn strategy(self, strategy: ShaderPrecacheStrategy) -> (r: ShaderPrecacheConfigBuilder)
        ensures
            r.config == (ShaderPrecacheConfig { strategy, ..self.config }),
    {
        ShaderPrecacheConfigBuilder { config: ShaderPrecacheConfig { strategy, ..self.config } }
    }

    /// Set whether to use optimized shaders.
    pub fn use_optimized_shaders(self, use_optimized: bool) -> (r: ShaderPrecacheConfigBuilder)
        ensures
            r.config == (ShaderPrecacheConfig {
                use_optimized_shaders: use_optimized,
                ..self.config
            }),
    {
        ShaderPrecacheConfigBuilder {
            config: ShaderPrecacheConfig { use_optimized_shaders: use_optimized, ..self.config },
        }
    }

    /// Set a custom shader directory.
    pub fn shader_dir(self, dir: String) -> (r: ShaderPrecacheConfigBuilder)
        ensures
            r.config == (ShaderPrecacheConfig {
                shader_dir: Some(dir),
                ..self.config
            }),
    {
        ShaderPrecacheConfigBuilder {
            config: ShaderPrecacheConfig { shader_dir: Some(dir), ..self.config },
        }
    }

    /// Build the configuration.
    pub fn build(self) -> (r: ShaderPrecacheConfig)
        ensures
            r == self.config,
    {
        self.config
    }
}

impl Default for ShaderPrecacheConfigBuilder {
    fn default() -> (r: ShaderPrecacheConfigBuilder)
        ensures
            r.config.strategy == ShaderPrecacheStrategy::Async,
            r.config.use_optimized_shaders,
            r.config.shader_dir is None,
    {
        ShaderPrecacheConfigBuilder::new()
    }
}

// The renderer's shader precache flags are an outside type: declared here so
// the conversions below can hand it across, opaque to verification.
#[verifier::external_type_specification]
#[verifier::external_body]
pub struct ExShaderPrecacheFlags(webrender::ShaderPrecacheFlags);

/// Relies on webrender's `ShaderPrecacheFlags::empty`: the flag set that
/// requests no shader precompilation.
#[verifier::external_body]
fn precache_flags_empty() -> webrender::ShaderPrecacheFlags {
    webrender::ShaderPrecacheFlags::empty()
}

/// Relies on webrender's `ShaderPrecacheFlags::ASYNC_COMPILE`: the flag that
/// requests background shader compilation.
#[verifier::external_body]
fn precache_flags_async() -> webrender::ShaderPrecacheFlags {
    webrender::ShaderPrecacheFlags::ASYNC_COMPILE
}

/// Relies on webrender's `ShaderPrecacheFlags::FULL_COMPILE`: the flag that
/// requests full synchronous shader compilation at startup.
#[verifier::external_body]
fn precache_flags_full() -> webrender::ShaderPrecacheFlags {
    webrender::ShaderPrecacheFlags::FULL_COMPILE
}

impl ShaderPrecacheStrategy {
    /// Convert the strategy to the renderer's shader precache flags. The flag
    /// values are the renderer's own; nothing is stated of the opaque result.
    pub fn to_webrender_flags(self) -> webrender::ShaderPrecacheFlags {
        match self {
            ShaderPrecacheStrategy::NoPrecache => precache_flags_empty(),
            ShaderPrecacheStrategy::Async => precache_flags_async(),
            ShaderPrecacheStrategy::Full => precache_flags_full(),
        }
    }
}

impl ShaderPrecacheConfig {
    /// Convert the configured strategy to the renderer's shader precache
    /// flags.
    pub fn to_webrender_flags(&self) -> webrender::ShaderPrecacheFlags {
        self.strategy.to_webrender_flags()
    }
}

} // verus!
