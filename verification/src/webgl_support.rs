//! WebGL support infrastructure.
//!
//! WebGL configuration, capability decisions, a GPU blocklist, and per-
//! pipeline context bookkeeping so contexts can be cleaned up when pipelines
//! are removed.
//!
//! The GPU itself is out of reach here: the embedder queries the driver for
//! its renderer, vendor and version strings and the numeric limits, and hands
//! them in as plain values; every decision on them is made in this module.

use vstd::prelude::*;

verus! {

use crate::ids::PipelineId;
use crate::memory_pressure::{skip_ws, skip_token, is_ws_char};

/// WebGL configuration options.
#[derive(Clone, Copy, PartialEq, Eq, Structural, Debug)]
pub struct WebGLConfig {
    /// Enable WebGL support.
    pub enabled: bool,
    /// WebGL version to request.
    pub version: WebGLVersion,
    /// Allow software rendering fallback.
    pub allow_software_fallback: bool,
    /// Maximum texture size (0 = driver default).
    pub max_texture_size: u32,
    /// Enable WebGL debug mode (slower but more error checking).
    pub debug_mode: bool,
    /// Antialias preference.
    pub antialias: bool,
    /// Preserve the drawing buffer (needed for some use cases).
    pub preserve_drawing_buffer: bool,
}

/// The default WebGL configuration: enabled, requesting WebGL 2 with
/// antialiasing, software fallback allowed.
pub open spec fn spec_default_webgl_config() -> WebGLConfig {
    WebGLConfig {
        enabled: true,
        version: WebGLVersion::WebGL2,
        allow_software_fallback: true,
        max_texture_size: 0u32,
        debug_mode: false,
        antialias: true,
        preserve_drawing_buffer: false,
    }
}

impl Default for WebGLConfig {
    fn default() -> (r: WebGLConfig)
        ensures
            r == spec_default_webgl_config(),
    {
        WebGLConfig {
            enabled: true,
            version: WebGLVersion::WebGL2,
            allow_software_fallback: true,
            max_texture_size: 0,
            debug_mode: false,
            antialias: true,
            preserve_drawing_buffer: false,
        }
    }
}

/// WebGL version selector.
#[derive(Clone, Copy, PartialEq, Eq, Structural, Debug, Hash)]
pub enum WebGLVersion {
    /// WebGL 1.0 (OpenGL ES 2.0).
    WebGL1,
    /// WebGL 2.0 (OpenGL ES 3.0).
    WebGL2,
}

impl Default for WebGLVersion {
    fn default() -> (r: WebGLVersion)
        ensures
            r == WebGLVersion::WebGL2,
    {
        WebGLVersion::WebGL2
    }
}

/// Result of a WebGL initialization attempt.
#[derive(Debug)]
pub enum WebGLInitResult {
    /// WebGL initialized successfully.
    Success {
        /// Actual WebGL version initialized.
        version: WebGLVersion,
        /// GPU renderer string.
        renderer: String,
        /// GPU vendor string.
        vendor: String,
        /// Maximum texture size supported.
        max_texture_size: i32,
    },
    /// WebGL initialization failed.
    Failed {
        /// Reason for the failure.
        reason: String,
    },
    /// WebGL disabled by configuration.
    Disabled,
}

/// `needle` occurs in `hay` starting at index `i`.
pub open spec fn contains_at(hay: Seq<char>, needle: Seq<char>, i: int) -> bool {
    &&& 0 <= i
    &&& i + needle.len() <= hay.len()
    &&& forall|j: int| 0 <= j < needle.len() ==> hay[i + j] == #[trigger] needle[j]
}

/// `needle` occurs somewhere in `hay` (substring containment).
pub open spec fn str_contains(hay: Seq<char>, needle: Seq<char>) -> bool {
    exists|i: int| contains_at(hay, needle, i)
}

/// Whether `needle` occurs in `hay` as a contiguous substring.
fn contains_str(hay: &str, needle: &str) -> (r: bool)
    ensures
        r == str_contains(hay@, needle@),
{
    let hn = hay.unicode_len();
    let nn = needle.unicode_len();
    if nn > hn {
        assert(forall|i: int| !contains_at(hay@, needle@, i));
        return false;
    }
    let mut i: usize = 0;
    while i <= hn - nn
        invariant
            0 <= i <= hn - nn + 1,
            nn <= hn,
            hn == hay@.len(),
            nn == needle@.len(),
            forall|k: int| 0 <= k < i ==> !contains_at(hay@, needle@, k),
        decreases hn - nn - i + 1,
    {
        let mut j: usize = 0;
        let mut matches: bool = true;
        while j < nn
            invariant_except_break
                matches == (forall|t: int| 0 <= t < j ==> hay@[i + t] == #[trigger] needle@[t]),
            invariant
                0 <= j <= nn,
                0 <= i <= hn - nn,
                nn <= hn,
                hn == hay@.len(),
                nn == needle@.len(),
            ensures
                matches ==> contains_at(hay@, needle@, i as int),
                !matches ==> !contains_at(hay@, needle@, i as int),
            decreases nn - j,
        {
            if hay.get_char(i + j) != needle.get_char(j) {
                matches = false;
                proof {
                    assert(hay@[i + j as int] != needle@[j as int]);
                    assert(!contains_at(hay@, needle@, i as int));
                }
                break;
            }
            j = j + 1;
        }
        if matches {
            return true;
        }
        i = i + 1;
    }
    assert(forall|k: int| !contains_at(hay@, needle@, k)) by {
        assert(forall|k: int| k > hn - nn ==> !contains_at(hay@, needle@, k));
    }
    false
}

/// The GL version string advertises OpenGL ES 3 support (or a desktop GL able
/// to provide it).
pub open spec fn spec_supports_gles3(version_string: Seq<char>) -> bool {
    ||| str_contains(version_string, "OpenGL ES 3"@)
    ||| str_contains(version_string, "4."@)
    ||| str_contains(version_string, "3."@)
}

/// The WebGL version granted for a request against the driver's version
/// string: WebGL 2 only when it was requested and the driver supports
/// OpenGL ES 3, WebGL 1 otherwise.
pub open spec fn spec_webgl_version_choice(requested: WebGLVersion, version_string: Seq<char>)
    -> WebGLVersion {
    if requested == WebGLVersion::WebGL2 && spec_supports_gles3(version_string) {
        WebGLVersion::WebGL2
    } else {
        WebGLVersion::WebGL1
    }
}

/// Initialize WebGL support from the driver's identification strings and
/// texture limit, as queried by the embedder: disabled configurations give
/// `Disabled`; otherwise the requested version is granted when the driver
/// supports it and WebGL 1 is the fallback.
pub fn init_webgl(
    config: &WebGLConfig,
    renderer: String,
    vendor: String,
    version_string: String,
    max_texture_size: i32,
) -> (r: WebGLInitResult)
    ensures
        !config.enabled ==> r is Disabled,
        config.enabled ==> (r matches WebGLInitResult::Success {
            version: v,
            renderer: rr,
            vendor: vv,
            max_texture_size: m,
        } && v == spec_webgl_version_choice(config.version, version_string@) && rr == renderer
            && vv == vendor && m == max_texture_size),
{
    if !config.enabled {
        return WebGLInitResult::Disabled;
    }
    let supports_gles3 = contains_str(version_string.as_str(), "OpenGL ES 3") || contains_str(
        version_string.as_str(),
        "4.",
    ) || contains_str(version_string.as_str(), "3.");
    let actual_version = if config.version == WebGLVersion::WebGL2 && supports_gles3 {
        WebGLVersion::WebGL2
    } else {
        WebGLVersion::WebGL1
    };
    WebGLInitResult::Success { version: actual_version, renderer, vendor, max_texture_size }
}

/// GPU blocklist entry for known problematic hardware.
#[derive(Clone, Debug)]
pub struct GPUBlocklistEntry {
    /// Vendor pattern (substring match).
    pub vendor_pattern: String,
    /// Device/renderer pattern (substring match).
    pub device_pattern: String,
    /// Reason for blocking.
    pub reason: String,
    /// Blocked WebGL versions (empty = all versions).
    pub blocked_versions: Vec<WebGLVersion>,
}

/// Whether this blocklist entry blocks the given GPU for the given WebGL
/// version: both patterns occur in the identification strings, and the
/// version is among the blocked ones (an empty list blocking all).
pub open spec fn spec_entry_blocks(
    e: GPUBlocklistEntry,
    vendor: Seq<char>,
    renderer: Seq<char>,
    version: WebGLVersion,
) -> bool {
    &&& str_contains(vendor, e.vendor_pattern@)
    &&& str_contains(renderer, e.device_pattern@)
    &&& (e.blocked_versions@.len() == 0 || e.blocked_versions@.contains(version))
}

/// Index of the first blocklist entry that blocks the given GPU, or -1.
pub open spec fn spec_first_blocking(
    entries: Seq<GPUBlocklistEntry>,
    vendor: Seq<char>,
    renderer: Seq<char>,
    version: WebGLVersion,
) -> int
    decreases entries.len(),
{
    if entries.len() == 0 {
        -1
    } else if spec_entry_blocks(entries[0], vendor, renderer, version) {
        0
    } else {
        let r = spec_first_blocking(entries.drop_first(), vendor, renderer, version);
        if r >= 0 {
            r + 1
        } else {
            -1
        }
    }
}

proof fn lemma_first_blocking_none(
    entries: Seq<GPUBlocklistEntry>,
    vendor: Seq<char>,
    renderer: Seq<char>,
    version: WebGLVersion,
)
    requires
        forall|k: int|
            0 <= k < entries.len() ==> !spec_entry_blocks(
                #[trigger] entries[k],
                vendor,
                renderer,
                version,
            ),
    ensures
        spec_first_blocking(entries, vendor, renderer, version) == -1,
    decreases entries.len(),
{
    if entries.len() > 0 {
        assert(forall|k: int|
            0 <= k < entries.drop_first().len() ==> #[trigger] entries.drop_first()[k] == entries[
                k + 1
            ]);
        lemma_first_blocking_none(entries.drop_first(), vendor, renderer, version);
    }
}

proof fn lemma_first_blocking_at(
    entries: Seq<GPUBlocklistEntry>,
    vendor: Seq<char>,
    renderer: Seq<char>,
    version: WebGLVersion,
    i: int,
)
    requires
        0 <= i < entries.len(),
        forall|k: int|
            0 <= k < i ==> !spec_entry_blocks(#[trigger] entries[k], vendor, renderer, version),
        spec_entry_blocks(entries[i], vendor, renderer, version),
    ensures
        spec_first_blocking(entries, vendor, renderer, version) == i,
    decreases i,
{
    if i > 0 {
        assert(forall|k: int|
            0 <= k < entries.drop_first().len() ==> #[trigger] entries.drop_first()[k] == entries[
                k + 1
            ]);
        lemma_first_blocking_at(entries.drop_first(), vendor, renderer, version, i - 1);
    }
}

/// Whether a vector of versions contains the given version.
fn versions_contain(versions: &Vec<WebGLVersion>, version: WebGLVersion) -> (r: bool)
    ensures
        r == versions@.contains(version),
{
    let mut i: usize = 0;
    while i < versions.len()
        invariant
            0 <= i <= versions@.len(),
            forall|k: int| 0 <= k < i ==> versions@[k] != version,
        decreases versions@.len() - i,
    {
        if versions[i] == version {
            return true;
        }
        i = i + 1;
    }
    assert(!versions@.contains(version));
    false
}

/// The default GPU blocklist for known problematic hardware: the software
/// renderers that cannot sustain WebGL 2.
pub fn default_gpu_blocklist() -> (r: Vec<GPUBlocklistEntry>)
    ensures
        r@.len() == 2,
        r@[0].vendor_pattern@ == "Microsoft"@,
        r@[0].device_pattern@ == "Basic Render Driver"@,
        r@[0].blocked_versions@ == seq![WebGLVersion::WebGL2],
        r@[1].vendor_pattern@ == "VMware"@,
        r@[1].device_pattern@ == "SVGA3D"@,
        r@[1].blocked_versions@ == seq![WebGLVersion::WebGL2],
{
    let mut blocked1: Vec<WebGLVersion> = Vec::new();
    blocked1.push(WebGLVersion::WebGL2);
    let mut blocked2: Vec<WebGLVersion> = Vec::new();
    blocked2.push(WebGLVersion::WebGL2);
    let mut r: Vec<GPUBlocklistEntry> = Vec::new();
    r.push(
        GPUBlocklistEntry {
            vendor_pattern: "Microsoft".to_owned(),
            device_pattern: "Basic Render Driver".to_owned(),
            reason: "Software renderer - poor WebGL performance".to_owned(),
            blocked_versions: blocked1,
        },
    );
    r.push(
        GPUBlocklistEntry {
            vendor_pattern: "VMware".to_owned(),
            device_pattern: "SVGA3D".to_owned(),
            reason: "Virtual GPU with limited WebGL 2 support".to_owned(),
            blocked_versions: blocked2,
        },
    );
    proof {
        assert(blocked1@ =~= seq![WebGLVersion::WebGL2]);
        assert(blocked2@ =~= seq![WebGLVersion::WebGL2]);
    }
    r
}

/// Check whether the current GPU is on the blocklist for the requested WebGL
/// version; the first blocking entry wins.
pub fn is_gpu_blocked<'a>(
    vendor: &str,
    renderer: &str,
    blocklist: &'a [GPUBlocklistEntry],
    version: WebGLVersion,
) -> (r: Option<&'a GPUBlocklistEntry>)
    ensures
        match r {
            Some(e) => {
                &&& spec_first_blocking(blocklist@, vendor@, renderer@, version) >= 0
                &&& *e == blocklist@[spec_first_blocking(blocklist@, vendor@, renderer@, version)]
            },
            None => spec_first_blocking(blocklist@, vendor@, renderer@, version) == -1,
        },
{
    let mut i: usize = 0;
    while i < blocklist.len()
        invariant
            0 <= i <= blocklist@.len(),
            forall|k: int|
                0 <= k < i ==> !spec_entry_blocks(
                    #[trigger] blocklist@[k],
                    vendor@,
                    renderer@,
                    version,
                ),
        decreases blocklist@.len() - i,
    {
        let entry = &blocklist[i];
        let vendor_match = contains_str(vendor, entry.vendor_pattern.as_str());
        let device_match = contains_str(renderer, entry.device_pattern.as_str());
        if vendor_match && device_match {
            if entry.blocked_versions.len() == 0 || versions_contain(
                &entry.blocked_versions,
                version,
            ) {
                proof {
                    lemma_first_blocking_at(blocklist@, vendor@, renderer@, version, i as int);
                }
                return Some(entry);
            }
        }
        i = i + 1;
    }
    proof {
        lemma_first_blocking_none(blocklist@, vendor@, renderer@, version);
    }
    None
}

/// Unique identifier for a WebGL context. Identifiers are allocated by the
/// context manager from a private counter, so two registered contexts never
/// share one.
#[derive(Clone, Copy, PartialEq, Eq, Structural, Debug, Hash)]
pub struct WebGLContextId(pub u64);

impl WebGLContextId {
    /// Wrap a raw context id value.
    pub fn new(raw: u64) -> (r: WebGLContextId)
        ensures
            r == WebGLContextId(raw),
    {
        WebGLContextId(raw)
    }

    /// Get the raw id value.
    pub fn id(&self) -> (r: u64)
        ensures
            r == self.0,
    {
        self.0
    }
}

/// State of one WebGL context.
#[derive(Clone, Copy, PartialEq, Eq, Structural, Debug)]
pub struct WebGLContextState {
    /// Unique context identifier.
    pub id: WebGLContextId,
    /// Width of the context in pixels.
    pub width: u32,
    /// Height of the context in pixels.
    pub height: u32,
    /// WebGL version.
    pub version: WebGLVersion,
    /// Whether the context is lost.
    pub is_lost: bool,
    /// The image key under which the renderer composites this context, once
    /// assigned.
    pub image_key: Option<crate::resource_tracker::ImageKey>,
}

impl WebGLContextState {
    /// Create a new context state: not lost, no image key yet.
    pub fn new(id: WebGLContextId, width: u32, height: u32, version: WebGLVersion) -> (r:
        WebGLContextState)
        ensures
            r == (WebGLContextState {
                id,
                width,
                height,
                version,
                is_lost: false,
                image_key: None,
            }),
    {
        WebGLContextState { id, width, height, version, is_lost: false, image_key: None }
    }

    /// Resize the context.
    pub fn resize(&mut self, width: u32, height: u32)
        ensures
            *final(self) == (WebGLContextState { width, height, ..*old(self) }),
    {
        self.width = width;
        self.height = height;
    }

    /// Mark the context as lost.
    pub fn mark_lost(&mut self)
        ensures
            *final(self) == (WebGLContextState { is_lost: true, ..*old(self) }),
    {
        self.is_lost = true;
    }

    /// Mark the context as restored.
    pub fn mark_restored(&mut self)
        ensures
            *final(self) == (WebGLContextState { is_lost: false, ..*old(self) }),
    {
        self.is_lost = false;
    }
}

/// Index of the context with the given id, or -1 when there is none.
pub open spec fn find_ctx(s: Seq<WebGLContextState>, id: WebGLContextId) -> int
    decreases s.len(),
{
    if s.len() == 0 {
        -1
    } else if s[0].id == id {
        0
    } else {
        let r = find_ctx(s.drop_first(), id);
        if r >= 0 {
            r + 1
        } else {
            -1
        }
    }
}

proof fn lemma_find_ctx_none(s: Seq<WebGLContextState>, id: WebGLContextId)
    requires
        forall|k: int| 0 <= k < s.len() ==> (#[trigger] s[k]).id != id,
    ensures
        find_ctx(s, id) == -1,
    decreases s.len(),
{
    if s.len() > 0 {
        assert(forall|k: int|
            0 <= k < s.drop_first().len() ==> #[trigger] s.drop_first()[k] == s[k + 1]);
        lemma_find_ctx_none(s.drop_first(), id);
    }
}

proof fn lemma_find_ctx_at(s: Seq<WebGLContextState>, id: WebGLContextId, i: int)
    requires
        0 <= i < s.len(),
        forall|k: int| 0 <= k < i ==> (#[trigger] s[k]).id != id,
        s[i].id == id,
    ensures
        find_ctx(s, id) == i,
    decreases i,
{
    if i > 0 {
        assert(forall|k: int|
            0 <= k < s.drop_first().len() ==> #[trigger] s.drop_first()[k] == s[k + 1]);
        lemma_find_ctx_at(s.drop_first(), id, i - 1);
    }
}

/// Index of the entry for the given pipeline, or -1 when there is none.
pub open spec fn find_pipeline(
    s: Seq<(PipelineId, Vec<WebGLContextId>)>,
    pipeline_id: PipelineId,
) -> int
    decreases s.len(),
{
    if s.len() == 0 {
        -1
    } else if s[0].0 == pipeline_id {
        0
    } else {
        let r = find_pipeline(s.drop_first(), pipeline_id);
        if r >= 0 {
            r + 1
        } else {
            -1
        }
    }
}

proof fn lemma_find_pipeline_none(s: Seq<(PipelineId, Vec<WebGLContextId>)>, pipeline_id: PipelineId)
    requires
        forall|k: int| 0 <= k < s.len() ==> (#[trigger] s[k]).0 != pipeline_id,
    ensures
        find_pipeline(s, pipeline_id) == -1,
    decreases s.len(),
{
    if s.len() > 0 {
        assert(forall|k: int|
            0 <= k < s.drop_first().len() ==> #[trigger] s.drop_first()[k] == s[k + 1]);
        lemma_find_pipeline_none(s.drop_first(), pipeline_id);
    }
}

proof fn lemma_find_pipeline_at(
    s: Seq<(PipelineId, Vec<WebGLContextId>)>,
    pipeline_id: PipelineId,
    i: int,
)
    requires
        0 <= i < s.len(),
        forall|k: int| 0 <= k < i ==> (#[trigger] s[k]).0 != pipeline_id,
        s[i].0 == pipeline_id,
    ensures
        find_pipeline(s, pipeline_id) == i,
    decreases i,
{
    if i > 0 {
        assert(forall|k: int|
            0 <= k < s.drop_first().len() ==> #[trigger] s.drop_first()[k] == s[k + 1]);
        lemma_find_pipeline_at(s.drop_first(), pipeline_id, i - 1);
    }
}

/// The contexts whose ids are in the given list, in bookkeeping order.
pub open spec fn ctxs_with_ids(s: Seq<WebGLContextState>, ids: Seq<WebGLContextId>) -> Seq<
    WebGLContextState,
> {
    s.filter(|st: WebGLContextState| ids.contains(st.id))
}

/// The contexts whose ids are not in the given list, in bookkeeping order.
pub open spec fn ctxs_without_ids(s: Seq<WebGLContextState>, ids: Seq<WebGLContextId>) -> Seq<
    WebGLContextState,
> {
    s.filter(|st: WebGLContextState| !ids.contains(st.id))
}

proof fn lemma_ctxs_partition_push(
    s: Seq<WebGLContextState>,
    st: WebGLContextState,
    ids: Seq<WebGLContextId>,
)
    ensures
        ctxs_with_ids(s.push(st), ids) == if ids.contains(st.id) {
            ctxs_with_ids(s, ids).push(st)
        } else {
            ctxs_with_ids(s, ids)
        },
        ctxs_without_ids(s.push(st), ids) == if !ids.contains(st.id) {
            ctxs_without_ids(s, ids).push(st)
        } else {
            ctxs_without_ids(s, ids)
        },
{
    reveal(Seq::filter);
    assert(s.push(st).drop_last() =~= s);
}

/// A context id list with every occurrence of `id` removed.
pub open spec fn ids_without(s: Seq<WebGLContextId>, id: WebGLContextId) -> Seq<WebGLContextId> {
    s.filter(|x: WebGLContextId| x != id)
}

proof fn lemma_ids_without_push(s: Seq<WebGLContextId>, x: WebGLContextId, id: WebGLContextId)
    ensures
        ids_without(s.push(x), id) == if x != id {
            ids_without(s, id).push(x)
        } else {
            ids_without(s, id)
        },
{
    reveal(Seq::filter);
    assert(s.push(x).drop_last() =~= s);
}

/// Remove every occurrence of `id` from a context id list, keeping order.
fn retain_without_ctx_id(ids: &mut Vec<WebGLContextId>, id: WebGLContextId)
    ensures
        final(ids)@ == ids_without(old(ids)@, id),
{
    let mut kept: Vec<WebGLContextId> = Vec::new();
    let mut i: usize = 0;
    while i < ids.len()
        invariant
            i <= ids@.len(),
            kept@ == ids_without(ids@.subrange(0, i as int), id),
        decreases ids@.len() - i,
    {
        let x = ids[i];
        proof {
            assert(ids@.subrange(0, i as int + 1) =~= ids@.subrange(0, i as int).push(
                ids@[i as int],
            ));
            lemma_ids_without_push(ids@.subrange(0, i as int), ids@[i as int], id);
        }
        if x != id {
            kept.push(x);
        }
        i = i + 1;
    }
    proof {
        assert(ids@.subrange(0, ids@.len() as int) =~= ids@);
    }
    *ids = kept;
}

/// Whether a context id list contains the given id.
fn ids_contain(ids: &Vec<WebGLContextId>, id: WebGLContextId) -> (r: bool)
    ensures
        r == ids@.contains(id),
{
    let mut i: usize = 0;
    while i < ids.len()
        invariant
            0 <= i <= ids@.len(),
            forall|k: int| 0 <= k < i ==> ids@[k] != id,
        decreases ids@.len() - i,
    {
        if ids[i] == id {
            return true;
        }
        i = i + 1;
    }
    assert(!ids@.contains(id));
    false
}

/// Manager for WebGL contexts: tracks every context in the application,
/// organized by pipeline, so contexts can be cleaned up when their pipeline
/// is removed. Context ids come from the manager's own counter.
#[derive(Clone, Debug)]
pub struct WebGLContextManager {
    /// All live contexts, in registration order.
    pub contexts: Vec<WebGLContextState>,
    /// Each pipeline's context ids, one entry per pipeline.
    pub pipeline_contexts: Vec<(PipelineId, Vec<WebGLContextId>)>,
    /// The next context id to hand out.
    pub next_context_id: u64,
    /// Configuration.
    pub config: WebGLConfig,
}

impl WebGLContextManager {
    /// The manager's bookkeeping is consistent: every live context id is
    /// below the allocation counter, no two contexts share an id, and no two
    /// entries track the same pipeline.
    pub open spec fn wf(self) -> bool {
        &&& forall|i: int|
            0 <= i < self.contexts@.len() ==> (#[trigger] self.contexts@[i]).id.0
                < self.next_context_id
        &&& forall|i: int, j: int|
            0 <= i < j < self.contexts@.len() ==> (#[trigger] self.contexts@[i]).id != (
            #[trigger] self.contexts@[j]).id
        &&& forall|i: int, j: int|
            0 <= i < j < self.pipeline_contexts@.len() ==> (
            #[trigger] self.pipeline_contexts@[i]).0 != (
            #[trigger] self.pipeline_contexts@[j]).0
    }

    /// Create a new context manager.
    pub fn new(config: WebGLConfig) -> (r: WebGLContextManager)
        ensures
            r.wf(),
            r.contexts@.len() == 0,
            r.pipeline_contexts@.len() == 0,
            r.next_context_id == 1,
            r.config == config,
    {
        WebGLContextManager {
            contexts: Vec::new(),
            pipeline_contexts: Vec::new(),
            next_context_id: 1,
            config,
        }
    }

    /// Register a new WebGL context for a pipeline: a fresh id is allocated,
    /// the context is appended to the bookkeeping, and the pipeline's entry
    /// gains the id (a first context creates the entry).
    pub fn register_context(
        &mut self,
        pipeline_id: PipelineId,
        width: u32,
        height: u32,
        version: WebGLVersion,
    ) -> (r: WebGLContextId)
        requires
            old(self).wf(),
            old(self).next_context_id < u64::MAX,
        ensures
            r == WebGLContextId(old(self).next_context_id),
            find_ctx(old(self).contexts@, r) == -1,
            final(self).contexts@ == old(self).contexts@.push(
                WebGLContextState {
                    id: r,
                    width,
                    height,
                    version,
                    is_lost: false,
                    image_key: None,
                },
            ),
            final(self).next_context_id == old(self).next_context_id + 1,
            final(self).config == old(self).config,
            final(self).pipeline_contexts@.len() == if find_pipeline(
                old(self).pipeline_contexts@,
                pipeline_id,
            ) >= 0 {
                old(self).pipeline_contexts@.len() as int
            } else {
                old(self).pipeline_contexts@.len() as int + 1
            },
            find_pipeline(old(self).pipeline_contexts@, pipeline_id) >= 0 ==> {
                let j = find_pipeline(old(self).pipeline_contexts@, pipeline_id);
                &&& final(self).pipeline_contexts@[j].0 == pipeline_id
                &&& final(self).pipeline_contexts@[j].1@ == old(
                    self,
                ).pipeline_contexts@[j].1@.push(r)
                &&& forall|k: int|
                    0 <= k < old(self).pipeline_contexts@.len() && k != j
                        ==> #[trigger] final(self).pipeline_contexts@[k] == old(
                        self,
                    ).pipeline_contexts@[k]
            },
            find_pipeline(old(self).pipeline_contexts@, pipeline_id) == -1 ==> {
                &&& final(self).pipeline_contexts@[old(self).pipeline_contexts@.len() as int].0
                    == pipeline_id
                &&& final(self).pipeline_contexts@[old(
                    self,
                ).pipeline_contexts@.len() as int].1@ == seq![r]
                &&& forall|k: int|
                    0 <= k < old(self).pipeline_contexts@.len()
                        ==> #[trigger] final(self).pipeline_contexts@[k] == old(
                        self,
                    ).pipeline_contexts@[k]
            },
            final(self).wf(),
    {
        let id = WebGLContextId(self.next_context_id);
        self.next_context_id = self.next_context_id + 1;
        proof {
            lemma_find_ctx_none(self.contexts@, id);
        }
        let state = WebGLContextState {
            id,
            width,
            height,
            version,
            is_lost: false,
            image_key: None,
        };
        self.contexts.push(state);

        let ghost entries = self.pipeline_contexts@;
        let n = self.pipeline_contexts.len();
        let mut j: usize = 0;
        while j < n
            invariant
                0 <= j <= n,
                n == entries.len(),
                self.pipeline_contexts@ == entries,
                forall|k: int| 0 <= k < j ==> (#[trigger] entries[k]).0 != pipeline_id,
            ensures
                0 <= j <= n,
                self.pipeline_contexts@ == entries,
                forall|k: int| 0 <= k < j ==> (#[trigger] entries[k]).0 != pipeline_id,
                j < n ==> entries[j as int].0 == pipeline_id,
            decreases n - j,
        {
            if self.pipeline_contexts[j].0 == pipeline_id {
                break;
            }
            j = j + 1;
        }

        if j < n {
            proof {
                lemma_find_pipeline_at(entries, pipeline_id, j as int);
            }
            let mut entry: (PipelineId, Vec<WebGLContextId>) = (
                PipelineId { namespace_id: 0, index: 0 },
                Vec::new(),
            );
            self.pipeline_contexts.set_and_swap(j, &mut entry);
            entry.1.push(id);
            self.pipeline_contexts.set_and_swap(j, &mut entry);
            proof {
                assert(self.pipeline_contexts@ =~= entries.update(
                    j as int,
                    (pipeline_id, self.pipeline_contexts@[j as int].1),
                ));
            }
        } else {
            proof {
                lemma_find_pipeline_none(entries, pipeline_id);
            }
            let mut ids: Vec<WebGLContextId> = Vec::new();
            ids.push(id);
            proof {
                assert(ids@ =~= seq![id]);
            }
            self.pipeline_contexts.push((pipeline_id, ids));
        }
        id
    }

    /// Get a context by id.
    pub fn get_context(&self, id: WebGLContextId) -> (r: Option<&WebGLContextState>)
        ensures
            match r {
                Some(st) => find_ctx(self.contexts@, id) >= 0 && *st == self.contexts@[find_ctx(
                    self.contexts@,
                    id,
                )],
                None => find_ctx(self.contexts@, id) == -1,
            },
    {
        let mut i: usize = 0;
        while i < self.contexts.len()
            invariant
                0 <= i <= self.contexts@.len(),
                forall|k: int| 0 <= k < i ==> (#[trigger] self.contexts@[k]).id != id,
            decreases self.contexts@.len() - i,
        {
            if self.contexts[i].id == id {
                proof {
                    lemma_find_ctx_at(self.contexts@, id, i as int);
                }
                return Some(&self.contexts[i]);
            }
            i = i + 1;
        }
        proof {
            lemma_find_ctx_none(self.contexts@, id);
        }
        None
    }

    /// Remove a specific context: its state is handed back and its id leaves
    /// every pipeline's list; removing an unknown id is a no-op.
    pub fn remove_context(&mut self, id: WebGLContextId) -> (r: Option<WebGLContextState>)
        requires
            old(self).wf(),
        ensures
            match r {
                Some(st) => {
                    &&& find_ctx(old(self).contexts@, id) >= 0
                    &&& st == old(self).contexts@[find_ctx(old(self).contexts@, id)]
                    &&& final(self).contexts@ == old(self).contexts@.remove(
                        find_ctx(old(self).contexts@, id),
                    )
                    &&& final(self).pipeline_contexts@.len() == old(
                        self,
                    ).pipeline_contexts@.len()
                    &&& forall|k: int|
                        0 <= k < old(self).pipeline_contexts@.len() ==> (
                        #[trigger] final(self).pipeline_contexts@[k]).0 == old(
                            self,
                        ).pipeline_contexts@[k].0 && final(self).pipeline_contexts@[k].1@
                            == ids_without(old(self).pipeline_contexts@[k].1@, id)
                },
                None => find_ctx(old(self).contexts@, id) == -1 && *final(self) == *old(self),
            },
            final(self).next_context_id == old(self).next_context_id,
            final(self).config == old(self).config,
            final(self).wf(),
    {
        let n = self.contexts.len();
        let mut i: usize = 0;
        while i < n
            invariant
                0 <= i <= n,
                n == self.contexts@.len(),
                forall|k: int| 0 <= k < i ==> (#[trigger] self.contexts@[k]).id != id,
            ensures
                0 <= i <= n,
                n == self.contexts@.len(),
                forall|k: int| 0 <= k < i ==> (#[trigger] self.contexts@[k]).id != id,
                i < n ==> self.contexts@[i as int].id == id,
            decreases n - i,
        {
            if self.contexts[i].id == id {
                break;
            }
            i = i + 1;
        }
        if i >= n {
            proof {
                lemma_find_ctx_none(self.contexts@, id);
            }
            return None;
        }
        proof {
            lemma_find_ctx_at(self.contexts@, id, i as int);
        }
        let state = self.contexts.remove(i);
        let ghost ctxs_now = self.contexts@;

        // Remove the id from every pipeline's list.
        let ghost entries = self.pipeline_contexts@;
        let m = self.pipeline_contexts.len();
        let mut k: usize = 0;
        while k < m
            invariant
                0 <= k <= m,
                m == self.pipeline_contexts@.len(),
                m == entries.len(),
                self.contexts@ == ctxs_now,
                self.next_context_id == old(self).next_context_id,
                self.config == old(self).config,
                forall|t: int|
                    k <= t < m ==> #[trigger] self.pipeline_contexts@[t] == entries[t],
                forall|t: int|
                    0 <= t < k ==> (#[trigger] self.pipeline_contexts@[t]).0 == entries[t].0
                        && self.pipeline_contexts@[t].1@ == ids_without(entries[t].1@, id),
            decreases m - k,
        {
            let mut entry: (PipelineId, Vec<WebGLContextId>) = (
                PipelineId { namespace_id: 0, index: 0 },
                Vec::new(),
            );
            self.pipeline_contexts.set_and_swap(k, &mut entry);
            retain_without_ctx_id(&mut entry.1, id);
            self.pipeline_contexts.set_and_swap(k, &mut entry);
            k = k + 1;
        }
        proof {
            let oldc = old(self).contexts@;
            let newc = self.contexts@;
            assert(newc == oldc.remove(i as int));
            assert forall|i2: int, j2: int|
                0 <= i2 < j2 < newc.len() implies (#[trigger] newc[i2]).id != (
            #[trigger] newc[j2]).id by {
                let a = if i2 < i as int {
                    i2
                } else {
                    i2 + 1
                };
                let b = if j2 < i as int {
                    j2
                } else {
                    j2 + 1
                };
                assert(newc[i2] == oldc[a]);
                assert(newc[j2] == oldc[b]);
            }
            assert forall|t: int|
                0 <= t < newc.len() implies (#[trigger] newc[t]).id.0
                < self.next_context_id by {
                let a = if t < i as int {
                    t
                } else {
                    t + 1
                };
                assert(newc[t] == oldc[a]);
            }
        }
        Some(state)
    }

    /// Remove all contexts for a pipeline: its bookkeeping entry disappears
    /// and the states of exactly the listed contexts are handed back for
    /// cleanup.
    pub fn remove_pipeline_contexts(&mut self, pipeline_id: PipelineId) -> (r: Vec<
        WebGLContextState,
    >)
        requires
            old(self).wf(),
        ensures
            find_pipeline(old(self).pipeline_contexts@, pipeline_id) == -1 ==> *final(self)
                == *old(self) && r@.len() == 0,
            find_pipeline(old(self).pipeline_contexts@, pipeline_id) >= 0 ==> {
                let j = find_pipeline(old(self).pipeline_contexts@, pipeline_id);
                let ids = old(self).pipeline_contexts@[j].1@;
                &&& final(self).pipeline_contexts@ == old(self).pipeline_contexts@.remove(j)
                &&& r@ == ctxs_with_ids(old(self).contexts@, ids)
                &&& final(self).contexts@ == ctxs_without_ids(old(self).contexts@, ids)
                &&& find_pipeline(final(self).pipeline_contexts@, pipeline_id) == -1
            },
            final(self).next_context_id == old(self).next_context_id,
            final(self).config == old(self).config,
            final(self).wf(),
    {
        let ghost entries = self.pipeline_contexts@;
        let m = self.pipeline_contexts.len();
        let mut j: usize = 0;
        while j < m
            invariant
                0 <= j <= m,
                m == entries.len(),
                self.pipeline_contexts@ == entries,
                forall|k: int| 0 <= k < j ==> (#[trigger] entries[k]).0 != pipeline_id,
            ensures
                0 <= j <= m,
                self.pipeline_contexts@ == entries,
                forall|k: int| 0 <= k < j ==> (#[trigger] entries[k]).0 != pipeline_id,
                j < m ==> entries[j as int].0 == pipeline_id,
            decreases m - j,
        {
            if self.pipeline_contexts[j].0 == pipeline_id {
                break;
            }
            j = j + 1;
        }
        if j >= m {
            proof {
                lemma_find_pipeline_none(entries, pipeline_id);
            }
            return Vec::new();
        }
        proof {
            lemma_find_pipeline_at(entries, pipeline_id, j as int);
        }
        let entry = self.pipeline_contexts.remove(j);
        let ids = entry.1;

        // Partition the contexts on membership in the removed list.
        let mut removed: Vec<WebGLContextState> = Vec::new();
        let mut kept: Vec<WebGLContextState> = Vec::new();
        let n = self.contexts.len();
        let mut i: usize = 0;
        while i < n
            invariant
                0 <= i <= n,
                n == self.contexts@.len(),
                removed@ == ctxs_with_ids(self.contexts@.subrange(0, i as int), ids@),
                kept@ == ctxs_without_ids(self.contexts@.subrange(0, i as int), ids@),
            decreases n - i,
        {
            let st = self.contexts[i];
            proof {
                assert(self.contexts@.subrange(0, i as int + 1) =~= self.contexts@.subrange(
                    0,
                    i as int,
                ).push(self.contexts@[i as int]));
                lemma_ctxs_partition_push(
                    self.contexts@.subrange(0, i as int),
                    self.contexts@[i as int],
                    ids@,
                );
            }
            if ids_contain(&ids, st.id) {
                removed.push(st);
            } else {
                kept.push(st);
            }
            i = i + 1;
        }
        proof {
            assert(self.contexts@.subrange(0, self.contexts@.len() as int) =~= self.contexts@);
        }
        self.contexts = kept;

        proof {
            // The entry was the only one for this pipeline, so none is left.
            assert(forall|k: int|
                0 <= k < final(self).pipeline_contexts@.len() ==> (
                #[trigger] final(self).pipeline_contexts@[k]).0 != pipeline_id) by {
                assert(forall|t: int|
                    0 <= t < entries.remove(j as int).len() ==> #[trigger] entries.remove(
                        j as int,
                    )[t] == if t < j as int {
                        entries[t]
                    } else {
                        entries[t + 1]
                    });
            }
            lemma_find_pipeline_none(final(self).pipeline_contexts@, pipeline_id);
            // The kept contexts are a filtered subsequence, so ids stay
            // distinct and below the counter.
            ctxs_without_ids_keeps_wf(old(self).contexts@, ids@, self.next_context_id);
        }
        removed
    }

    /// Get the context ids registered for a pipeline.
    pub fn get_pipeline_contexts(&self, pipeline_id: PipelineId) -> (r: Option<&Vec<
        WebGLContextId,
    >>)
        ensures
            match r {
                Some(ids) => find_pipeline(self.pipeline_contexts@, pipeline_id) >= 0 && ids
                    == &self.pipeline_contexts@[find_pipeline(
                    self.pipeline_contexts@,
                    pipeline_id,
                )].1,
                None => find_pipeline(self.pipeline_contexts@, pipeline_id) == -1,
            },
    {
        let mut j: usize = 0;
        while j < self.pipeline_contexts.len()
            invariant
                0 <= j <= self.pipeline_contexts@.len(),
                forall|k: int|
                    0 <= k < j ==> (#[trigger] self.pipeline_contexts@[k]).0 != pipeline_id,
            decreases self.pipeline_contexts@.len() - j,
        {
            if self.pipeline_contexts[j].0 == pipeline_id {
                proof {
                    lemma_find_pipeline_at(self.pipeline_contexts@, pipeline_id, j as int);
                }
                return Some(&self.pipeline_contexts[j].1);
            }
            j = j + 1;
        }
        proof {
            lemma_find_pipeline_none(self.pipeline_contexts@, pipeline_id);
        }
        None
    }

    /// Get the total number of live contexts.
    pub fn context_count(&self) -> (r: usize)
        ensures
            r == self.contexts@.len(),
    {
        self.contexts.len()
    }

    /// Check whether WebGL is enabled.
    pub fn is_enabled(&self) -> (r: bool)
        ensures
            r == self.config.enabled,
    {
        self.config.enabled
    }

    /// Get the configuration.
    pub fn config(&self) -> (r: &WebGLConfig)
        ensures
            *r == self.config,
    {
        &self.config
    }
}

proof fn ctxs_without_ids_keeps_wf(
    s: Seq<WebGLContextState>,
    ids: Seq<WebGLContextId>,
    next: u64,
)
    requires
        forall|i: int| 0 <= i < s.len() ==> (#[trigger] s[i]).id.0 < next,
        forall|i: int, j: int|
            0 <= i < j < s.len() ==> (#[trigger] s[i]).id != (#[trigger] s[j]).id,
    ensures
        forall|i: int|
            0 <= i < ctxs_without_ids(s, ids).len() ==> (#[trigger] ctxs_without_ids(s, ids)[i]).id.0
                < next,
        forall|i: int, j: int|
            0 <= i < j < ctxs_without_ids(s, ids).len() ==> (#[trigger] ctxs_without_ids(
                s,
                ids,
            )[i]).id != (#[trigger] ctxs_without_ids(s, ids)[j]).id,
    decreases s.len(),
{
    reveal(Seq::filter);
    if s.len() > 0 {
        ctxs_without_ids_keeps_wf(s.drop_last(), ids, next);
        let sub = ctxs_without_ids(s.drop_last(), ids);
        assert(forall|i: int|
            0 <= i < sub.len() ==> s.drop_last().contains(#[trigger] sub[i])) by {
            lemma_filter_elements_from(s.drop_last(), ids);
        }
        if !ids.contains(s.last().id) {
            assert(ctxs_without_ids(s, ids) == sub.push(s.last()));
            assert(forall|i: int, j: int|
                0 <= i < j < sub.push(s.last()).len() ==> (#[trigger] sub.push(s.last())[i]).id
                    != (#[trigger] sub.push(s.last())[j]).id) by {
                assert(forall|i: int|
                    0 <= i < sub.len() ==> #[trigger] sub.push(s.last())[i] == sub[i]);
                assert(sub.push(s.last())[sub.len() as int] == s.last());
                assert(forall|i: int|
                    0 <= i < sub.len() ==> (#[trigger] sub[i]).id != s.last().id) by {
                    assert(forall|i: int|
                        0 <= i < sub.len() ==> s.drop_last().contains(#[trigger] sub[i]));
                    assert(forall|k: int|
                        0 <= k < s.len() - 1 ==> (#[trigger] s.drop_last()[k]).id != s.last().id);
                }
            }
        } else {
            assert(ctxs_without_ids(s, ids) == sub);
        }
    }
}

proof fn lemma_filter_elements_from(s: Seq<WebGLContextState>, ids: Seq<WebGLContextId>)
    ensures
        forall|i: int|
            0 <= i < ctxs_without_ids(s, ids).len() ==> s.contains(
                #[trigger] ctxs_without_ids(s, ids)[i],
            ),
    decreases s.len(),
{
    reveal(Seq::filter);
    if s.len() > 0 {
        lemma_filter_elements_from(s.drop_last(), ids);
        assert(forall|i: int|
            0 <= i < s.len() - 1 ==> s.contains(#[trigger] s.drop_last()[i])) by {
            assert(forall|i: int| 0 <= i < s.len() - 1 ==> s.drop_last()[i] == s[i]);
        }
        assert(s.contains(s.last()));
        let sub = ctxs_without_ids(s.drop_last(), ids);
        assert(forall|i: int| 0 <= i < sub.len() ==> s.drop_last().contains(#[trigger] sub[i]));
        assert(forall|x: WebGLContextState| s.drop_last().contains(x) ==> s.contains(x)) by {
            assert(forall|i: int| 0 <= i < s.len() - 1 ==> s.drop_last()[i] == s[i]);
        }
    }
}

/// Whether two strings hold the same characters.
fn str_eq(a: &str, b: &str) -> (r: bool)
    ensures
        r == (a@ == b@),
{
    let an = a.unicode_len();
    let bn = b.unicode_len();
    if an != bn {
        return false;
    }
    let mut i: usize = 0;
    while i < an
        invariant
            0 <= i <= an,
            an == a@.len(),
            an == b@.len(),
            forall|j: int| 0 <= j < i ==> a@[j] == b@[j],
        decreases an - i,
    {
        if a.get_char(i) != b.get_char(i) {
            return false;
        }
        i = i + 1;
    }
    proof {
        assert(a@ =~= b@);
    }
    true
}

/// The whitespace-separated tokens of `s`, scanning from index `i`.
pub open spec fn spec_tokens(s: Seq<char>, i: int) -> Seq<Seq<char>>
    decreases s.len() - i + 1,
{
    if i < 0 || i >= s.len() {
        Seq::empty()
    } else {
        let a = skip_ws(s, i);
        if a >= s.len() {
            Seq::empty()
        } else {
            let e = skip_token(s, a);
            let next0 = if e <= s.len() {
                e
            } else {
                s.len() as int
            };
            let next = if next0 <= i {
                i + 1
            } else {
                next0
            };
            seq![s.subrange(a, e)] + spec_tokens(s, next)
        }
    }
}

/// Split a driver's space-separated extension list into its names.
pub fn parse_extensions(extensions_str: &str) -> (r: Vec<String>)
    ensures
        r.deep_view() == spec_tokens(extensions_str@, 0),
{
    let ghost s = extensions_str@;
    let n = extensions_str.unicode_len();
    let mut out: Vec<String> = Vec::new();
    let mut i: usize = 0;
    while i < n
        invariant
            0 <= i <= n,
            n == s.len(),
            s == extensions_str@,
            spec_tokens(s, 0) =~~= out.deep_view() + spec_tokens(s, i as int),
        ensures
            i == n,
            spec_tokens(s, 0) =~~= out.deep_view() + spec_tokens(s, i as int),
        decreases n - i,
    {
        let ghost iter_start = i as int;
        // Skip whitespace to the next token.
        while i < n
            invariant
                0 <= i <= n,
                n == s.len(),
                s == extensions_str@,
                iter_start <= i,
                skip_ws(s, iter_start) == skip_ws(s, i as int),
            ensures
                0 <= i <= n,
                iter_start <= i,
                skip_ws(s, iter_start) == i as int,
                i < n ==> !is_ws_char(s[i as int]),
            decreases n - i,
        {
            let c = extensions_str.get_char(i);
            if !(c == ' ' || c == '\t' || c == '\n' || c == '\r') {
                break;
            }
            i = i + 1;
        }
        let a = i;
        if a >= n {
            proof {
                assert(spec_tokens(s, iter_start) =~~= Seq::<Seq<char>>::empty());
                assert(out.deep_view() + Seq::<Seq<char>>::empty() =~~= out.deep_view());
                assert(spec_tokens(s, 0) =~~= out.deep_view() + spec_tokens(s, i as int));
            }
            break;
        }
        // Find the end of the token.
        while i < n
            invariant
                0 <= a <= i <= n,
                n == s.len(),
                s == extensions_str@,
                skip_token(s, a as int) == skip_token(s, i as int),
            ensures
                0 <= a <= i <= n,
                skip_token(s, a as int) == i as int,
            decreases n - i,
        {
            let c = extensions_str.get_char(i);
            if c == ' ' || c == '\t' || c == '\n' || c == '\r' {
                break;
            }
            i = i + 1;
        }
        proof {
            lemma_skip_token_lower(s, a as int);
        }
        let token = extensions_str.substring_char(a, i);
        let owned: String = token.to_owned();
        let ghost out_before = out.deep_view();
        out.push(owned);
        proof {
            assert(spec_tokens(s, iter_start) =~~= seq![s.subrange(a as int, i as int)]
                + spec_tokens(s, i as int));
            assert(out.deep_view() =~~= out_before + seq![owned@]);
            assert(out.deep_view() + spec_tokens(s, i as int) =~~= out_before + spec_tokens(
                s,
                iter_start,
            ));
            assert(spec_tokens(s, 0) =~~= out.deep_view() + spec_tokens(s, i as int));
        }
    }
    proof {
        assert(spec_tokens(s, i as int) =~~= Seq::<Seq<char>>::empty());
        assert(out.deep_view() + Seq::<Seq<char>>::empty() =~~= out.deep_view());
    }
    out
}

proof fn lemma_skip_token_lower(s: Seq<char>, i: int)
    requires
        0 <= i < s.len(),
        !is_ws_char(s[i]),
    ensures
        skip_token(s, i) >= i + 1,
{
    lemma_skip_token_bounds_pub(s, i + 1);
}

proof fn lemma_skip_token_bounds_pub(s: Seq<char>, i: int)
    requires
        0 <= i <= s.len(),
    ensures
        i <= skip_token(s, i) <= s.len(),
    decreases s.len() - i,
{
    if i < s.len() && !is_ws_char(s[i]) {
        lemma_skip_token_bounds_pub(s, i + 1);
    }
}

/// WebGL capabilities, as queried from the GL driver by the embedder.
#[derive(Debug, Clone)]
pub struct WebGLCapabilities {
    /// Maximum texture size.
    pub max_texture_size: i32,
    /// Maximum cube map texture size.
    pub max_cube_map_texture_size: i32,
    /// Maximum renderbuffer size.
    pub max_renderbuffer_size: i32,
    /// Maximum viewport width.
    pub max_viewport_width: i32,
    /// Maximum viewport height.
    pub max_viewport_height: i32,
    /// Maximum vertex attributes.
    pub max_vertex_attribs: i32,
    /// Maximum vertex uniform vectors.
    pub max_vertex_uniform_vectors: i32,
    /// Maximum fragment uniform vectors.
    pub max_fragment_uniform_vectors: i32,
    /// Maximum varying vectors.
    pub max_varying_vectors: i32,
    /// Maximum texture image units.
    pub max_texture_image_units: i32,
    /// Supported extensions.
    pub extensions: Vec<String>,
}

impl WebGLCapabilities {
    /// Check whether an extension is supported by name.
    pub fn has_extension(&self, name: &str) -> (r: bool)
        ensures
            r == (exists|i: int|
                0 <= i < self.extensions@.len() && (#[trigger] self.extensions@[i])@ == name@),
    {
        let mut i: usize = 0;
        while i < self.extensions.len()
            invariant
                0 <= i <= self.extensions@.len(),
                forall|k: int| 0 <= k < i ==> (#[trigger] self.extensions@[k])@ != name@,
            decreases self.extensions@.len() - i,
        {
            let ext: &String = &self.extensions[i];
            if str_eq(ext.as_str(), name) {
                return true;
            }
            i = i + 1;
        }
        false
    }
}

impl WebGLContextManager {
    /// Get a mutable context by id, for resizing or loss handling in place.
    pub fn get_context_mut(&mut self, id: WebGLContextId) -> (r: Option<&mut WebGLContextState>)
        ensures
            match r {
                Some(st) => {
                    &&& find_ctx(old(self).contexts@, id) >= 0
                    &&& *st == old(self).contexts@[find_ctx(old(self).contexts@, id)]
                    &&& final(self).contexts@ == old(self).contexts@.update(
                        find_ctx(old(self).contexts@, id),
                        *final(st),
                    )
                    &&& final(self).pipeline_contexts == old(self).pipeline_contexts
                    &&& final(self).next_context_id == old(self).next_context_id
                    &&& final(self).config == old(self).config
                },
                None => find_ctx(old(self).contexts@, id) == -1 && *final(self) == *old(self),
            },
    {
        let n = self.contexts.len();
        let mut i: usize = 0;
        while i < n
            invariant
                0 <= i <= n,
                n == self.contexts@.len(),
                forall|k: int| 0 <= k < i ==> (#[trigger] self.contexts@[k]).id != id,
            ensures
                0 <= i <= n,
                forall|k: int| 0 <= k < i ==> (#[trigger] self.contexts@[k]).id != id,
                i < n ==> self.contexts@[i as int].id == id,
            decreases n - i,
        {
            if self.contexts[i].id == id {
                break;
            }
            i = i + 1;
        }
        if i >= n {
            proof {
                lemma_find_ctx_none(self.contexts@, id);
            }
            return None;
        }
        proof {
            lemma_find_ctx_at(self.contexts@, id, i as int);
        }
        Some(vec_index_mut(&mut self.contexts, i))
    }
}

/// Relies on Vec's index_mut: a mutable reference to element `i`; writes
/// through it land at that index and touch nothing else.
#[verifier::external_body]
fn vec_index_mut(v: &mut Vec<WebGLContextState>, i: usize) -> (r: &mut WebGLContextState)
    requires
        i < old(v)@.len(),
    ensures
        *r == old(v)@[i as int],
        final(v)@ == old(v)@.update(i as int, *final(r)),
{
    &mut v[i]
}

} // verus!
