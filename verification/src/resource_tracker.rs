//! Resource tracking for pipeline cleanup.
//!
//! Per-pipeline ledger of GPU-resident resource handles (images, fonts, font
//! instances) awaiting release. A handle is recorded when the compositor is
//! told a resource was allocated on behalf of a pipeline, and removed either
//! individually (explicit deletion) or all at once when the pipeline retires.

use vstd::prelude::*;

verus! {

/// A GPU image resource handle: the namespace of the allocating API instance
/// and the key within that namespace. Keys are globally unique.
#[derive(Clone, Copy, PartialEq, Eq, Structural, Debug, Hash)]
pub struct ImageKey {
    pub namespace_id: u32,
    pub key: u32,
}

/// A GPU font resource handle.
#[derive(Clone, Copy, PartialEq, Eq, Structural, Debug, Hash)]
pub struct FontKey {
    pub namespace_id: u32,
    pub key: u32,
}

/// A GPU font-instance resource handle (a font at a concrete size and set of
/// rendering options).
#[derive(Clone, Copy, PartialEq, Eq, Structural, Debug, Hash)]
pub struct FontInstanceKey {
    pub namespace_id: u32,
    pub key: u32,
}

/// The contents of a drained ledger, handed back as one cleanup descriptor so
/// the caller can submit a single GPU-resource-deletion transaction.
pub struct ResourceCleanup {
    pub image_keys: Vec<ImageKey>,
    pub font_keys: Vec<FontKey>,
    pub font_instance_keys: Vec<FontInstanceKey>,
}

impl ResourceCleanup {
    /// True when the descriptor releases nothing.
    pub fn is_empty(&self) -> (r: bool)
        ensures
            r == (self.image_keys@.len() == 0 && self.font_keys@.len() == 0
                && self.font_instance_keys@.len() == 0),
    {
        self.image_keys.is_empty() && self.font_keys.is_empty()
            && self.font_instance_keys.is_empty()
    }
}

/// Tracks resources associated with one pipeline for cleanup.
#[derive(Clone, Debug)]
pub struct PipelineResources {
    /// Image keys allocated by this pipeline.
    pub image_keys: Vec<ImageKey>,
    /// Font keys allocated by this pipeline.
    pub font_keys: Vec<FontKey>,
    /// Font instance keys allocated by this pipeline.
    pub font_instance_keys: Vec<FontInstanceKey>,
}

/// `s` with every occurrence of `key` removed; what one `untrack` call leaves
/// behind.
pub open spec fn without_key<K>(s: Seq<K>, key: K) -> Seq<K> {
    s.filter(|k: K| k != key)
}

proof fn lemma_without_key_push<A>(s: Seq<A>, x: A, key: A)
    ensures
        without_key(s.push(x), key) == if x != key {
            without_key(s, key).push(x)
        } else {
            without_key(s, key)
        },
{
    reveal(Seq::filter);
    assert(s.push(x).drop_last() =~= s);
}

/// Remove every image key equal to `key`, keeping the order of the rest.
fn retain_without_image_key(keys: &mut Vec<ImageKey>, key: ImageKey)
    ensures
        final(keys)@ == without_key(old(keys)@, key),
{
    let mut kept: Vec<ImageKey> = Vec::new();
    let mut i: usize = 0;
    while i < keys.len()
        invariant
            i <= keys@.len(),
            kept@ == without_key(keys@.subrange(0, i as int), key),
        decreases keys@.len() - i,
    {
        let k = keys[i];
        proof {
            assert(keys@.subrange(0, i as int + 1) =~= keys@.subrange(0, i as int).push(keys@[i as int]));
            lemma_without_key_push(keys@.subrange(0, i as int), keys@[i as int], key);
        }
        if k != key {
            kept.push(k);
        }
        i = i + 1;
    }
    proof {
        assert(keys@.subrange(0, keys@.len() as int) =~= keys@);
    }
    *keys = kept;
}

/// Remove every font key equal to `key`, keeping the order of the rest.
fn retain_without_font_key(keys: &mut Vec<FontKey>, key: FontKey)
    ensures
        final(keys)@ == without_key(old(keys)@, key),
{
    let mut kept: Vec<FontKey> = Vec::new();
    let mut i: usize = 0;
    while i < keys.len()
        invariant
            i <= keys@.len(),
            kept@ == without_key(keys@.subrange(0, i as int), key),
        decreases keys@.len() - i,
    {
        let k = keys[i];
        proof {
            assert(keys@.subrange(0, i as int + 1) =~= keys@.subrange(0, i as int).push(keys@[i as int]));
            lemma_without_key_push(keys@.subrange(0, i as int), keys@[i as int], key);
        }
        if k != key {
            kept.push(k);
        }
        i = i + 1;
    }
    proof {
        assert(keys@.subrange(0, keys@.len() as int) =~= keys@);
    }
    *keys = kept;
}

/// Remove every font instance key equal to `key`, keeping the order of the
/// rest.
fn retain_without_font_instance_key(keys: &mut Vec<FontInstanceKey>, key: FontInstanceKey)
    ensures
        final(keys)@ == without_key(old(keys)@, key),
{
    let mut kept: Vec<FontInstanceKey> = Vec::new();
    let mut i: usize = 0;
    while i < keys.len()
        invariant
            i <= keys@.len(),
            kept@ == without_key(keys@.subrange(0, i as int), key),
        decreases keys@.len() - i,
    {
        let k = keys[i];
        proof {
            assert(keys@.subrange(0, i as int + 1) =~= keys@.subrange(0, i as int).push(keys@[i as int]));
            lemma_without_key_push(keys@.subrange(0, i as int), keys@[i as int], key);
        }
        if k != key {
            kept.push(k);
        }
        i = i + 1;
    }
    proof {
        assert(keys@.subrange(0, keys@.len() as int) =~= keys@);
    }
    *keys = kept;
}

impl PipelineResources {
    /// Create a new empty resource ledger.
    pub fn new() -> (r: PipelineResources)
        ensures
            r.image_keys@.len() == 0,
            r.font_keys@.len() == 0,
            r.font_instance_keys@.len() == 0,
    {
        PipelineResources {
            image_keys: Vec::new(),
            font_keys: Vec::new(),
            font_instance_keys: Vec::new(),
        }
    }

    /// Track a new image key.
    pub fn track_image(&mut self, key: ImageKey)
        ensures
            final(self).image_keys@ == old(self).image_keys@.push(key),
            final(self).font_keys == old(self).font_keys,
            final(self).font_instance_keys == old(self).font_instance_keys,
    {
        self.image_keys.push(key);
    }

    /// Track a new font key.
    pub fn track_font(&mut self, key: FontKey)
        ensures
            final(self).font_keys@ == old(self).font_keys@.push(key),
            final(self).image_keys == old(self).image_keys,
            final(self).font_instance_keys == old(self).font_instance_keys,
    {
        self.font_keys.push(key);
    }

    /// Track a new font instance key.
    pub fn track_font_instance(&mut self, key: FontInstanceKey)
        ensures
            final(self).font_instance_keys@ == old(self).font_instance_keys@.push(key),
            final(self).image_keys == old(self).image_keys,
            final(self).font_keys == old(self).font_keys,
    {
        self.font_instance_keys.push(key);
    }

    /// Remove tracking for an image key (e.g. when explicitly deleted).
    /// Removing a key that was never tracked is a no-op, not an error.
    pub fn untrack_image(&mut self, key: ImageKey)
        ensures
            final(self).image_keys@ == without_key(old(self).image_keys@, key),
            final(self).font_keys == old(self).font_keys,
            final(self).font_instance_keys == old(self).font_instance_keys,
    {
        retain_without_image_key(&mut self.image_keys, key);
    }

    /// Remove tracking for a font key.
    pub fn untrack_font(&mut self, key: FontKey)
        ensures
            final(self).font_keys@ == without_key(old(self).font_keys@, key),
            final(self).image_keys == old(self).image_keys,
            final(self).font_instance_keys == old(self).font_instance_keys,
    {
        retain_without_font_key(&mut self.font_keys, key);
    }

    /// Remove tracking for a font instance key.
    pub fn untrack_font_instance(&mut self, key: FontInstanceKey)
        ensures
            final(self).font_instance_keys@ == without_key(old(self).font_instance_keys@, key),
            final(self).image_keys == old(self).image_keys,
            final(self).font_keys == old(self).font_keys,
    {
        retain_without_font_instance_key(&mut self.font_instance_keys, key);
    }

    /// Check whether any resources are being tracked.
    pub fn is_empty(&self) -> (r: bool)
        ensures
            r == (self.image_keys@.len() == 0 && self.font_keys@.len() == 0
                && self.font_instance_keys@.len() == 0),
    {
        self.image_keys.is_empty() && self.font_keys.is_empty()
            && self.font_instance_keys.is_empty()
    }

    /// Total count of tracked resources across all three kinds.
    pub fn resource_count(&self) -> (r: usize)
        requires
            self.image_keys@.len() + self.font_keys@.len()
                + self.font_instance_keys@.len() <= usize::MAX,
        ensures
            r == self.image_keys@.len() + self.font_keys@.len()
                + self.font_instance_keys@.len(),
    {
        self.image_keys.len() + self.font_keys.len() + self.font_instance_keys.len()
    }

    /// Clear all tracked resources (after a cleanup transaction was sent).
    pub fn clear(&mut self)
        ensures
            final(self).image_keys@.len() == 0,
            final(self).font_keys@.len() == 0,
            final(self).font_instance_keys@.len() == 0,
    {
        self.image_keys.clear();
        self.font_keys.clear();
        self.font_instance_keys.clear();
    }

    /// Atomically empty all three sets and return their prior contents as a
    /// single cleanup descriptor. Partial draining is never observable: the
    /// descriptor holds exactly what the ledger held, and the ledger is left
    /// empty.
    pub fn drain(&mut self) -> (r: ResourceCleanup)
        ensures
            r.image_keys == old(self).image_keys,
            r.font_keys == old(self).font_keys,
            r.font_instance_keys == old(self).font_instance_keys,
            final(self).image_keys@.len() == 0,
            final(self).font_keys@.len() == 0,
            final(self).font_instance_keys@.len() == 0,
    {
        let mut image_keys: Vec<ImageKey> = Vec::new();
        let mut font_keys: Vec<FontKey> = Vec::new();
        let mut font_instance_keys: Vec<FontInstanceKey> = Vec::new();
        core::mem::swap(&mut image_keys, &mut self.image_keys);
        core::mem::swap(&mut font_keys, &mut self.font_keys);
        core::mem::swap(&mut font_instance_keys, &mut self.font_instance_keys);
        ResourceCleanup { image_keys, font_keys, font_instance_keys }
    }
}

impl Default for PipelineResources {
    /// An empty ledger.
    fn default() -> (r: PipelineResources)
        ensures
            r.image_keys@.len() == 0,
            r.font_keys@.len() == 0,
            r.font_instance_keys@.len() == 0,
    {
        PipelineResources::new()
    }
}

} // verus!
