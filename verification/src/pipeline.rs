use vstd::prelude::*;

verus! {

/// The three resources the effect binds, in the fixed order the fragment
/// shader declares them.
#[derive(Clone, Copy, PartialEq, Eq, Structural, Debug)]
pub enum BindingKind {
    /// Binding 0: the sampled 2D float color texture, filterable.
    FilterableColorTexture,
    /// Binding 1: a filtering sampler.
    FilteringSampler,
    /// Binding 2: one settings record in a uniform buffer, bound at a
    /// dynamic per-draw offset.
    DynamicSettingsUniform,
}

/// Handle to the one compiled effect pipeline held by the cache.
#[derive(Clone, Copy, PartialEq, Eq, Structural, Debug)]
pub struct PipelineHandle {
    /// Device identifier of the compiled pipeline object.
    pub id: u64,
}

/// Error kinds of pipeline construction.
#[derive(Clone, Copy, PartialEq, Eq, Structural, Debug)]
pub enum PipelineError {
    /// The device rejected the effect's shader program. Fatal to pipeline
    /// construction; surfaced to the caller and never retried here
    /// (recompilation is driven externally by asset reload).
    ShaderCompileFailure,
}

/// The bind-group layout of the effect pipeline: exactly three bindings, in
/// fixed order — texture, sampler, dynamic uniform.
pub open spec fn effect_bindings() -> Seq<BindingKind> {
    seq![
        BindingKind::FilterableColorTexture,
        BindingKind::FilteringSampler,
        BindingKind::DynamicSettingsUniform,
    ]
}

/// Builds the fixed bind-group layout the pipeline is compiled against.
pub fn effect_layout() -> (r: Vec<BindingKind>)
    ensures
        r@ == effect_bindings(),
{
    let mut r: Vec<BindingKind> = Vec::new();
    r.push(BindingKind::FilterableColorTexture);
    r.push(BindingKind::FilteringSampler);
    r.push(BindingKind::DynamicSettingsUniform);
    proof {
        assert(r@ =~= effect_bindings());
    }
    r
}

/// The compiled pipeline together with the fixed objects created alongside
/// it: its bind-group layout and the sampler shared by every frame.
pub struct CachedPipeline {
    /// Handle under which the compiled pipeline is found again.
    pub handle: PipelineHandle,
    /// The bind-group layout the pipeline was compiled against.
    pub bindings: Vec<BindingKind>,
    /// Device identifier of the filtering sampler created once with the
    /// pipeline and reused by every pass.
    pub sampler: u64,
}

/// The slice of the graphics device the controller sees: a fresh-identifier
/// allocator for created GPU objects, and the device's verdict on the
/// effect's shader program.
#[derive(Clone, Copy, PartialEq, Eq, Structural, Debug)]
pub struct GraphicsDevice {
    /// Next unused device identifier; object creation consumes identifiers
    /// from here, so distinct objects get distinct identifiers.
    pub next_id: u64,
    /// Whether the device accepts the effect's shader program.
    pub shader_compiles: bool,
}

/// The part of the cache that a construction step decides: which handle is
/// cached, how many compilations were submitted, and the failure latch.
#[derive(Clone, Copy, PartialEq, Eq, Structural, Debug)]
pub struct CacheState {
    /// Handle of the cached pipeline, if one was constructed.
    pub handle: Option<PipelineHandle>,
    /// How many shader compilations were ever submitted to the device.
    pub compiles: u64,
    /// Latched when the device rejected the shader.
    pub failed: bool,
}

/// Process-wide cache of the effect pipeline: constructed once on first use,
/// immutable afterwards, shared by all cameras and all frames.
pub struct PipelineCache {
    /// The one cached pipeline, present after the first successful
    /// construction.
    pub entry: Option<CachedPipeline>,
    /// How many shader compilations were ever submitted to the device.
    pub compiles: u64,
    /// Latched when the device rejected the shader: construction failed and
    /// is not retried by the cache.
    pub failed: bool,
}

impl PipelineCache {
    /// The construction state of this cache.
    pub open spec fn state(self) -> CacheState {
        CacheState {
            handle: match self.entry {
                Some(p) => Some(p.handle),
                None => None,
            },
            compiles: self.compiles,
            failed: self.failed,
        }
    }

    /// The cache's invariant: at most one compilation is ever submitted —
    /// exactly one once the cache holds a pipeline or has latched a failure,
    /// none before — failure and success exclude each other, and a cached
    /// pipeline was compiled against the fixed three-binding layout.
    pub open spec fn wf(self) -> bool {
        &&& self.compiles == (if self.entry is Some || self.failed {
            1int
        } else {
            0int
        })
        &&& (self.failed ==> self.entry is None)
        &&& (match self.entry {
            Some(p) => p.bindings@ == effect_bindings(),
            None => true,
        })
    }

    /// An empty cache: nothing constructed, nothing submitted.
    pub fn new() -> (r: Self)
        ensures
            r.entry is None,
            !r.failed,
            r.compiles == 0,
            r.wf(),
    {
        PipelineCache { entry: None, compiles: 0, failed: false }
    }

    /// One step of pipeline construction: what `get_or_create` leaves behind
    /// and returns, given the cache state and the device.
    pub open spec fn step(s: CacheState, d: GraphicsDevice) -> (CacheState, GraphicsDevice, Result<
        PipelineHandle,
        PipelineError,
    >) {
        if s.failed {
            (s, d, Err(PipelineError::ShaderCompileFailure))
        } else {
            match s.handle {
                Some(h) => (s, d, Ok(h)),
                None => {
                    if d.shader_compiles {
                        let h = PipelineHandle { id: (d.next_id + 1) as u64 };
                        (
                            CacheState {
                                handle: Some(h),
                                compiles: (s.compiles + 1) as u64,
                                failed: false,
                            },
                            GraphicsDevice {
                                next_id: (d.next_id + 2) as u64,
                                shader_compiles: d.shader_compiles,
                            },
                            Ok(h),
                        )
                    } else {
                        (
                            CacheState {
                                handle: None,
                                compiles: (s.compiles + 1) as u64,
                                failed: true,
                            },
                            d,
                            Err(PipelineError::ShaderCompileFailure),
                        )
                    }
                },
            }
        }
    }

    /// Lazily constructs the effect pipeline, or returns the cached handle.
    ///
    /// The first call creates the fixed three-binding layout and the shared
    /// sampler and submits the one shader compilation; every later call
    /// returns the cached handle without touching the device. A rejected
    /// shader is a fatal, latched error: it is surfaced on this and every
    /// later call, and construction is not retried.
    pub fn get_or_create(&mut self, device: &mut GraphicsDevice) -> (r: Result<
        PipelineHandle,
        PipelineError,
    >)
        requires
            old(self).wf(),
            old(device).next_id + 2 <= u64::MAX,
        ensures
            final(self).wf(),
            (final(self).state(), *final(device), r) == PipelineCache::step(
                old(self).state(),
                *old(device),
            ),
            old(self).entry is Some && !old(self).failed ==> *final(self) == *old(self)
                && *final(device) == *old(device),
            old(self).entry is None && !old(self).failed && old(device).shader_compiles ==> (
            match final(self).entry {
                Some(p) => p.bindings@ == effect_bindings() && p.sampler == old(device).next_id,
                None => false,
            }),
            r is Ok <==> !old(self).failed && (old(self).entry is Some || old(
                device,
            ).shader_compiles),
    {
        if self.failed {
            return Err(PipelineError::ShaderCompileFailure);
        }
        match &self.entry {
            Some(p) => Ok(p.handle),
            None => {
                if device.shader_compiles {
                    let sampler: u64 = device.next_id;
                    let handle = PipelineHandle { id: device.next_id + 1 };
                    device.next_id = device.next_id + 2;
                    let bindings = effect_layout();
                    self.entry = Some(CachedPipeline { handle, bindings, sampler });
                    self.compiles = self.compiles + 1;
                    Ok(handle)
                } else {
                    self.compiles = self.compiles + 1;
                    self.failed = true;
                    Err(PipelineError::ShaderCompileFailure)
                }
            },
        }
    }

    /// The cache's answer to a per-frame pipeline lookup: the cached handle
    /// once the asynchronous compilation has finished, nothing before.
    pub open spec fn spec_lookup(self, compiled: bool) -> Option<PipelineHandle> {
        match self.entry {
            Some(p) => if compiled {
                Some(p.handle)
            } else {
                None
            },
            None => None,
        }
    }

    /// Per-frame lookup of the compiled pipeline. `compiled` reports whether
    /// the device has finished the asynchronous compilation by this frame;
    /// until it has — and always while nothing is cached — the lookup yields
    /// nothing and the pass is skipped for the frame.
    pub fn lookup(&self, compiled: bool) -> (r: Option<PipelineHandle>)
        ensures
            r == self.spec_lookup(compiled),
    {
        match &self.entry {
            Some(p) => if compiled {
                Some(p.handle)
            } else {
                None
            },
            None => None,
        }
    }
}

/// Pipeline construction is idempotent: once one call has returned a handle,
/// a second call returns the same handle, leaves the cache state and the
/// device untouched, and submits no new shader compilation.
pub proof fn lemma_get_or_create_idempotent(s: CacheState, d: GraphicsDevice)
    ensures
        ({
            let (s1, d1, r1) = PipelineCache::step(s, d);
            let (s2, d2, r2) = PipelineCache::step(s1, d1);
            r1 is Ok ==> r2 == r1 && s2 == s1 && d2 == d1 && s2.compiles == s1.compiles
        }),
{
}

} // verus!
