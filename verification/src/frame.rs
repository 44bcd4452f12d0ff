use vstd::prelude::*;

use crate::executor;
use crate::executor::{BindGroup, ColorTarget, DrawCommand, PassAction, SkipReason};
use crate::pipeline::PipelineCache;
use crate::settings::OldTvSettings;
use crate::upload;
use crate::upload::{ExtractedCamera, FrameUniforms, UNIFORM_STRIDE};

verus! {

/// One camera's standing in a frame, as the host renderer presents it to
/// the pass stage.
#[derive(Clone, Copy, PartialEq, Eq, Structural, Debug)]
pub struct FrameCamera {
    /// Stable identifier of the camera entity.
    pub camera: u64,
    /// The settings attached to this camera, read fresh this frame; nothing
    /// if the effect is not enabled for it.
    pub settings: Option<OldTvSettings>,
    /// The camera's ping-pong color target; `source` holds the pre-effect
    /// image the earlier stages rendered.
    pub target: ColorTarget,
}

/// What one camera's color target shows once the pass stage of a frame is
/// over.
#[derive(Clone, Copy, PartialEq, Eq, Structural, Debug)]
pub struct FrameOutput {
    /// The camera's current color image after the stage: the written
    /// destination when the pass ran, the untouched source when it did not.
    pub image: u64,
    /// The pre-effect image the output derives from.
    pub base: u64,
    /// The settings the effect was applied with; nothing means the output
    /// is identically the pre-effect image.
    pub effect: Option<OldTvSettings>,
}

impl FrameCamera {
    /// The capability query the host uses to route a camera through the
    /// pass stage: whether this camera carries a settings record.
    pub fn has_effect(&self) -> (r: bool)
        ensures
            r == (self.settings is Some),
    {
        self.settings.is_some()
    }

    /// Attaches a settings record to the camera, or replaces the one it
    /// carries; the values are read fresh each frame, so they take effect
    /// the next frame with no further commit.
    pub fn attach(&mut self, s: OldTvSettings)
        ensures
            *final(self) == (FrameCamera {
                camera: old(self).camera,
                settings: Some(s),
                target: old(self).target,
            }),
    {
        self.settings = Some(s);
    }

    /// Detaches the settings record: from the next frame on, the camera is
    /// unaffected by the effect, with no residual state anywhere else.
    pub fn detach(&mut self)
        ensures
            *final(self) == (FrameCamera {
                camera: old(self).camera,
                settings: None,
                target: old(self).target,
            }),
    {
        self.settings = None;
    }
}

/// How many of the first `n` cameras carry a settings record: the rank a
/// camera's record gets in the frame's uniform buffer.
pub open spec fn live_before(cams: Seq<FrameCamera>, n: int) -> int
    decreases n,
{
    if n <= 0 {
        0
    } else {
        live_before(cams, n - 1) + (if cams[n - 1].settings is Some {
            1int
        } else {
            0int
        })
    }
}

/// The rank of a camera never exceeds its position.
pub proof fn lemma_live_before_bounds(cams: Seq<FrameCamera>, n: int)
    ensures
        0 <= live_before(cams, n) <= (if n >= 0 {
            n
        } else {
            0
        }),
    decreases (if n >= 0 {
        n
    } else {
        0
    }),
{
    if n > 0 {
        lemma_live_before_bounds(cams, n - 1);
    }
}

/// Ranks grow with position.
pub proof fn lemma_live_before_monotonic(cams: Seq<FrameCamera>, a: int, b: int)
    requires
        a <= b,
    ensures
        live_before(cams, a) <= live_before(cams, b),
    decreases b - a,
{
    if a < b {
        lemma_live_before_monotonic(cams, a, b - 1);
    }
}

/// Two cameras that both carry settings get strictly ordered ranks, so
/// their records land at distinct places in the uniform buffer.
pub proof fn lemma_live_before_strict(cams: Seq<FrameCamera>, i: int, j: int)
    requires
        0 <= i < j,
        cams[i].settings is Some,
    ensures
        live_before(cams, i) < live_before(cams, j),
{
    lemma_live_before_monotonic(cams, i + 1, j);
}

/// What one camera shows after the pass stage of one frame, given whether
/// the pipeline was ready: with no settings attached the stage never runs
/// and the pre-effect image stands untouched; with settings the image is
/// transformed exactly when the pipeline is ready, and passes through
/// unchanged for the frame when it is not.
pub open spec fn spec_camera_output(cam: FrameCamera, ready: bool) -> FrameOutput {
    match cam.settings {
        None => FrameOutput { image: cam.target.source, base: cam.target.source, effect: None },
        Some(s) => if ready {
            FrameOutput {
                image: cam.target.destination,
                base: cam.target.source,
                effect: Some(s),
            }
        } else {
            FrameOutput { image: cam.target.source, base: cam.target.source, effect: None }
        },
    }
}

/// The outputs of a whole frame: camera by camera, each from its own record
/// and the shared pipeline readiness alone.
pub open spec fn spec_frame_outputs(cams: Seq<FrameCamera>, ready: bool) -> Seq<FrameOutput> {
    Seq::new(cams.len(), |i: int| spec_camera_output(cams[i], ready))
}

/// Everything the pass stage produces for one frame.
pub struct FrameResult {
    /// Per camera, in hand-over order: what its color target shows after
    /// the stage.
    pub outputs: Vec<FrameOutput>,
    /// Per camera: the action taken for it, or nothing where no settings
    /// are attached and the pass was never scheduled.
    pub actions: Vec<Option<PassAction>>,
    /// The frame's upload: one record per settings-carrying camera, in
    /// hand-over order, with its byte offsets.
    pub uniforms: FrameUniforms,
}

/// Runs the pass stage of one frame over the handed-over cameras.
///
/// First the upload: every settings-carrying camera's record is copied into
/// the frame's shared uniform buffer, at pairwise distinct offsets. Only
/// then, per camera: no settings, no pass — the pre-effect image stands;
/// otherwise the executor draws through the cached pipeline at this
/// camera's own offset, or skips for the frame while the pipeline is still
/// compiling. `compiled` reports whether the device has finished the
/// asynchronous shader compilation by this frame.
pub fn run_frame(cameras: &Vec<FrameCamera>, cache: &PipelineCache, compiled: bool) -> (r:
    FrameResult)
    requires
        cache.wf(),
        cameras@.len() * UNIFORM_STRIDE <= u32::MAX,
        forall|i: int|
            0 <= i < cameras@.len() ==> #[trigger] cameras@[i].target.source
                != cameras@[i].target.destination,
    ensures
        r.outputs@.len() == cameras@.len(),
        r.actions@.len() == cameras@.len(),
        r.outputs@ == spec_frame_outputs(cameras@, cache.spec_lookup(compiled) is Some),
        r.uniforms.records@.len() == live_before(cameras@, cameras@.len() as int),
        forall|i: int|
            0 <= i < cameras@.len() ==> ((#[trigger] r.actions@[i]) is Some <==> cameras@[i].settings is Some),
        forall|i: int|
            #![trigger r.actions@[i]]
            0 <= i < cameras@.len() ==> (match cameras@[i].settings {
                None => r.actions@[i] is None,
                Some(s) => {
                    &&& r.uniforms.records@[live_before(cameras@, i)] == s
                    &&& r.uniforms.offsets@[live_before(cameras@, i)] == live_before(cameras@, i)
                        * UNIFORM_STRIDE
                    &&& (match cache.spec_lookup(compiled) {
                        None => r.actions@[i] == Some(
                            PassAction::Skip(SkipReason::PipelineNotReady),
                        ),
                        Some(h) => r.actions@[i] == Some(
                            PassAction::Draw(
                                DrawCommand {
                                    pipeline: h,
                                    bind_group: BindGroup {
                                        texture: cameras@[i].target.source,
                                        sampler: cache.entry->Some_0.sampler,
                                        uniform_offset: (live_before(cameras@, i)
                                            * UNIFORM_STRIDE) as u32,
                                    },
                                    target: cameras@[i].target.destination,
                                    vertices: 3,
                                    instances: 1,
                                },
                            ),
                        ),
                    })
                },
            }),
        forall|i: int, j: int|
            #![trigger r.actions@[i], r.actions@[j]]
            0 <= i < j < cameras@.len() && cameras@[i].settings is Some && cameras@[j].settings
                is Some ==> r.uniforms.offsets@[live_before(cameras@, i)]
                != r.uniforms.offsets@[live_before(cameras@, j)],
{
    let ghost cams = cameras@;
    let n: usize = cameras.len();

    // Extraction: snapshot every settings-carrying camera's record, in
    // hand-over order, for the frame's upload.
    let mut extracted: Vec<ExtractedCamera> = Vec::new();
    let mut i: usize = 0;
    while i < n
        invariant
            i <= n,
            n == cams.len(),
            cams == cameras@,
            extracted@.len() == live_before(cams, i as int),
            forall|k: int|
                #![trigger cams[k].settings]
                0 <= k < i ==> (match cams[k].settings {
                    None => true,
                    Some(s) => 0 <= live_before(cams, k) < extracted@.len() && extracted@[live_before(
                        cams,
                        k,
                    )] == (ExtractedCamera { camera: cams[k].camera, settings: s }),
                }),
        decreases n - i,
    {
        match &cameras[i].settings {
            Some(s) => {
                extracted.push(ExtractedCamera { camera: cameras[i].camera, settings: *s });
            },
            None => {},
        }
        i = i + 1;
    }

    proof {
        lemma_live_before_bounds(cams, n as int);
    }
    let uniforms = upload::prepare_uniforms(&extracted);

    // The upload is complete for the frame; only now does any pass run.
    let ready = cache.lookup(compiled);
    let mut outputs: Vec<FrameOutput> = Vec::new();
    let mut actions: Vec<Option<PassAction>> = Vec::new();
    let mut live: usize = 0;
    let mut j: usize = 0;
    while j < n
        invariant
            j <= n,
            n == cams.len(),
            cams == cameras@,
            cache.wf(),
            ready == cache.spec_lookup(compiled),
            cams.len() * UNIFORM_STRIDE <= u32::MAX,
            forall|k: int|
                0 <= k < cams.len() ==> #[trigger] cams[k].target.source
                    != cams[k].target.destination,
            live == live_before(cams, j as int),
            extracted@.len() == live_before(cams, n as int),
            uniforms.faithful_to(extracted@),
            forall|k: int|
                #![trigger cams[k].settings]
                0 <= k < n ==> (match cams[k].settings {
                    None => true,
                    Some(s) => 0 <= live_before(cams, k) < extracted@.len() && extracted@[live_before(
                        cams,
                        k,
                    )] == (ExtractedCamera { camera: cams[k].camera, settings: s }),
                }),
            outputs@.len() == j,
            actions@.len() == j,
            forall|k: int|
                0 <= k < j ==> #[trigger] outputs@[k] == spec_camera_output(
                    cams[k],
                    cache.spec_lookup(compiled) is Some,
                ),
            forall|k: int|
                #![trigger actions@[k]]
                0 <= k < j ==> (match cams[k].settings {
                    None => actions@[k] is None,
                    Some(s) => (match cache.spec_lookup(compiled) {
                        None => actions@[k] == Some(PassAction::Skip(SkipReason::PipelineNotReady)),
                        Some(h) => actions@[k] == Some(
                            PassAction::Draw(
                                DrawCommand {
                                    pipeline: h,
                                    bind_group: BindGroup {
                                        texture: cams[k].target.source,
                                        sampler: cache.entry->Some_0.sampler,
                                        uniform_offset: (live_before(cams, k)
                                            * UNIFORM_STRIDE) as u32,
                                    },
                                    target: cams[k].target.destination,
                                    vertices: 3,
                                    instances: 1,
                                },
                            ),
                        ),
                    }),
                }),
        decreases n - j,
    {
        proof {
            lemma_live_before_bounds(cams, j as int);
            lemma_live_before_monotonic(cams, j as int + 1, n as int);
        }
        match &cameras[j].settings {
            None => {
                outputs.push(
                    FrameOutput {
                        image: cameras[j].target.source,
                        base: cameras[j].target.source,
                        effect: None,
                    },
                );
                actions.push(None);
            },
            Some(s) => {
                let offset: u32 = (live as u32) * UNIFORM_STRIDE;
                let sampler: u64 = match &cache.entry {
                    Some(p) => p.sampler,
                    None => 0,
                };
                let action = executor::run(&cameras[j].target, ready, sampler, Some(offset));
                let out = match ready {
                    Some(_) => FrameOutput {
                        image: cameras[j].target.destination,
                        base: cameras[j].target.source,
                        effect: Some(*s),
                    },
                    None => FrameOutput {
                        image: cameras[j].target.source,
                        base: cameras[j].target.source,
                        effect: None,
                    },
                };
                outputs.push(out);
                actions.push(Some(action));
                live = live + 1;
            },
        }
        j = j + 1;
    }

    let r = FrameResult { outputs, actions, uniforms };
    proof {
        assert(r.outputs@ =~= spec_frame_outputs(cams, cache.spec_lookup(compiled) is Some));
        assert forall|a: int, b: int|
            0 <= a < b < cams.len() && cams[a].settings is Some && cams[b].settings
                is Some implies r.uniforms.offsets@[live_before(cams, a)] != r.uniforms.offsets@[
            live_before(cams, b)] by {
            lemma_live_before_strict(cams, a, b);
            lemma_live_before_bounds(cams, a);
            lemma_live_before_monotonic(cams, b + 1, n as int);
            assert(upload::offset_addresses(
                r.uniforms.offsets@[live_before(cams, a)],
                live_before(cams, a),
            ));
            assert(upload::offset_addresses(
                r.uniforms.offsets@[live_before(cams, b)],
                live_before(cams, b),
            ));
        }
    }
    r
}

/// A camera without settings is untouched: the pass is never scheduled for
/// it, and its output is identically the renderer's pre-effect image.
pub proof fn lemma_no_settings_identity(cam: FrameCamera, ready: bool)
    requires
        cam.settings is None,
    ensures
        spec_camera_output(cam, ready) == (FrameOutput {
            image: cam.target.source,
            base: cam.target.source,
            effect: None,
        }),
{
}

/// The stage is deterministic and keeps no hidden state: a camera's output
/// is a function of its own record and the shared pipeline readiness alone,
/// so re-running a frame on the same cameras repeats the same outputs, and
/// no other camera — in the same frame or another — can affect it.
pub proof fn lemma_frame_deterministic(
    cams1: Seq<FrameCamera>,
    cams2: Seq<FrameCamera>,
    ready: bool,
    i: int,
    j: int,
)
    requires
        0 <= i < cams1.len(),
        0 <= j < cams2.len(),
        cams1[i] == cams2[j],
    ensures
        spec_frame_outputs(cams1, ready)[i] == spec_frame_outputs(cams2, ready)[j],
{
}

/// Removing the settings from a camera between frames leaves no residue:
/// however many frames the effect ran for the camera before, the first
/// frame without the record shows exactly the pre-effect image.
pub proof fn lemma_detach_no_residual(
    previous: FrameCamera,
    now: FrameCamera,
    ready_then: bool,
    ready_now: bool,
)
    requires
        previous.camera == now.camera,
        previous.settings is Some,
        now.settings is None,
    ensures
        spec_camera_output(now, ready_now) == (FrameOutput {
            image: now.target.source,
            base: now.target.source,
            effect: None,
        }),
{
}

} // verus!
