use vstd::prelude::*;

use crate::pipeline::{GraphicsDevice, PipelineCache, PipelineError, PipelineHandle};

verus! {

/// A stage of the host renderer's ordered stage graph, as the controller
/// names it.
#[derive(Clone, Copy, PartialEq, Eq, Structural, Debug)]
pub enum StageLabel {
    /// The host's tonemapping stage; the effect runs strictly after it.
    Tonemapping,
    /// The effect's own stage.
    OldTvPass,
    /// The host's end-of-post-processing stage; the effect runs strictly
    /// before it.
    EndPostProcessing,
    /// Any other stage of the host's graph, by its own identifier.
    Other(u64),
}

/// The host renderer's directed stage graph, as the controller sees it: the
/// registered stages, and ordering edges between them. An edge `(a, b)`
/// demands that every run of `a` come strictly before every run of `b`.
pub struct StageGraph {
    /// The registered stages.
    pub nodes: Vec<StageLabel>,
    /// The ordering edges.
    pub edges: Vec<(StageLabel, StageLabel)>,
}

impl StageGraph {
    /// Whether `order` is a run order this graph admits: wherever both
    /// endpoints of a registered edge occur, the edge holds strictly
    /// between them.
    pub open spec fn admits(self, order: Seq<StageLabel>) -> bool {
        forall|e: int, i: int, j: int|
            #![trigger self.edges@[e], order[i], order[j]]
            0 <= e < self.edges@.len() && 0 <= i < order.len() && 0 <= j < order.len() && order[i]
                == self.edges@[e].0 && order[j] == self.edges@[e].1 ==> i < j
    }
}

/// The two ordering edges the effect registers: after tonemapping, before
/// the end of post-processing.
pub open spec fn effect_edges() -> Seq<(StageLabel, StageLabel)> {
    seq![
        (StageLabel::Tonemapping, StageLabel::OldTvPass),
        (StageLabel::OldTvPass, StageLabel::EndPostProcessing),
    ]
}

/// Registers the effect's stage in the host's stage graph, with its two
/// ordering edges: strictly after tonemapping, strictly before the end of
/// post-processing.
///
/// The stage may be registered only once; which cameras run through it is
/// not decided here, but solely by the presence of a settings record on the
/// camera.
pub fn register_pass(graph: &mut StageGraph)
    requires
        !old(graph).nodes@.contains(StageLabel::OldTvPass),
    ensures
        final(graph).nodes@ == old(graph).nodes@.push(StageLabel::OldTvPass),
        final(graph).edges@ == old(graph).edges@ + effect_edges(),
{
    graph.nodes.push(StageLabel::OldTvPass);
    graph.edges.push((StageLabel::Tonemapping, StageLabel::OldTvPass));
    graph.edges.push((StageLabel::OldTvPass, StageLabel::EndPostProcessing));
    proof {
        assert(graph.edges@ =~= old(graph).edges@ + effect_edges());
    }
}

/// After registration, any run order the graph admits places the effect's
/// stage strictly after tonemapping and strictly before the end of
/// post-processing, wherever those three stages occur in it.
pub proof fn lemma_pass_ordering(
    before: StageGraph,
    after: StageGraph,
    order: Seq<StageLabel>,
    i: int,
    j: int,
    k: int,
)
    requires
        after.edges@ == before.edges@ + effect_edges(),
        after.admits(order),
        0 <= i < order.len(),
        order[i] == StageLabel::Tonemapping,
        0 <= j < order.len(),
        order[j] == StageLabel::OldTvPass,
        0 <= k < order.len(),
        order[k] == StageLabel::EndPostProcessing,
    ensures
        i < j,
        j < k,
{
    let e0 = before.edges@.len() as int;
    assert(after.edges@[e0] == (StageLabel::Tonemapping, StageLabel::OldTvPass));
    assert(after.edges@[e0 + 1] == (StageLabel::OldTvPass, StageLabel::EndPostProcessing));
}

/// The effect as the host application adds it to the renderer: one
/// registration of the pass stage at startup, and one pipeline
/// initialization once the graphics device exists.
pub struct OldTvPlugin;

impl OldTvPlugin {
    /// Wires the effect into the host renderer: registers the pass stage
    /// with its two ordering edges. The per-frame settings hand-over and
    /// upload are driven by the host calling the upload each frame.
    pub fn build(&self, graph: &mut StageGraph)
        requires
            !old(graph).nodes@.contains(StageLabel::OldTvPass),
        ensures
            final(graph).nodes@ == old(graph).nodes@.push(StageLabel::OldTvPass),
            final(graph).edges@ == old(graph).edges@ + effect_edges(),
    {
        register_pass(graph)
    }

    /// Finishes setup once the graphics device exists: constructs the
    /// effect pipeline through the cache (submitting the one shader
    /// compilation), or surfaces the device's shader rejection.
    pub fn finish(&self, cache: &mut PipelineCache, device: &mut GraphicsDevice) -> (r: Result<
        PipelineHandle,
        PipelineError,
    >)
        requires
            old(cache).wf(),
            old(device).next_id + 2 <= u64::MAX,
        ensures
            final(cache).wf(),
            (final(cache).state(), *final(device), r) == PipelineCache::step(
                old(cache).state(),
                *old(device),
            ),
            r is Ok <==> !old(cache).failed && (old(cache).entry is Some || old(
                device,
            ).shader_compiles),
    {
        cache.get_or_create(device)
    }
}

} // verus!
