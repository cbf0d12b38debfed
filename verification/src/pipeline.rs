//! The pipeline cache: an append-only list of (pipeline configuration,
//! draw state) pairs.
//!
//! Resolution follows the canvas's scan-order policy: when the entry scanned
//! last — the tail of the cache — carries the current shader identity, its
//! pipeline is reused; otherwise a new pipeline is appended and used, even
//! when an equal entry exists earlier in the cache. Growth is therefore
//! driven by position, not by uniqueness, and duplicate entries for one draw
//! state are possible.

use vstd::prelude::*;

use crate::shader::{state_eq, DrawState3d};

verus! {

/// One cache entry: the draw state a pipeline was built for, and the shader
/// modules the pipeline actually uses. A shader that lacks a vertex or
/// fragment module inherits that module from the default shader.
#[derive(Clone, Copy, PartialEq, Eq, Debug)]
pub struct PipelineEntry {
    pub vs_module: u64,
    pub fs_module: u64,
    pub state: DrawState3d,
}

/// The vertex module a pipeline built for `state` uses: the state's own,
/// or the default shader's when the state's shader has none.
pub open spec fn spec_vs_of(state: DrawState3d, original: DrawState3d) -> u64 {
    match state.shader.vs_module {
        Some(m) => m,
        None => original.shader.vs_module.unwrap(),
    }
}

/// The fragment module a pipeline built for `state` uses, with the same
/// fallback to the default shader.
pub open spec fn spec_fs_of(state: DrawState3d, original: DrawState3d) -> u64 {
    match state.shader.fs_module {
        Some(m) => m,
        None => original.shader.fs_module.unwrap(),
    }
}

/// The cache entry a pipeline built for `state` gets.
pub open spec fn spec_entry_of(state: DrawState3d, original: DrawState3d) -> PipelineEntry {
    PipelineEntry {
        vs_module: spec_vs_of(state, original),
        fs_module: spec_fs_of(state, original),
        state: state,
    }
}

/// Build the cache entry for `state`, falling back to the default shader's
/// modules where `state`'s shader lacks one.
pub fn build_entry(state: &DrawState3d, original: &DrawState3d) -> (e: PipelineEntry)
    requires
        original.shader.complete(),
    ensures
        e == spec_entry_of(*state, *original),
{
    let vs: u64 = match state.shader.vs_module {
        Some(m) => m,
        None => original.shader.vs_module.unwrap(),
    };
    let fs: u64 = match state.shader.fs_module {
        Some(m) => m,
        None => original.shader.fs_module.unwrap(),
    };
    PipelineEntry { vs_module: vs, fs_module: fs, state: *state }
}

/// One resolution step of the cache policy: reuse the tail entry when it
/// matches `state`, otherwise append an entry built from `state`. Returns
/// the cache afterwards and the index of the pipeline the draw uses.
pub open spec fn spec_resolve(
    cache: Seq<PipelineEntry>,
    state: DrawState3d,
    original: DrawState3d,
) -> (Seq<PipelineEntry>, int)
    recommends
        cache.len() >= 1,
{
    if state_eq(cache.last().state, state) {
        (cache, cache.len() - 1)
    } else {
        (cache.push(spec_entry_of(state, original)), cache.len() as int)
    }
}

/// The cache after a sequence of draws, each resolved under the state it
/// was enqueued with.
pub open spec fn spec_cache_after(
    cache: Seq<PipelineEntry>,
    states: Seq<DrawState3d>,
    original: DrawState3d,
) -> Seq<PipelineEntry>
    decreases states.len(),
{
    if states.len() == 0 {
        cache
    } else {
        spec_cache_after(spec_resolve(cache, states[0], original).0, states.drop_first(), original)
    }
}

/// Draws that keep the shader identity of the cache's tail entry — in
/// particular, any run of draws under an unchanged default shader — never
/// grow the cache: after every such sequence it is exactly what it was.
pub proof fn lemma_cache_stable(
    cache: Seq<PipelineEntry>,
    states: Seq<DrawState3d>,
    original: DrawState3d,
)
    requires
        cache.len() >= 1,
        forall|i: int|
            0 <= i < states.len() ==> state_eq(#[trigger] states[i], cache.last().state),
    ensures
        spec_cache_after(cache, states, original) == cache,
    decreases states.len(),
{
    if states.len() > 0 {
        assert(state_eq(states[0], cache.last().state));
        assert(spec_resolve(cache, states[0], original).0 == cache);
        assert(forall|i: int|
            0 <= i < states.drop_first().len() ==> state_eq(
                #[trigger] states.drop_first()[i],
                cache.last().state,
            ));
        lemma_cache_stable(cache, states.drop_first(), original);
    }
}

/// The cache grows monotonically and by at most one entry per draw: after
/// any sequence of draws the old cache is a prefix of the new one, and the
/// new length is at most the old length plus the number of draws.
pub proof fn lemma_cache_growth(
    cache: Seq<PipelineEntry>,
    states: Seq<DrawState3d>,
    original: DrawState3d,
)
    requires
        cache.len() >= 1,
    ensures
        cache.len() <= spec_cache_after(cache, states, original).len() <= cache.len()
            + states.len(),
        forall|i: int|
            0 <= i < cache.len() ==> #[trigger] spec_cache_after(cache, states, original)[i]
                == cache[i],
    decreases states.len(),
{
    if states.len() > 0 {
        let step = spec_resolve(cache, states[0], original).0;
        lemma_cache_growth(step, states.drop_first(), original);
    }
}

} // verus!
