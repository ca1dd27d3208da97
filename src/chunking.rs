//! Chunking contexts and the optional capabilities they declare.
use vstd::prelude::*;

verus! {

/// A bundling strategy that decides how modules are grouped into chunks.
pub trait ChunkingContext {
}

/// A chunking context able to emit ECMAScript chunks. Each capability query
/// depends on the context's own configuration only, and defaults to the
/// feature being disabled.
pub trait EcmascriptChunkingContext: ChunkingContext {
    /// Whether chunk items generated by this context take the runtime-refresh
    /// argument. A context that does not override this answers `false`.
    fn has_react_refresh(&self) -> (r: bool)
        default_ensures
            !r,
    {
        false
    }
}

/// A chunking context that keeps every capability at its default.
#[derive(Debug, Clone, Copy, PartialEq, Eq, Structural)]
pub struct PlainChunkingContext;

impl ChunkingContext for PlainChunkingContext {
}

impl EcmascriptChunkingContext for PlainChunkingContext {
}

/// A chunking context for development builds that opts into hot-reload
/// instrumentation.
#[derive(Debug, Clone, Copy, PartialEq, Eq, Structural)]
pub struct RefreshChunkingContext;

impl ChunkingContext for RefreshChunkingContext {
}

impl EcmascriptChunkingContext for RefreshChunkingContext {
    fn has_react_refresh(&self) -> (r: bool)
        ensures
            r,
    {
        true
    }
}

/// A context that keeps the default never asks for hot-reload instrumentation.
pub proof fn lemma_default_has_no_refresh(ctx: PlainChunkingContext, r: bool)
    requires
        call_ensures(PlainChunkingContext::has_react_refresh, (&ctx,), r),
    ensures
        !r,
{
}

/// A context that overrides the refresh query to `true` answers `true` on
/// every call.
pub proof fn lemma_override_has_refresh(ctx: RefreshChunkingContext, r: bool)
    requires
        call_ensures(RefreshChunkingContext::has_react_refresh, (&ctx,), r),
    ensures
        r,
{
}

} // verus!
