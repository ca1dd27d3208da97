use asset_graph::{
    ChunkingContext, EcmascriptChunkingContext, PlainChunkingContext, RefreshChunkingContext,
};

struct BareContext;

impl ChunkingContext for BareContext {}

impl EcmascriptChunkingContext for BareContext {}

#[test]
fn default_context_has_no_react_refresh() {
    assert!(!PlainChunkingContext.has_react_refresh());
    assert!(!BareContext.has_react_refresh());
}

#[test]
fn overriding_context_has_react_refresh() {
    let ctx = RefreshChunkingContext;
    assert!(ctx.has_react_refresh());
    assert!(ctx.has_react_refresh());
}

#[test]
fn two_contexts_answer_independently_of_order() {
    let plain = PlainChunkingContext;
    let refresh = RefreshChunkingContext;
    assert!(!plain.has_react_refresh());
    assert!(refresh.has_react_refresh());
    assert!(refresh.has_react_refresh());
    assert!(!plain.has_react_refresh());
}
