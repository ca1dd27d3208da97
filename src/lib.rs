//! Asset-graph nodes and chunking capabilities of an incremental bundler.
//!
//! A node of the build graph has a stable identity and produces a content
//! snapshot on request; a chunking context answers capability queries with
//! conservative defaults unless its strategy overrides them.
pub mod asset;
pub mod chunking;
pub mod raw_output;

pub use asset::{Asset, AssetContent, AssetIdent, ContentUnavailable, OutputAsset, Source, VirtualSource};
pub use raw_output::RawOutput;
pub use chunking::{ChunkingContext, EcmascriptChunkingContext, PlainChunkingContext, RefreshChunkingContext};


