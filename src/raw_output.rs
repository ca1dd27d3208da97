//! An output asset that forwards a source unchanged.
use vstd::prelude::*;

use crate::asset::{content_view, Asset, AssetContent, AssetIdent, ContentUnavailable, OutputAsset, Source};

verus! {

/// An output whose source needs no transformation and is emitted as is.
/// It has no references to other assets beyond its one source.
pub struct RawOutput<S: Source> {
    source: S,
}

impl<S: Source> RawOutput<S> {
    /// The source this output forwards.
    pub closed spec fn source(&self) -> S {
        self.source
    }

    /// The output that forwards `source`.
    pub closed spec fn of(source: S) -> RawOutput<S> {
        RawOutput { source }
    }

    pub fn new(source: S) -> (r: RawOutput<S>)
        ensures
            r == RawOutput::of(source),
            r.source() == source,
    {
        RawOutput { source }
    }
}

impl<S: Source> Asset for RawOutput<S> {
    open spec fn content_spec(&self) -> Result<Seq<u8>, ContentUnavailable> {
        self.source().content_spec()
    }

    fn content(&self) -> (r: Result<AssetContent, ContentUnavailable>) {
        self.source.content()
    }
}

impl<S: Source> OutputAsset for RawOutput<S> {
    open spec fn ident_spec(&self) -> Seq<char> {
        self.source().ident_spec()
    }

    fn ident(&self) -> (r: AssetIdent) {
        self.source.ident()
    }
}

/// The output made from a source reports exactly that source's identity.
pub proof fn lemma_ident_is_source_ident<S: Source>(source: S)
    ensures
        RawOutput::of(source).ident_spec() == source.ident_spec(),
{
}

/// The output made from a source reports exactly that source's content,
/// and fails exactly when the source fails.
pub proof fn lemma_content_is_source_content<S: Source>(source: S)
    ensures
        RawOutput::of(source).content_spec() == source.content_spec(),
{
}

/// Whatever an identity query on the output returns equals whatever one on
/// its source returns.
pub proof fn lemma_ident_call_forwards<S: Source>(source: S, from_output: AssetIdent, from_source: AssetIdent)
    requires
        call_ensures(<RawOutput<S> as OutputAsset>::ident, (&RawOutput::of(source),), from_output),
        call_ensures(S::ident, (&source,), from_source),
    ensures
        from_output@ == from_source@,
{
}

/// Whatever a content query on the output returns equals whatever one on its
/// source returns, failures included.
pub proof fn lemma_content_call_forwards<S: Source>(
    source: S,
    from_output: Result<AssetContent, ContentUnavailable>,
    from_source: Result<AssetContent, ContentUnavailable>,
)
    requires
        call_ensures(<RawOutput<S> as Asset>::content, (&RawOutput::of(source),), from_output),
        call_ensures(S::content, (&source,), from_source),
    ensures
        content_view(from_output) == content_view(from_source),
{
}

} // verus!
