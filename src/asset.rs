//! Identities, content snapshots and the node contracts of the asset graph.
use vstd::prelude::*;

verus! {

/// The deterministic key of an asset: the path of its defining input.
/// Two assets with equal identities are the same artifact for caching.
#[derive(Debug, PartialEq, Eq)]
pub struct AssetIdent {
    path: String,
}

impl View for AssetIdent {
    type V = Seq<char>;

    closed spec fn view(&self) -> Seq<char> {
        self.path@
    }
}

impl Clone for AssetIdent {
    fn clone(&self) -> (r: Self)
        ensures
            r == *self,
    {
        AssetIdent { path: self.path.clone() }
    }
}

impl AssetIdent {
    pub fn new(path: String) -> (r: AssetIdent)
        ensures
            r@ == path@,
    {
        AssetIdent { path }
    }

    pub fn path(&self) -> (r: &str)
        ensures
            r@ == self@,
    {
        self.path.as_str()
    }
}

/// An immutable snapshot of the bytes an asset produces.
#[derive(Debug, PartialEq, Eq)]
pub struct AssetContent {
    bytes: Vec<u8>,
}

impl View for AssetContent {
    type V = Seq<u8>;

    closed spec fn view(&self) -> Seq<u8> {
        self.bytes@
    }
}

impl Clone for AssetContent {
    fn clone(&self) -> (r: Self)
        ensures
            r@ == self@,
    {
        AssetContent { bytes: self.bytes.clone() }
    }
}

impl AssetContent {
    pub fn new(bytes: Vec<u8>) -> (r: AssetContent)
        ensures
            r@ == bytes@,
    {
        AssetContent { bytes }
    }

    pub fn bytes(&self) -> (r: &[u8])
        ensures
            r@ == self@,
    {
        self.bytes.as_slice()
    }
}

/// The upstream input of an asset could not be read.
#[derive(Debug, Clone, Copy, PartialEq, Eq, Structural)]
pub struct ContentUnavailable;

/// The model of a content query: the bytes produced, or the failure.
pub open spec fn content_view(r: Result<AssetContent, ContentUnavailable>) -> Result<Seq<u8>, ContentUnavailable> {
    match r {
        Ok(c) => Ok(c@),
        Err(e) => Err(e),
    }
}

/// Anything that produces a content snapshot.
pub trait Asset {
    /// What `content` produces for this asset.
    spec fn content_spec(&self) -> Result<Seq<u8>, ContentUnavailable>;

    fn content(&self) -> (r: Result<AssetContent, ContentUnavailable>)
        ensures
            content_view(r) == self.content_spec(),
    ;
}

/// An original input of the build: an identity and a content.
pub trait Source: Asset {
    /// What `ident` returns for this source.
    spec fn ident_spec(&self) -> Seq<char>;

    fn ident(&self) -> (r: AssetIdent)
        ensures
            r@ == self.ident_spec(),
    ;
}

/// An emitted build artifact: an identity and a content.
pub trait OutputAsset: Asset {
    /// What `ident` returns for this output.
    spec fn ident_spec(&self) -> Seq<char>;

    fn ident(&self) -> (r: AssetIdent)
        ensures
            r@ == self.ident_spec(),
    ;
}

/// Two identity queries on the same output asset give equal identities.
pub proof fn lemma_output_ident_repeatable<A: OutputAsset>(node: A, first: AssetIdent, second: AssetIdent)
    requires
        call_ensures(A::ident, (&node,), first),
        call_ensures(A::ident, (&node,), second),
    ensures
        first@ == second@,
{
}

/// Two content queries on the same asset give equal snapshots, or fail alike.
pub proof fn lemma_content_repeatable<A: Asset>(
    node: A,
    first: Result<AssetContent, ContentUnavailable>,
    second: Result<AssetContent, ContentUnavailable>,
)
    requires
        call_ensures(A::content, (&node,), first),
        call_ensures(A::content, (&node,), second),
    ensures
        content_view(first) == content_view(second),
{
}

/// A source held in memory: a fixed identity and a fixed content, which may
/// be the failure to read it.
pub struct VirtualSource {
    ident: AssetIdent,
    content: Result<AssetContent, ContentUnavailable>,
}

impl VirtualSource {
    /// The identity this source reports.
    pub closed spec fn ident_view(&self) -> Seq<char> {
        self.ident@
    }

    /// The content this source reports.
    pub closed spec fn content_model(&self) -> Result<Seq<u8>, ContentUnavailable> {
        content_view(self.content)
    }

    /// A source whose content reads as `content`.
    pub fn new(ident: AssetIdent, content: AssetContent) -> (r: VirtualSource)
        ensures
            r.ident_view() == ident@,
            r.content_model() == Ok::<Seq<u8>, ContentUnavailable>(content@),
    {
        VirtualSource { ident, content: Ok(content) }
    }

    /// A source whose content cannot be read.
    pub fn unavailable(ident: AssetIdent) -> (r: VirtualSource)
        ensures
            r.ident_view() == ident@,
            r.content_model() == Err::<Seq<u8>, ContentUnavailable>(ContentUnavailable),
    {
        VirtualSource { ident, content: Err(ContentUnavailable) }
    }
}

impl Asset for VirtualSource {
    open spec fn content_spec(&self) -> Result<Seq<u8>, ContentUnavailable> {
        self.content_model()
    }

    fn content(&self) -> (r: Result<AssetContent, ContentUnavailable>) {
        match &self.content {
            Ok(c) => Ok(c.clone()),
            Err(e) => Err(*e),
        }
    }
}

impl Source for VirtualSource {
    open spec fn ident_spec(&self) -> Seq<char> {
        self.ident_view()
    }

    fn ident(&self) -> (r: AssetIdent) {
        self.ident.clone()
    }
}

} // verus!
