use asset_graph::{
    Asset, AssetContent, AssetIdent, ContentUnavailable, OutputAsset, RawOutput, Source,
    VirtualSource,
};

fn source(path: &str, bytes: &[u8]) -> VirtualSource {
    VirtualSource::new(AssetIdent::new(path.to_string()), AssetContent::new(bytes.to_vec()))
}

#[test]
fn raw_output_reports_source_ident_and_content() {
    let out = RawOutput::new(source("foo.txt", b"hello"));
    assert_eq!(out.ident().path(), "foo.txt");
    assert_eq!(out.content().unwrap().bytes(), b"hello");
}

#[test]
fn raw_output_forwards_unavailable_content() {
    let out = RawOutput::new(VirtualSource::unavailable(AssetIdent::new("missing.txt".to_string())));
    assert_eq!(out.content(), Err(ContentUnavailable));
    assert_eq!(out.ident().path(), "missing.txt");
}

#[test]
fn raw_output_ident_equals_source_ident() {
    let src = source("assets/logo.svg", b"<svg/>");
    let expected = src.ident();
    let out = RawOutput::new(src);
    assert_eq!(out.ident(), expected);
}

#[test]
fn raw_output_content_equals_source_content() {
    let src = source("data.bin", &[0u8, 255, 7, 0]);
    let expected = src.content();
    let out = RawOutput::new(src);
    assert_eq!(out.content(), expected);
    assert_eq!(out.content().unwrap().bytes(), &[0u8, 255, 7, 0]);
}

#[test]
fn raw_output_keeps_empty_content() {
    let out = RawOutput::new(source("empty.txt", b""));
    assert_eq!(out.content().unwrap().bytes(), b"");
}

#[test]
fn repeated_queries_agree() {
    let out = RawOutput::new(source("foo.txt", b"hello"));
    assert_eq!(out.ident(), out.ident());
    assert_eq!(out.content(), out.content());
    let failing = RawOutput::new(VirtualSource::unavailable(AssetIdent::new("gone".to_string())));
    assert_eq!(failing.content(), failing.content());
}

#[test]
fn virtual_source_reports_what_it_holds() {
    let src = source("a/b.js", b"export {}");
    assert_eq!(src.ident().path(), "a/b.js");
    assert_eq!(src.content().unwrap().bytes(), b"export {}");
    let gone = VirtualSource::unavailable(AssetIdent::new("a/c.js".to_string()));
    assert_eq!(gone.content(), Err(ContentUnavailable));
}
