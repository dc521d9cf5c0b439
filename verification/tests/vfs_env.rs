use widget_engine::error::RenderError;
use widget_engine::error::VfsError;
use widget_engine::fonts::FontCatalog;
use widget_engine::raster::encode_page_image;
use widget_engine::raster::resolve_dimensions;
use widget_engine::vfs::Bundle;
use widget_engine::vfs::directory_target;
use widget_engine::vfs::get_template;
use widget_engine::vfs::resolve_virtual;
use widget_engine::world::Environment;

fn sample_bundle() -> Bundle {
    Bundle {
        entries: vec![
            ("widget.typ".to_string(), b"#set page(width: 10pt)".to_vec()),
            ("data/raw.bin".to_string(), vec![0, 159, 146, 150]),
        ],
    }
}

#[test]
fn bundle_lookup_exact_key() {
    let bundle = sample_bundle();
    let data = bundle.get("/widget.typ").unwrap();
    assert_eq!(data, b"#set page(width: 10pt)".to_vec());
    let data = bundle.get("widget.typ").unwrap();
    assert_eq!(data, b"#set page(width: 10pt)".to_vec());
}

#[test]
fn bundle_missing_key_names_the_path() {
    let bundle = sample_bundle();
    match bundle.get("/fonts/missing.ttf") {
        Err(VfsError::NotFound { path }) => assert_eq!(path, "/fonts/missing.ttf"),
        _ => panic!("expected a not-found failure"),
    }
}

#[test]
fn parent_segment_is_rejected_not_resolved() {
    let bundle = Bundle {
        entries: vec![("etc/passwd".to_string(), b"boom".to_vec())],
    };
    match bundle.get("/data/../etc/passwd") {
        Err(VfsError::NotFound { path }) => assert_eq!(path, "/data/../etc/passwd"),
        _ => panic!("an escaping path must not resolve"),
    }
    assert!(resolve_virtual("/a/../b").is_none());
    assert!(resolve_virtual("..").is_none());
    assert!(resolve_virtual("../x").is_none());
    assert_eq!(resolve_virtual("/a/b").unwrap(), "a/b");
    assert_eq!(resolve_virtual("a..b/c").unwrap(), "a..b/c");
}

#[test]
fn directory_target_contained_join() {
    assert_eq!(directory_target("root", "/a/b").unwrap(), "root/a/b");
    assert!(directory_target("root", "/a/../../b").is_none());
    assert!(directory_target("root", "../b").is_none());
}

#[test]
fn get_template_decodes_text() {
    let bundle = sample_bundle();
    let text = get_template(&bundle, "widget.typ").unwrap();
    assert_eq!(text, "#set page(width: 10pt)");
}

#[test]
fn get_template_rejects_invalid_utf8() {
    let bundle = Bundle {
        entries: vec![("bad.typ".to_string(), vec![0xff, 0xfe, 0x00])],
    };
    assert!(get_template(&bundle, "bad.typ").is_none());
}

fn test_environment(main_path: &str, text: &str, bundle: Bundle) -> Environment {
    let catalog = FontCatalog::load(&vec![]).unwrap();
    Environment::new(
        text.to_string(),
        main_path.to_string(),
        &vec![],
        bundle,
        catalog,
    )
}

#[test]
fn main_path_precedence_over_bundle() {
    let bundle = Bundle {
        entries: vec![("widget.typ".to_string(), b"colliding bundle copy".to_vec())],
    };
    let env = test_environment("/widget.typ", "the in-memory source", bundle);
    let text = env.source_text("/widget.typ").unwrap();
    assert_eq!(text, "the in-memory source");
    let bytes = env.file_bytes("/widget.typ").unwrap();
    assert_eq!(bytes, b"the in-memory source".to_vec());
}

#[test]
fn non_main_paths_resolve_through_bundle() {
    let env = test_environment("/main.typ", "main text", sample_bundle());
    let text = env.source_text("/widget.typ").unwrap();
    assert_eq!(text, "#set page(width: 10pt)");
    let bytes = env.file_bytes("/data/raw.bin").unwrap();
    assert_eq!(bytes, vec![0, 159, 146, 150]);
    match env.source_text("/data/raw.bin") {
        Err(VfsError::InvalidUtf8 { path }) => assert_eq!(path, "/data/raw.bin"),
        _ => panic!("undecodable text must be its own failure"),
    }
    match env.file_bytes("/nope.png") {
        Err(VfsError::NotFound { path }) => assert_eq!(path, "/nope.png"),
        _ => panic!("expected a not-found failure"),
    }
}

#[test]
fn font_catalog_rejects_undecodable_buffer() {
    let buffers = vec![b"this is no font".to_vec()];
    match FontCatalog::load(&buffers) {
        Err(RenderError::FontDecodeFailure { buffer_index }) => assert_eq!(buffer_index, 0),
        _ => panic!("a faceless buffer is a fatal decode failure"),
    }
}

#[test]
fn font_catalog_handles_are_stable_across_builds() {
    let buffers: Vec<Vec<u8>> = typst_assets::fonts().map(|b| b.to_vec()).collect();
    assert!(!buffers.is_empty());
    let c1 = FontCatalog::load(&buffers).unwrap();
    let c2 = FontCatalog::load(&buffers).unwrap();
    assert_eq!(c1.face_total(), c2.face_total());
    assert!(c1.face_total() > 0);
    for i in 0..buffers.len() {
        assert_eq!(c1.buffer_start(i), c2.buffer_start(i));
    }
    assert_eq!(c1.buffer_start(0).unwrap(), 0);
    assert!(c1.font(0).is_some());
    assert!(c1.font(c1.face_total()).is_none());

    let copy = c1.duplicate();
    assert_eq!(copy.face_total(), c1.face_total());
    for i in 0..buffers.len() {
        assert_eq!(copy.buffer_start(i), c1.buffer_start(i));
    }
    assert!(copy.font(0).is_some());
}

#[test]
fn resolve_dimensions_clamps_degenerate_sizes() {
    assert_eq!(resolve_dimensions(Some(0), Some(0), 1072, 724), (1, 1));
    assert_eq!(resolve_dimensions(None, None, 1072, 724), (1072, 724));
    assert_eq!(resolve_dimensions(Some(300), None, 1072, 0), (300, 1));
    assert_eq!(resolve_dimensions(None, Some(9), 0, 724), (1, 9));
}

#[test]
fn encode_page_image_rejects_mismatched_buffer() {
    match encode_page_image(vec![0u8; 3], 1, 1) {
        Err(RenderError::RasterizeFailure) => {},
        _ => panic!("a short buffer must be a rasterize failure"),
    }
    match encode_page_image(vec![], 0, 5) {
        Err(RenderError::RasterizeFailure) => {},
        _ => panic!("an empty page must be a rasterize failure"),
    }
}

#[test]
fn encode_page_image_emits_grayscale_png() {
    let rgba = vec![255u8, 0, 0, 255, 0, 255, 0, 255];
    let png = encode_page_image(rgba, 2, 1).unwrap();
    let decoded = image::load_from_memory(&png).unwrap();
    assert_eq!(decoded.width(), 2);
    assert_eq!(decoded.height(), 1);
    assert!(matches!(decoded.color(), image::ColorType::L8));
}

#[test]
fn vfs_error_names_its_path() {
    let e = VfsError::NotFound { path: "/a.png".to_string() };
    assert_eq!(e.path(), "/a.png");
    match e.into_render_error() {
        RenderError::AssetNotFound { path } => assert_eq!(path, "/a.png"),
        _ => panic!("a missing asset must stay a missing asset"),
    }
    let e = VfsError::InvalidUtf8 { path: "/b.typ".to_string() };
    match e.into_render_error() {
        RenderError::InvalidEncoding { path } => assert_eq!(path, "/b.typ"),
        _ => panic!("bad encoding must stay bad encoding"),
    }
}
