use unwrap_rs::static_files::{content_type_for, extension, resolve_static};

#[test]
fn known_extensions() {
    assert_eq!(content_type_for("index.html"), "text/html; charset=utf-8");
    assert_eq!(content_type_for("style.css"), "text/css; charset=utf-8");
    assert_eq!(content_type_for("app.js"), "application/javascript");
    assert_eq!(content_type_for("app_bg.wasm"), "application/wasm");
    assert_eq!(content_type_for("icon.svg"), "image/svg+xml");
    assert_eq!(content_type_for("links.json"), "application/json");
    assert_eq!(content_type_for("sitemap.xml"), "application/xml; charset=utf-8");
    assert_eq!(content_type_for("a.png"), "image/png");
    assert_eq!(content_type_for("a.jpg"), "image/jpeg");
    assert_eq!(content_type_for("a.jpeg"), "image/jpeg");
    assert_eq!(content_type_for("favicon.ico"), "image/x-icon");
    assert_eq!(content_type_for("f.woff2"), "font/woff2");
    assert_eq!(content_type_for("f.woff"), "font/woff");
    assert_eq!(content_type_for("f.ttf"), "font/ttf");
    assert_eq!(content_type_for("robots.txt"), "text/plain; charset=utf-8");
}

#[test]
fn unknown_and_odd_names() {
    assert_eq!(content_type_for("archive.tar.gz"), "application/octet-stream");
    assert_eq!(content_type_for("INDEX.HTML"), "application/octet-stream");
    assert_eq!(content_type_for("file."), "application/octet-stream");
    assert_eq!(content_type_for(""), "application/octet-stream");
    assert_eq!(content_type_for("html"), "text/html; charset=utf-8");
    assert_eq!(content_type_for("min.js.map"), "application/octet-stream");
    assert_eq!(content_type_for("a.b.css"), "text/css; charset=utf-8");
}

#[test]
fn extension_is_after_the_last_dot() {
    assert_eq!(extension("a.b.c"), "c");
    assert_eq!(extension("noext"), "noext");
    assert_eq!(extension("trailing."), "");
    assert_eq!(extension(".hidden"), "hidden");
    assert_eq!(extension("ünï.cöde"), "cöde");
}

fn segs(v: &[&str]) -> Vec<String> {
    v.iter().map(|s| s.to_string()).collect()
}

#[test]
fn empty_path_serves_index() {
    let t = resolve_static(&Vec::new()).expect("served");
    assert_eq!(t.segments, segs(&["index.html"]));
    assert_eq!(t.content_type, "text/html; charset=utf-8");
}

#[test]
fn nested_path_is_kept() {
    let t = resolve_static(&segs(&["icons", "linkedin.svg"])).expect("served");
    assert_eq!(t.segments, segs(&["icons", "linkedin.svg"]));
    assert_eq!(t.content_type, "image/svg+xml");
}

#[test]
fn traversal_is_refused() {
    assert!(resolve_static(&segs(&["..", "etc", "passwd"])).is_none());
    assert!(resolve_static(&segs(&["icons", "."])).is_none());
    assert!(resolve_static(&segs(&["icons", ""])).is_none());
    assert!(resolve_static(&segs(&["a/b"])).is_none());
    assert!(resolve_static(&segs(&["a\\b"])).is_none());
}

#[test]
fn dots_inside_names_are_fine() {
    let t = resolve_static(&segs(&["...", "x..y.js"])).expect("served");
    assert_eq!(t.content_type, "application/javascript");
}
