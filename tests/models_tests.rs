use vsmoddb::models::{
    normalize_filename, DetailedMod, DetailedModRelease, FilenameField, SimpleMod,
};

fn release(filename: Option<&str>, mod_id_str: Option<&str>, main_file: &str) -> DetailedModRelease {
    DetailedModRelease {
        release_id: 1,
        main_file: main_file.to_string(),
        filename: filename.map(|s| s.to_string()),
        file_id: None,
        downloads: 0,
        tags: vec![],
        mod_id_str: mod_id_str.map(|s| s.to_string()),
        mod_version: "1.0.0".to_string(),
        created: "2024-01-01".to_string(),
        changelog: None,
    }
}

#[test]
fn filename_falls_back_to_mod_id_str() {
    let r = release(None, Some("foo"), "x.zip");
    assert_eq!(r.get_filename(), "foo.zip");
}

#[test]
fn explicit_filename_wins() {
    let r = release(Some("bar.zip"), Some("foo"), "x.zip");
    assert_eq!(r.get_filename(), "bar.zip");
    let r = release(Some("bar.zip"), None, "x.zip");
    assert_eq!(r.get_filename(), "bar.zip");
}

#[test]
fn filename_falls_back_to_main_file() {
    let r = release(None, None, "https://example.org/files/x.zip");
    assert_eq!(r.get_filename(), "https://example.org/files/x.zip");
}

#[test]
fn filename_field_keeps_only_text() {
    assert_eq!(normalize_filename(FilenameField::Text("a.zip".to_string())), Some("a.zip".to_string()));
    assert_eq!(normalize_filename(FilenameField::Number), None);
    assert_eq!(normalize_filename(FilenameField::Absent), None);
}

fn simple(name: &str) -> SimpleMod {
    SimpleMod {
        mod_id: 7,
        asset_id: 70,
        downloads: 1,
        follows: 2,
        trending_points: 3,
        comments: 4,
        name: name.to_string(),
        summary: Some("short".to_string()),
        mod_id_strs: vec!["alpha".to_string()],
        author: "someone".to_string(),
        url_alias: None,
        side: "both".to_string(),
        mod_type: "mod".to_string(),
        logo: Some("logo.png".to_string()),
        tags: vec!["Utility".to_string()],
        last_released: "2024-02-02".to_string(),
    }
}

#[test]
fn detailed_from_simple_fills_placeholders() {
    let d = DetailedMod::from_simple(simple("Alpha"));
    assert_eq!(d.mod_id, 7);
    assert_eq!(d.asset_id, 70);
    assert_eq!(d.text, "short");
    assert_eq!(d.logo_filename.as_deref(), Some("logo.png"));
    assert_eq!(d.logo_file.as_deref(), Some("logo.png"));
    assert_eq!(d.logo_file_db.as_deref(), Some("logo.png"));
    assert_eq!(d.created, "Creation date not available");
    assert_eq!(d.last_modified, "Modified date not available");
    assert!(d.releases.is_empty());
    assert!(d.screenshots.is_empty());
    assert!(d.homepage_url.is_none());
}

#[test]
fn simple_from_detailed_gathers_release_ids() {
    let mut d = DetailedMod::from_simple(simple("Alpha"));
    d.releases = vec![
        release(None, Some("alpha"), "a.zip"),
        release(None, None, "b.zip"),
        release(None, Some("alpha2"), "c.zip"),
    ];
    let s = SimpleMod::from_detailed(d);
    assert_eq!(s.mod_id_strs, vec!["alpha".to_string(), "alpha2".to_string()]);
    assert_eq!(s.summary.as_deref(), Some("short"));
    assert_eq!(s.logo.as_deref(), Some("logo.png"));
    assert_eq!(s.name, "Alpha");
}
