use vsmoddb::error::ApiError;
use vsmoddb::models::{DetailedModRelease, GameVersion};
use vsmoddb::versions::{
    is_prerelease_name, most_recent_game_version, most_recent_stable_game_version, release_for_version,
};

fn versions(names: &[&str]) -> Vec<GameVersion> {
    names
        .iter()
        .enumerate()
        .map(|(i, n)| GameVersion { tag_id: -(i as i64) - 1, name: n.to_string(), color: "#fff".to_string() })
        .collect()
}

fn release(id: u32, tags: &[&str]) -> DetailedModRelease {
    DetailedModRelease {
        release_id: id,
        main_file: format!("{}.zip", id),
        filename: None,
        file_id: None,
        downloads: 0,
        tags: tags.iter().map(|s| s.to_string()).collect(),
        mod_id_str: None,
        mod_version: "1.0".to_string(),
        created: "2024".to_string(),
        changelog: None,
    }
}

#[test]
fn stable_version_skips_prereleases() {
    let v = most_recent_stable_game_version(versions(&["1.0-rc1", "1.0", "1.1-pre"])).unwrap();
    assert_eq!(v.name, "1.0");
}

#[test]
fn stable_version_all_prerelease_is_error() {
    let r = most_recent_stable_game_version(versions(&["1.0-rc1", "1.1-dev", "1.2-pre.1"]));
    assert!(matches!(r, Err(ApiError::Unexpected(_))));
    let r = most_recent_stable_game_version(vec![]);
    assert!(matches!(r, Err(ApiError::Unexpected(_))));
}

#[test]
fn prerelease_markers_are_case_sensitive() {
    assert!(is_prerelease_name("1.20.0-pre.3"));
    assert!(is_prerelease_name("1.19.0-rc.1"));
    assert!(is_prerelease_name("1.21-dev"));
    assert!(!is_prerelease_name("1.20.0-RC1"));
    assert!(!is_prerelease_name("1.20.4"));
}

#[test]
fn most_recent_version_is_last() {
    let v = most_recent_game_version(versions(&["1.0", "1.1-pre"])).unwrap();
    assert_eq!(v.name, "1.1-pre");
    assert!(matches!(most_recent_game_version(vec![]), Err(ApiError::Unexpected(_))));
}

#[test]
fn release_for_version_picks_first_tagged() {
    let rs = vec![release(3, &["1.20.0"]), release(2, &["1.19.8", "1.19.7"]), release(1, &["1.19.7"])];
    assert_eq!(release_for_version(rs, "1.19.7").unwrap().release_id, 2);
}

#[test]
fn release_for_version_falls_back_to_first() {
    let rs = vec![release(3, &["1.20.0"]), release(2, &["1.19.8"])];
    assert_eq!(release_for_version(rs, "1.18.0").unwrap().release_id, 3);
}

#[test]
fn release_for_version_without_releases_is_error() {
    assert!(matches!(release_for_version(vec![], "1.18.0"), Err(ApiError::Unexpected(_))));
}
