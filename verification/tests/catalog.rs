use bleedingedge::api::{
    LatestVersions, ResolveError, Version, VersionManifest, VersionPackageDownload,
    VersionPackageDownloads, VersionPackageMeta, VERSION_PATTERN,
};
use bleedingedge::download::Artifact;

fn entry(id: &str, kind: &str) -> Version {
    Version {
        id: String::from(id),
        version_type: String::from(kind),
        url: format!("https://example.invalid/{}.json", id),
    }
}

fn manifest(release: &str, snapshot: &str, ids: &[&str]) -> VersionManifest {
    VersionManifest {
        latest: LatestVersions { release: String::from(release), snapshot: String::from(snapshot) },
        versions: ids.iter().map(|id| entry(id, "release")).collect(),
    }
}

#[test]
fn first_entry_that_matches_the_grammar_is_the_target() {
    let catalog = manifest("1.21.1", "1.21.1", &["1.21.1", "1.21", "1.20.6"]);
    assert_eq!(catalog.absolute_latest(), Ok(Some(entry("1.21.1", "release"))));
}

#[test]
fn entries_outside_the_grammar_are_passed_over() {
    let catalog = manifest("1.21.1", "24w14a", &["rd-132211", "inf-20100618", "24w14a", "1.21.1"]);
    assert_eq!(catalog.absolute_latest(), Ok(Some(entry("24w14a", "release"))));
}

#[test]
fn release_candidates_and_pre_releases_match() {
    let catalog = manifest("1.21.1", "1.21.2-rc1", &["1.21.2-rc1", "1.21.1"]);
    assert_eq!(catalog.absolute_latest(), Ok(Some(entry("1.21.2-rc1", "release"))));
    let catalog = manifest("1.21.1", "1.21.2-pre3", &["1.21.2-pre3", "1.21.1"]);
    assert_eq!(catalog.absolute_latest(), Ok(Some(entry("1.21.2-pre3", "release"))));
}

#[test]
fn catalogue_without_a_match_resolves_to_nothing() {
    let catalog = manifest("x", "y", &["rd-132211", "inf-20100618", "c0.30_01c"]);
    assert_eq!(catalog.absolute_latest(), Ok(None));
}

#[test]
fn empty_catalogue_resolves_to_nothing() {
    let catalog = manifest("1.21.1", "1.21.1", &[]);
    assert_eq!(catalog.absolute_latest(), Ok(None));
}

#[test]
fn declared_latest_is_not_consulted() {
    let catalog = manifest("9.9.9", "99w99z", &["1.20.6", "1.21.1"]);
    assert_eq!(catalog.absolute_latest(), Ok(Some(entry("1.20.6", "release"))));
}

#[test]
fn grammar_is_searched_for_anywhere_in_the_identifier() {
    let catalog = manifest("x", "y", &["old-alpha", "b1.7.3"]);
    assert_eq!(catalog.absolute_latest(), Ok(Some(entry("b1.7.3", "release"))));
}

#[test]
fn grammar_is_the_expected_expression() {
    assert_eq!(VERSION_PATTERN, r"((1\.\d+(\.\d{1,2})?(-(rc|pre)\d{1,2})?)|\d\dw\d\d[a-z])");
}

#[test]
fn first_accepted_takes_the_first_hit() {
    let catalog = manifest("x", "y", &["a", "b", "c"]);
    let outcomes = vec![Some(false), Some(true), Some(true)];
    assert_eq!(catalog.first_accepted(&outcomes), Ok(Some(entry("b", "release"))));
}

#[test]
fn first_accepted_without_a_hit_is_none() {
    let catalog = manifest("x", "y", &["a", "b", "c"]);
    assert_eq!(catalog.first_accepted(&vec![Some(false), Some(false), Some(false)]), Ok(None));
    assert_eq!(catalog.first_accepted(&vec![]), Ok(None));
}

#[test]
fn first_accepted_fails_on_a_missing_outcome_before_any_hit() {
    let catalog = manifest("x", "y", &["a", "b", "c"]);
    assert_eq!(
        catalog.first_accepted(&vec![Some(false), None, Some(true)]),
        Err(ResolveError::Pattern)
    );
}

#[test]
fn first_accepted_ignores_what_follows_the_first_hit() {
    let catalog = manifest("x", "y", &["a", "b", "c"]);
    assert_eq!(
        catalog.first_accepted(&vec![Some(true), None, Some(true)]),
        Ok(Some(entry("a", "release")))
    );
}

#[test]
fn first_accepted_considers_only_entries_with_an_outcome() {
    let catalog = manifest("x", "y", &["a", "b"]);
    assert_eq!(catalog.first_accepted(&vec![Some(false)]), Ok(None));
    assert_eq!(
        catalog.first_accepted(&vec![Some(false), Some(false), Some(true)]),
        Ok(None)
    );
}

#[test]
fn clone_of_a_version_is_equal_to_it() {
    let version = entry("1.21.1", "release");
    assert_eq!(version.clone(), version);
}

#[test]
fn artifact_is_built_from_the_server_download() {
    let meta = VersionPackageMeta {
        downloads: VersionPackageDownloads {
            server: VersionPackageDownload {
                sha1: String::from("2aae6c35c94fcfb415dbe95f408b9ce91ee846ed"),
                url: String::from("https://example.invalid/server.jar"),
            },
        },
    };
    let artifact = entry("1.21.1", "release").as_artifact(meta, "/srv/run/server.jar");
    assert_eq!(
        artifact,
        Artifact {
            url: String::from("https://example.invalid/server.jar"),
            sha1: String::from("2aae6c35c94fcfb415dbe95f408b9ce91ee846ed"),
            path: String::from("/srv/run/server.jar"),
        }
    );
}
