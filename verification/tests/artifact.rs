use bleedingedge::download::{digest_hex, progress_after, Artifact, DownloadError};

fn artifact(sha1: &str) -> Artifact {
    Artifact {
        url: String::from("https://example.invalid/server.jar"),
        sha1: String::from(sha1),
        path: String::from("run/server.jar"),
    }
}

#[test]
fn digest_is_the_sha1_in_lower_case_hexadecimal() {
    assert_eq!(digest_hex(b""), Some(String::from("da39a3ee5e6b4b0d3255bfef95601890afd80709")));
    assert_eq!(digest_hex(b"abc"), Some(String::from("a9993e364706816aba3e25717850c26c9cd0d89d")));
    assert_eq!(
        digest_hex(b"hello world"),
        Some(String::from("2aae6c35c94fcfb415dbe95f408b9ce91ee846ed"))
    );
}

#[test]
fn file_with_the_expected_digest_is_accepted() {
    let expected = artifact("2aae6c35c94fcfb415dbe95f408b9ce91ee846ed");
    assert!(expected.properly_exists(Some(b"hello world")));
}

#[test]
fn one_byte_mutation_is_rejected() {
    let expected = artifact("2aae6c35c94fcfb415dbe95f408b9ce91ee846ed");
    assert!(!expected.properly_exists(Some(b"hello worle")));
    let content = b"hello world".to_vec();
    for position in 0..content.len() {
        let mut mutated = content.clone();
        mutated[position] ^= 1;
        assert!(!expected.properly_exists(Some(&mutated)));
    }
}

#[test]
fn missing_file_is_rejected() {
    let expected = artifact("da39a3ee5e6b4b0d3255bfef95601890afd80709");
    assert!(!expected.properly_exists(None));
    assert!(expected.properly_exists(Some(b"")));
}

#[test]
fn digest_is_compared_character_for_character() {
    let upper = artifact("2AAE6C35C94FCFB415DBE95F408B9CE91EE846ED");
    assert!(!upper.properly_exists(Some(b"hello world")));
    let expected = artifact("2aae6c35c94fcfb415dbe95f408b9ce91ee846ed");
    assert!(expected.expects(&Some(String::from("2aae6c35c94fcfb415dbe95f408b9ce91ee846ed"))));
    assert!(!expected.expects(&Some(String::from("2aae6c35c94fcfb415dbe95f408b9ce91ee846e"))));
    assert!(!expected.expects(&None));
}

#[test]
fn download_joins_the_chunks_in_order() {
    let expected = artifact("5dc4e362c07be5ad09480a57b841dc73099bfe5a");
    let chunks = vec![b"server".to_vec(), Vec::new(), b"-jar-".to_vec(), b"bytes".to_vec()];
    assert_eq!(expected.download(&chunks), Ok(b"server-jar-bytes".to_vec()));
}

#[test]
fn download_with_a_wrong_digest_is_reported() {
    let expected = artifact("5dc4e362c07be5ad09480a57b841dc73099bfe5a");
    let chunks = vec![b"server".to_vec(), b"-jar-".to_vec(), b"bytez".to_vec()];
    assert_eq!(expected.download(&chunks), Err(DownloadError::ChecksumMismatch));
    let reordered = vec![b"-jar-".to_vec(), b"server".to_vec(), b"bytes".to_vec()];
    assert_eq!(expected.download(&reordered), Err(DownloadError::ChecksumMismatch));
}

#[test]
fn empty_download_is_checked_like_any_other() {
    let nothing = artifact("da39a3ee5e6b4b0d3255bfef95601890afd80709");
    assert_eq!(nothing.download(&Vec::new()), Ok(Vec::new()));
    let something = artifact("a9993e364706816aba3e25717850c26c9cd0d89d");
    assert_eq!(something.download(&Vec::new()), Err(DownloadError::ChecksumMismatch));
}

#[test]
fn verification_holds_before_and_after_a_download() {
    let expected = artifact("5dc4e362c07be5ad09480a57b841dc73099bfe5a");
    assert!(!expected.properly_exists(None));
    assert!(!expected.properly_exists(Some(b"server-jar-bytez")));
    let written = expected
        .download(&vec![b"server-jar".to_vec(), b"-bytes".to_vec()])
        .expect("the chunks hash to the expected digest");
    assert!(expected.properly_exists(Some(&written)));
    let mut mutated = written.clone();
    mutated[3] = mutated[3].wrapping_add(1);
    assert!(!expected.properly_exists(Some(&mutated)));
}

#[test]
fn progress_stops_at_the_total() {
    assert_eq!(progress_after(0, 0, 0), 0);
    assert_eq!(progress_after(10, 1, 12), 11);
    assert_eq!(progress_after(10, 2, 12), 12);
    assert_eq!(progress_after(10, 5, 12), 12);
    assert_eq!(progress_after(0, 1048576, 5000000), 1048576);
}

#[test]
fn progress_does_not_overflow() {
    assert_eq!(progress_after(u64::MAX, 1, u64::MAX), u64::MAX);
    assert_eq!(progress_after(u64::MAX - 1, 10, 100), 100);
}
