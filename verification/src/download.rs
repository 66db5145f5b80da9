//! The server executable of one version: what it must hash to, and whether the bytes at
//! hand are it.

use vstd::prelude::*;
use crate::api::{Version, VersionPackageMeta};

verus! {

/// The longest input, in bytes, whose length in bits still fits the 64-bit length field
/// of SHA-1.
pub const SHA1_MAX_BYTES: u64 = 0x1fff_ffff_ffff_ffff;

/// A downloadable file: where it comes from, the SHA-1 digest it must have, written as
/// 40 lower-case hexadecimal digits, and where it is kept.
#[derive(Debug, PartialEq, Eq)]
pub struct Artifact {
    pub url: String,
    pub sha1: String,
    pub path: String,
}

/// What an [`Artifact`] holds.
pub struct ArtifactView {
    pub url: Seq<char>,
    pub sha1: Seq<char>,
    pub path: Seq<char>,
}

impl View for Artifact {
    type V = ArtifactView;

    open spec fn view(&self) -> ArtifactView {
        ArtifactView { url: self.url@, sha1: self.sha1@, path: self.path@ }
    }
}

/// Why a transfer was not accepted.
#[derive(Debug, Clone, Copy, PartialEq, Eq, Structural)]
pub enum DownloadError {
    /// The bytes that arrived do not have the expected digest.
    ChecksumMismatch,
}

/// The SHA-1 digest of `data` in hexadecimal, as `sha1_smol` writes it.
pub uninterp spec fn sha1_hex(data: Seq<u8>) -> Seq<char>;

/// Hashes `data` with `sha1_smol::Sha1::from` and formats the digest with
/// `Sha1::hexdigest`. The contract gives the result its name. Inputs too long for SHA-1's
/// length field are left out: the crate's bit count overflows on them.
#[verifier::external_body]
fn hexdigest(data: &[u8]) -> (digest: String)
    requires
        data@.len() <= SHA1_MAX_BYTES,
    ensures
        digest@ == sha1_hex(data@),
{
    sha1_smol::Sha1::from(data).hexdigest()
}

/// The bytes of `chunks`, one chunk after the other.
pub open spec fn joined(chunks: Seq<Vec<u8>>) -> Seq<u8>
    decreases chunks.len(),
{
    if chunks.len() == 0 {
        Seq::empty()
    } else {
        joined(chunks.drop_last()) + chunks.last()@
    }
}

/// The position of a progress display of `total` steps that stood at `position` and
/// moves `step` further: it stops at `total`.
pub open spec fn advanced(position: u64, step: usize, total: u64) -> int {
    if position + step <= total {
        position + step
    } else {
        total as int
    }
}

/// The position of a progress display after `step` more bytes.
pub fn progress_after(position: u64, step: usize, total: u64) -> (next: u64)
    ensures
        next == advanced(position, step, total),
{
    match position.checked_add(step as u64) {
        Some(sum) => if sum <= total {
            sum
        } else {
            total
        },
        None => total,
    }
}

/// The SHA-1 digest of `data` in hexadecimal, or `None` where `data` is longer than
/// SHA-1 can hash.
pub fn digest_hex(data: &[u8]) -> (digest: Option<String>)
    ensures
        data@.len() <= SHA1_MAX_BYTES ==> (digest matches Some(hex) && hex@ == sha1_hex(data@)),
        data@.len() > SHA1_MAX_BYTES ==> digest is None,
{
    if data.len() as u64 <= SHA1_MAX_BYTES {
        Some(hexdigest(data))
    } else {
        None
    }
}

impl Artifact {
    /// Whether `content` is this artifact: there is a file, it can be hashed, and its
    /// digest is the expected one.
    pub open spec fn accepts(&self, content: Option<Seq<u8>>) -> bool {
        content matches Some(bytes) && bytes.len() <= SHA1_MAX_BYTES && sha1_hex(bytes)
            == self.sha1@
    }

    /// Whether `digest`, if there is one, is the expected digest, character for character.
    pub fn expects(&self, digest: &Option<String>) -> (expected: bool)
        ensures
            expected == (digest matches Some(hex) && hex@ == self.sha1@),
    {
        match digest {
            Some(hex) => *hex == self.sha1,
            None => false,
        }
    }

    /// Whether the file at the artifact's path is the artifact. `file` is the content of
    /// that file, `None` where there is no such file.
    pub fn properly_exists(&self, file: Option<&[u8]>) -> (intact: bool)
        ensures
            intact == self.accepts(
                match file {
                    Some(bytes) => Some(bytes@),
                    None => None,
                },
            ),
    {
        match file {
            Some(bytes) => {
                let digest = digest_hex(bytes);
                self.expects(&digest)
            },
            None => false,
        }
    }

    /// Takes the body of the response, chunk by chunk in the order of arrival, and returns
    /// the file to write: all the chunks joined, provided that this is the artifact.
    pub fn download(&self, chunks: &Vec<Vec<u8>>) -> (fetched: Result<Vec<u8>, DownloadError>)
        ensures
            match fetched {
                Ok(content) => content@ == joined(chunks@) && self.accepts(Some(content@)),
                Err(DownloadError::ChecksumMismatch) => !self.accepts(Some(joined(chunks@))),
            },
    {
        let mut content: Vec<u8> = Vec::new();
        let mut index: usize = 0;
        assert(chunks@.take(0) == Seq::<Vec<u8>>::empty());
        while index < chunks.len()
            invariant
                index <= chunks.len(),
                content@ == joined(chunks@.take(index as int)),
            decreases chunks.len() - index,
        {
            let ghost before = content@;
            content.extend_from_slice(chunks[index].as_slice());
            proof {
                let seen = chunks@.take(index + 1);
                assert(seen.drop_last() == chunks@.take(index as int));
                assert(seen.last() == chunks[index as int]);
                assert(content@ == before + chunks[index as int]@);
            }
            index += 1;
        }
        assert(chunks@.take(index as int) == chunks@);
        if self.properly_exists(Some(content.as_slice())) {
            Ok(content)
        } else {
            Err(DownloadError::ChecksumMismatch)
        }
    }
}

impl Version {
    /// The executable of this version, to be kept at `path`. `meta` is the metadata that
    /// the version's `url` leads to.
    pub fn as_artifact(&self, meta: VersionPackageMeta, path: &str) -> (artifact: Artifact)
        ensures
            artifact@ == (ArtifactView {
                url: meta.downloads.server.url@,
                sha1: meta.downloads.server.sha1@,
                path: path@,
            }),
    {
        Artifact {
            url: meta.downloads.server.url,
            sha1: meta.downloads.server.sha1,
            path: path.to_owned(),
        }
    }
}

} // verus!
