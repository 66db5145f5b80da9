//! The version catalogue: its entries, and which of them is the one to run.

use vstd::prelude::*;

verus! {

/// The naming grammar of releases (`1.x`, `1.x.y`, with an optional `-rc` or `-pre`
/// suffix) and of weekly snapshots (`23w14a`), as a regular expression.
pub const VERSION_PATTERN: &'static str =
    "((1\\.\\d+(\\.\\d{1,2})?(-(rc|pre)\\d{1,2})?)|\\d\\dw\\d\\d[a-z])";

/// Where the executable of one version can be fetched, and the digest it must have.
#[derive(Debug, PartialEq, Eq)]
pub struct VersionPackageDownload {
    pub sha1: String,
    pub url: String,
}

/// The downloads of one version; only the server executable is of interest.
#[derive(Debug, PartialEq, Eq)]
pub struct VersionPackageDownloads {
    pub server: VersionPackageDownload,
}

/// The metadata of one version.
#[derive(Debug, PartialEq, Eq)]
pub struct VersionPackageMeta {
    pub downloads: VersionPackageDownloads,
}

/// The identifiers that the catalogue itself declares to be the latest.
#[derive(Debug, PartialEq, Eq)]
pub struct LatestVersions {
    pub release: String,
    pub snapshot: String,
}

/// One entry of the catalogue. Two entries with the same `id` are the same version.
#[derive(Debug, PartialEq, Eq)]
pub struct Version {
    pub id: String,
    pub version_type: String,
    pub url: String,
}

/// The catalogue: the declared latest identifiers, and every known version, newest first.
#[derive(Debug, PartialEq, Eq)]
pub struct VersionManifest {
    pub latest: LatestVersions,
    pub versions: Vec<Version>,
}

/// What a [`Version`] holds.
pub struct VersionView {
    pub id: Seq<char>,
    pub version_type: Seq<char>,
    pub url: Seq<char>,
}

impl View for Version {
    type V = VersionView;

    open spec fn view(&self) -> VersionView {
        VersionView { id: self.id@, version_type: self.version_type@, url: self.url@ }
    }
}

impl Clone for Version {
    fn clone(&self) -> (copy: Version)
        ensures
            copy == *self,
    {
        Version {
            id: self.id.clone(),
            version_type: self.version_type.clone(),
            url: self.url.clone(),
        }
    }
}

/// Why no target version could be resolved.
#[derive(Debug, Clone, Copy, PartialEq, Eq, Structural)]
pub enum ResolveError {
    /// The regular-expression engine refused the naming grammar.
    Pattern,
}

#[verifier::external_type_specification]
#[verifier::external_body]
pub struct ExRegexError(regex::Error);

/// What the regular-expression engine says of `pattern` and `haystack`: `None` where
/// `regex::Regex::new` refuses `pattern`, else `Some` of what `regex::Regex::is_match`
/// of the compiled expression returns for `haystack`.
pub uninterp spec fn regex_search(pattern: Seq<char>, haystack: Seq<char>) -> Option<bool>;

/// Compiles `pattern` with `regex::Regex::new` and asks the compiled expression whether
/// it matches anywhere in `haystack` (`regex::Regex::is_match`). The contract gives the
/// outcome its name and claims nothing else of it: the call fails exactly where the name
/// is `None`, and otherwise returns what the name holds.
#[verifier::external_body]
fn search(pattern: &str, haystack: &str) -> (outcome: Result<bool, regex::Error>)
    ensures
        outcome is Err <==> regex_search(pattern@, haystack@) is None,
        outcome matches Ok(found) ==> regex_search(pattern@, haystack@) == Some(found),
{
    match regex::Regex::new(pattern) {
        Ok(expression) => Ok(expression.is_match(haystack)),
        Err(refusal) => Err(refusal),
    }
}

/// The position of the first outcome that is not a plain miss, or the length of
/// `outcomes` where every one is a miss.
pub open spec fn first_decisive(outcomes: Seq<Option<bool>>) -> int
    decreases outcomes.len(),
{
    if outcomes.len() == 0 {
        0
    } else if outcomes[0] == Some(false) {
        1 + first_decisive(outcomes.skip(1))
    } else {
        0
    }
}

/// The entry that a list of match outcomes selects: the position of the first hit,
/// provided that every outcome before it is a miss. `Ok(None)` where every outcome is a
/// miss; the error where an outcome is missing before any hit was found.
pub open spec fn selection(outcomes: Seq<Option<bool>>) -> Result<Option<int>, ResolveError> {
    let at = first_decisive(outcomes);
    if at >= outcomes.len() {
        Ok(None)
    } else if outcomes[at] is None {
        Err(ResolveError::Pattern)
    } else {
        Ok(Some(at))
    }
}

/// The outcomes of matching the identifiers of `versions`, in order, against the naming
/// grammar.
pub open spec fn grammar_outcomes(versions: Seq<Version>) -> Seq<Option<bool>> {
    Seq::new(versions.len(), |i: int| regex_search(VERSION_PATTERN@, versions[i].id@))
}

/// `first_decisive` is what its name says: it lies within the list, every outcome before
/// it is a miss, and the one at it, if there is one, is not.
pub proof fn lemma_first_decisive(outcomes: Seq<Option<bool>>)
    ensures
        0 <= first_decisive(outcomes) <= outcomes.len(),
        forall|j: int| 0 <= j < first_decisive(outcomes) ==> outcomes[j] == Some(false),
        first_decisive(outcomes) < outcomes.len() ==> outcomes[first_decisive(outcomes)]
            != Some(false),
    decreases outcomes.len(),
{
    if outcomes.len() > 0 && outcomes[0] == Some(false) {
        let rest = outcomes.skip(1);
        lemma_first_decisive(rest);
        assert forall|j: int| 0 <= j < first_decisive(outcomes) implies outcomes[j] == Some(
            false,
        ) by {
            if j > 0 {
                assert(rest[j - 1] == outcomes[j]);
            }
        }
        assert(first_decisive(rest) < rest.len() ==> rest[first_decisive(rest)]
            == outcomes[first_decisive(outcomes)]);
    }
}

/// An index with the three properties of `lemma_first_decisive` is `first_decisive`.
pub proof fn lemma_first_decisive_is_unique(outcomes: Seq<Option<bool>>, at: int)
    requires
        0 <= at <= outcomes.len(),
        forall|j: int| 0 <= j < at ==> outcomes[j] == Some(false),
        at < outcomes.len() ==> outcomes[at] != Some(false),
    ensures
        first_decisive(outcomes) == at,
{
    lemma_first_decisive(outcomes);
    let found = first_decisive(outcomes);
    if found < at {
        assert(outcomes[found] == Some(false));
    } else if at < found {
        assert(outcomes[at] == Some(false));
    }
}

impl VersionManifest {
    /// The entry that `outcomes` selects, where `outcomes[i]` is the outcome of matching
    /// the identifier of entry `i`. Entries without an outcome are not considered, and
    /// outcomes without an entry are ignored.
    pub fn first_accepted(&self, outcomes: &Vec<Option<bool>>) -> (target: Result<
        Option<Version>,
        ResolveError,
    >)
        ensures
            ({
                let shared = if outcomes.len() <= self.versions.len() {
                    outcomes.len()
                } else {
                    self.versions.len()
                };
                match selection(outcomes@.take(shared as int)) {
                    Ok(Some(at)) => target matches Ok(Some(version)) && version
                        == self.versions@[at],
                    Ok(None) => target == Ok::<Option<Version>, ResolveError>(None),
                    Err(error) => target == Err::<Option<Version>, ResolveError>(error),
                }
            }),
    {
        let limit: usize = if outcomes.len() <= self.versions.len() {
            outcomes.len()
        } else {
            self.versions.len()
        };
        let ghost considered = outcomes@.take(limit as int);
        let mut index: usize = 0;
        while index < limit
            invariant
                index <= limit,
                limit == if outcomes.len() <= self.versions.len() {
                    outcomes.len()
                } else {
                    self.versions.len()
                },
                considered == outcomes@.take(limit as int),
                forall|j: int| 0 <= j < index ==> considered[j] == Some(false),
            decreases limit - index,
        {
            assert(considered[index as int] == outcomes[index as int]);
            match outcomes[index] {
                Some(false) => {},
                Some(true) => {
                    proof {
                        lemma_first_decisive_is_unique(considered, index as int);
                    }
                    return Ok(Some(self.versions[index].clone()));
                },
                None => {
                    proof {
                        lemma_first_decisive_is_unique(considered, index as int);
                    }
                    return Err(ResolveError::Pattern);
                },
            }
            index += 1;
        }
        proof {
            lemma_first_decisive_is_unique(considered, limit as int);
        }
        Ok(None)
    }

    /// The target version: the first entry of the catalogue whose identifier matches the
    /// naming grammar, `None` where no entry does. The catalogue lists the newest version
    /// first, so this is the newest release or snapshot; the identifiers that the
    /// catalogue declares under `latest` are not consulted.
    ///
    /// Each identifier is matched by the regular-expression engine, one after the other,
    /// up to the first that is not a miss.
    pub fn absolute_latest(&self) -> (target: Result<Option<Version>, ResolveError>)
        ensures
            match selection(grammar_outcomes(self.versions@)) {
                Ok(Some(at)) => target matches Ok(Some(version)) && version == self.versions@[at],
                Ok(None) => target == Ok::<Option<Version>, ResolveError>(None),
                Err(error) => target == Err::<Option<Version>, ResolveError>(error),
            },
    {
        let ghost all = grammar_outcomes(self.versions@);
        let mut outcomes: Vec<Option<bool>> = Vec::new();
        let mut decided = false;
        while !decided && outcomes.len() < self.versions.len()
            invariant
                outcomes.len() <= self.versions.len(),
                all == grammar_outcomes(self.versions@),
                outcomes@ == all.take(outcomes.len() as int),
                decided ==> outcomes.len() > 0 && outcomes[outcomes.len() - 1] != Some(false),
                forall|j: int|
                    0 <= j < outcomes.len() - (if decided {
                        1int
                    } else {
                        0int
                    }) ==> outcomes[j] == Some(false),
            decreases self.versions.len() - outcomes.len() + (if decided {
                0int
            } else {
                1int
            }),
        {
            let at: usize = outcomes.len();
            let outcome = match search(VERSION_PATTERN, self.versions[at].id.as_str()) {
                Ok(found) => Some(found),
                Err(_) => None,
            };
            assert(outcome == all[at as int]);
            decided = match outcome {
                Some(false) => false,
                _ => true,
            };
            outcomes.push(outcome);
            assert(outcomes@ == all.take(outcomes.len() as int));
        }
        proof {
            let seen = outcomes@;
            let at = if decided {
                seen.len() - 1
            } else {
                seen.len() as int
            };
            assert(seen.take(seen.len() as int) == seen);
            assert forall|j: int| 0 <= j < seen.len() implies seen[j] == all[j] by {}
            lemma_first_decisive_is_unique(seen, at);
            lemma_first_decisive_is_unique(all, at);
        }
        self.first_accepted(&outcomes)
    }
}

} // verus!
