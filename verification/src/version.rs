//! Engine version identity for save-file and checkpoint compatibility.
//!
//! Two engine versions are compatible if and only if both `semver` and
//! `content_hash` match. The git commit is informational only.

use vstd::prelude::*;

verus! {

/// Semantic version of the engine.
pub const SEMVER: &'static str = "0.1.0";

/// Commit the engine was built from, when known.
pub const GIT_COMMIT: &'static str = "unknown";

#[derive(Debug)]
pub struct EngineVersion {
    pub semver: String,
    pub git_commit: String,
    pub content_hash: String,
}

/// Two versions are compatible when semver and content hash match.
pub open spec fn spec_compatible(a: EngineVersion, b: EngineVersion) -> bool {
    a.semver@ == b.semver@ && a.content_hash@ == b.content_hash@
}

/// First `n` characters of a sequence, or all of it when shorter.
pub open spec fn prefix_at_most(s: Seq<char>, n: int) -> Seq<char> {
    if s.len() < n { s } else { s.take(n) }
}

impl EngineVersion {
    /// Build a version with the given content hash; semver and commit are the
    /// engine's own.
    pub fn new(content_hash: String) -> (r: EngineVersion)
        ensures
            r.semver@ == SEMVER@,
            r.git_commit@ == GIT_COMMIT@,
            r.content_hash == content_hash,
    {
        EngineVersion {
            semver: SEMVER.to_string(),
            git_commit: GIT_COMMIT.to_string(),
            content_hash,
        }
    }

    /// Two versions are compatible iff semver and content hash match.
    pub fn is_compatible_with(&self, other: &EngineVersion) -> (r: bool)
        ensures
            r == spec_compatible(*self, *other),
    {
        self.semver == other.semver && self.content_hash == other.content_hash
    }

    /// `v<semver> (commit: <first 8 chars of commit>, content: <first 12
    /// chars of content hash>)`.
    pub fn display_string(&self) -> (r: String)
        ensures
            r@ == "v"@ + self.semver@ + " (commit: "@ + prefix_at_most(self.git_commit@, 8) + ", content: "@
                + prefix_at_most(self.content_hash@, 12) + ")"@,
    {
        let commit = self.git_commit.as_str();
        let clen = commit.unicode_len();
        let cn = if clen < 8 { clen } else { 8 };
        let hash = self.content_hash.as_str();
        let hlen = hash.unicode_len();
        let hn = if hlen < 12 { hlen } else { 12 };
        let mut s = "v".to_string();
        s.append(self.semver.as_str());
        s.append(" (commit: ");
        s.append(commit.substring_char(0, cn));
        s.append(", content: ");
        s.append(hash.substring_char(0, hn));
        s.append(")");
        proof {
            assert(commit@.subrange(0, cn as int) =~= prefix_at_most(self.git_commit@, 8));
            assert(hash@.subrange(0, hn as int) =~= prefix_at_most(self.content_hash@, 12));
        }
        s
    }
}

/// Compatibility is an equivalence: every version is compatible with
/// itself, the relation is symmetric, and it is transitive.
pub proof fn law_compatibility_is_equivalence(a: EngineVersion, b: EngineVersion, c: EngineVersion)
    ensures
        spec_compatible(a, a),
        spec_compatible(a, b) == spec_compatible(b, a),
        spec_compatible(a, b) && spec_compatible(b, c) ==> spec_compatible(a, c),
{
}

} // verus!
