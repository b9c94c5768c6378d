use vstd::prelude::*;

verus! {

/// Semantic version of this build.
pub const VERSION: &'static str = "0.1.0";

/// Source revision identifier captured for this build.
pub const COMMIT: &'static str = "unknown";

/// Timestamp at which this build was produced.
pub const BUILD_DATE: &'static str = "unknown";

/// Static build metadata reported by the version endpoint.
#[derive(Debug, Clone, Copy)]
pub struct BuildInfo {
    pub version: &'static str,
    pub commit: &'static str,
    pub build_date: &'static str,
}

impl BuildInfo {
    /// The one way build metadata is produced: every field carries the
    /// build-time value, and none of them is empty.
    pub fn new() -> (r: Self)
        ensures
            r.version@ == VERSION@,
            r.commit@ == COMMIT@,
            r.build_date@ == BUILD_DATE@,
            r.version@.len() > 0,
            r.commit@.len() > 0,
            r.build_date@.len() > 0,
    {
        proof {
            reveal_strlit("0.1.0");
            reveal_strlit("unknown");
        }
        Self { version: VERSION, commit: COMMIT, build_date: BUILD_DATE }
    }
}

impl Default for BuildInfo {
    fn default() -> (r: Self)
        ensures
            r.version@ == VERSION@,
            r.commit@ == COMMIT@,
            r.build_date@ == BUILD_DATE@,
    {
        BuildInfo::new()
    }
}

/// Human-readable one-line description of the build, as shown by `--version`.
pub fn version_string() -> (r: String)
    ensures
        r@ == VERSION@ + " (commit: "@ + COMMIT@ + ", built: "@ + BUILD_DATE@ + ")"@,
{
    let mut s = String::from_str(VERSION);
    s.append(" (commit: ");
    s.append(COMMIT);
    s.append(", built: ");
    s.append(BUILD_DATE);
    s.append(")");
    s
}

} // verus!
