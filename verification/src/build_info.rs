//! The version that a build reports of itself.

use vstd::prelude::*;
use vstd::string::*;

verus! {

/// The short form of a build's version: the package version, a hyphen and
/// the short hash of the commit.
pub open spec fn short_version(version: Seq<char>, short_sha: Seq<char>) -> Seq<char> {
    version + "-"@ + short_sha
}

/// The long form of a build's version: the short form, then the date of the
/// commit in round brackets.
pub open spec fn long_version(
    version: Seq<char>,
    short_sha: Seq<char>,
    commit_date: Seq<char>,
) -> Seq<char> {
    short_version(version, short_sha) + " ("@ + commit_date + ")"@
}

/// The short form of the version of a build.
pub fn build_version_short(version: &str, short_sha: &str) -> (text: String)
    ensures
        text@ == short_version(version@, short_sha@),
{
    let mut text = String::from_str(version);
    text.append("-");
    text.append(short_sha);
    text
}

/// The long form of the version of a build.
pub fn build_version(version: &str, short_sha: &str, commit_date: &str) -> (text: String)
    ensures
        text@ == long_version(version@, short_sha@, commit_date@),
{
    let mut text = build_version_short(version, short_sha);
    text.append(" (");
    text.append(commit_date);
    text.append(")");
    text
}

} // verus!
