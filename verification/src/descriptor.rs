//! Download descriptor: the pinned server version, the archive filename for
//! an artifact identifier, the release download URL, and the URN form used
//! for a user-supplied server path. All are fixed string templates.
use vstd::prelude::*;
use crate::text::{concat2, concat3};

verus! {

/// The pinned version of the server that this plugin installs.
pub open spec fn deno_version() -> Seq<char> {
    "1.41.0"@
}

/// The archive filename published for an artifact identifier.
pub open spec fn archive_name_spec(artifact: Seq<char>) -> Seq<char> {
    "deno-"@ + artifact + ".zip"@
}

/// The release download URL for an artifact identifier.
pub open spec fn download_url_spec(artifact: Seq<char>) -> Seq<char> {
    "https://github.com/denoland/deno/releases/download/v"@ + deno_version() + "/"@
        + archive_name_spec(artifact)
}

/// The URI text used to launch a user-supplied server path.
pub open spec fn custom_uri_spec(path: Seq<char>) -> Seq<char> {
    "urn:"@ + path
}

/// The pinned server version as a string slice.
pub fn deno_version_str() -> (r: &'static str)
    ensures
        r@ == deno_version(),
{
    "1.41.0"
}

/// Builds the archive filename for an artifact identifier.
pub fn archive_name(artifact: &str) -> (r: String)
    ensures
        r@ == archive_name_spec(artifact@),
{
    concat3("deno-", artifact, ".zip")
}

/// Builds the release download URL for an artifact identifier.
pub fn download_url(artifact: &str) -> (r: String)
    ensures
        r@ == download_url_spec(artifact@),
{
    let base = concat3(
        "https://github.com/denoland/deno/releases/download/v",
        "1.41.0",
        "/",
    );
    let name = archive_name(artifact);
    let r = concat2(base.as_str(), name.as_str());
    proof {
        assert(r@ =~= download_url_spec(artifact@));
    }
    r
}

/// Prefixes a user-supplied server path with the bare URN scheme, the form
/// handed to the host runtime's URI parser.
pub fn custom_server_uri_string(path: &str) -> (r: String)
    ensures
        r@ == custom_uri_spec(path@),
{
    concat2("urn:", path)
}

} // verus!
