//! Construction of the server URI from the host-provided base URI and the
//! installed binary's filename. The parse-and-join itself is the url crate's
//! work, a function of the two strings alone; this module decides, exactly,
//! when the initialization fails with a malformed host URI.
use vstd::prelude::*;
use crate::install::InstallError;

verus! {

/// The URI text that joining `file` onto the parsed base URI `base` yields,
/// or `None` when `base` does not parse or the join fails.
pub uninterp spec fn joined_uri(base: Seq<char>, file: Seq<char>) -> Option<Seq<char>>;

/// Relies on url::Url::parse, Url::join and the Display of Url: parses the
/// base, joins the filename onto it, and hands the result back as text. The
/// outcome depends on the two strings alone.
#[verifier::external_body]
fn parse_and_join(base: &str, file: &str) -> (r: Option<String>)
    ensures
        match r {
            Some(s) => joined_uri(base@, file@) == Some(s@),
            None => joined_uri(base@, file@) is None,
        },
{
    let parsed = match url::Url::parse(base) {
        Ok(u) => u,
        Err(_) => {
            return None;
        },
    };
    match parsed.join(file) {
        Ok(u) => Some(u.to_string()),
        Err(_) => None,
    }
}

/// The URI the installed server is launched under: the host's base URI with
/// the binary's filename joined on. A base that does not parse or join is
/// the one failure, reported as the malformed-host-URI error.
pub fn server_uri(base: &str, file: &str) -> (r: Result<String, InstallError>)
    ensures
        r matches Ok(s) ==> joined_uri(base@, file@) == Some(s@),
        r is Err <==> joined_uri(base@, file@) is None,
        r is Err ==> r == Err::<String, InstallError>(InstallError::HostUriInvalid),
{
    match parse_and_join(base, file) {
        Some(s) => Ok(s),
        None => Err(InstallError::HostUriInvalid),
    }
}

} // verus!
