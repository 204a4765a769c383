//! Platform resolution: maps the host-reported (operating system,
//! architecture, libc) triple to the published Deno artifact identifier, and
//! picks the installed binary's filename. The mapping is a closed table of
//! four supported combinations; everything else is unsupported.
use vstd::prelude::*;
use crate::text::str_eq;

verus! {

/// The artifact identifier for a platform triple, or `None` when the
/// combination is unsupported. The libc token only matters on Linux.
pub open spec fn artifact_for(os: Seq<char>, arch: Seq<char>, libc: Seq<char>) -> Option<
    Seq<char>,
> {
    if os == "macos"@ && arch == "x86_64"@ {
        Some("x86_64-apple-darwin"@)
    } else if os == "macos"@ && arch == "aarch64"@ {
        Some("aarch64-apple-darwin"@)
    } else if os == "linux"@ && arch == "x86_64"@ && libc == "glibc"@ {
        Some("x86_64-unknown-linux-gnu"@)
    } else if os == "windows"@ && arch == "x86_64"@ {
        Some("x86_64-pc-windows-msvc"@)
    } else {
        None
    }
}

/// The filename of the installed server binary for an operating system.
pub open spec fn binary_name_for(os: Seq<char>) -> Seq<char> {
    if os == "windows"@ {
        "deno.exe"@
    } else {
        "deno"@
    }
}

/// View of an optional string slice as an optional character sequence.
pub open spec fn opt_str_view(r: Option<&str>) -> Option<Seq<char>> {
    match r {
        Some(s) => Some(s@),
        None => None,
    }
}

/// Resolves the platform triple to the artifact identifier of the matching
/// published build, failing closed on any unrecognized combination.
pub fn artifact_identifier(os: &str, arch: &str, libc: &str) -> (r: Option<&'static str>)
    ensures
        opt_str_view(r) == artifact_for(os@, arch@, libc@),
{
    if str_eq(os, "macos") && str_eq(arch, "x86_64") {
        Some("x86_64-apple-darwin")
    } else if str_eq(os, "macos") && str_eq(arch, "aarch64") {
        Some("aarch64-apple-darwin")
    } else if str_eq(os, "linux") && str_eq(arch, "x86_64") && str_eq(libc, "glibc") {
        Some("x86_64-unknown-linux-gnu")
    } else if str_eq(os, "windows") && str_eq(arch, "x86_64") {
        Some("x86_64-pc-windows-msvc")
    } else {
        None
    }
}

/// The filename under which the server binary is installed and looked up.
pub fn binary_filename(os: &str) -> (r: &'static str)
    ensures
        r@ == binary_name_for(os@),
{
    if str_eq(os, "windows") {
        "deno.exe"
    } else {
        "deno"
    }
}

} // verus!
