use deno_volt::install::{download_plan, DownloadPlan, InstallError};
use deno_volt::platform::{artifact_identifier, binary_filename};

#[test]
fn resolves_macos_x86_64() {
    assert_eq!(
        artifact_identifier("macos", "x86_64", "glibc"),
        Some("x86_64-apple-darwin")
    );
    assert_eq!(
        artifact_identifier("macos", "x86_64", ""),
        Some("x86_64-apple-darwin")
    );
}

#[test]
fn resolves_macos_aarch64() {
    assert_eq!(
        artifact_identifier("macos", "aarch64", ""),
        Some("aarch64-apple-darwin")
    );
}

#[test]
fn resolves_linux_glibc_x86_64() {
    assert_eq!(
        artifact_identifier("linux", "x86_64", "glibc"),
        Some("x86_64-unknown-linux-gnu")
    );
}

#[test]
fn resolves_windows_x86_64() {
    assert_eq!(
        artifact_identifier("windows", "x86_64", "msvc"),
        Some("x86_64-pc-windows-msvc")
    );
}

#[test]
fn fails_on_unknown_combinations() {
    assert_eq!(artifact_identifier("linux", "x86_64", "musl"), None);
    assert_eq!(artifact_identifier("linux", "aarch64", "glibc"), None);
    assert_eq!(artifact_identifier("freebsd", "x86_64", "glibc"), None);
    assert_eq!(artifact_identifier("windows", "aarch64", ""), None);
    assert_eq!(artifact_identifier("", "", ""), None);
}

#[test]
fn binary_name_follows_operating_system() {
    assert_eq!(binary_filename("windows"), "deno.exe");
    assert_eq!(binary_filename("linux"), "deno");
    assert_eq!(binary_filename("macos"), "deno");
    assert_eq!(binary_filename(""), "deno");
}

#[test]
fn existing_binary_skips_the_download() {
    let plan = download_plan("linux", "x86_64", "glibc", true).unwrap();
    assert_eq!(plan, DownloadPlan::AlreadyInstalled { binary: "deno" });
    let plan = download_plan("windows", "x86_64", "", true).unwrap();
    assert_eq!(plan, DownloadPlan::AlreadyInstalled { binary: "deno.exe" });
    // Even an unsupported platform is not probed once the binary is there.
    let plan = download_plan("plan9", "mips", "none", true).unwrap();
    assert_eq!(plan, DownloadPlan::AlreadyInstalled { binary: "deno" });
}

#[test]
fn missing_binary_yields_exact_fetch_descriptor() {
    let plan = download_plan("linux", "x86_64", "glibc", false).unwrap();
    assert_eq!(
        plan,
        DownloadPlan::Fetch {
            binary: "deno",
            archive: String::from("deno-x86_64-unknown-linux-gnu.zip"),
            url: String::from(
                "https://github.com/denoland/deno/releases/download/v1.41.0/deno-x86_64-unknown-linux-gnu.zip"
            ),
        }
    );
}

#[test]
fn missing_binary_on_unsupported_platform_fails_closed() {
    let r = download_plan("linux", "x86_64", "musl", false);
    assert_eq!(r, Err(InstallError::UnsupportedPlatform));
}
