use deno_volt::descriptor::custom_server_uri_string;
use deno_volt::install::{validate_response, InstallError};
use deno_volt::launch::{decide_launch, document_selector, effective_args, LaunchDecision};
use deno_volt::uri::server_uri;

fn some_args(args: &[&str]) -> Option<Vec<Option<String>>> {
    Some(args.iter().map(|a| Some(String::from(*a))).collect())
}

#[test]
fn configured_server_path_bypasses_the_install() {
    let decision = decide_launch(
        Some(String::from("/usr/local/bin/deno-custom")),
        None,
    );
    assert_eq!(
        decision,
        LaunchDecision::CustomPath {
            path: String::from("/usr/local/bin/deno-custom"),
            args: vec![String::from("lsp")],
        }
    );
}

#[test]
fn configured_path_is_launched_as_a_urn() {
    assert_eq!(
        custom_server_uri_string("/usr/local/bin/deno-custom"),
        "urn:/usr/local/bin/deno-custom"
    );
}

#[test]
fn empty_server_path_falls_back_to_the_install() {
    let decision = decide_launch(Some(String::new()), None);
    assert_eq!(
        decision,
        LaunchDecision::Install {
            args: vec![String::from("lsp")],
        }
    );
}

#[test]
fn absent_overrides_install_with_default_args() {
    let decision = decide_launch(None, None);
    assert_eq!(
        decision,
        LaunchDecision::Install {
            args: vec![String::from("lsp")],
        }
    );
}

#[test]
fn configured_args_replace_the_default_exactly() {
    let args = effective_args(some_args(&["lsp", "--unstable"]));
    assert_eq!(args, vec![String::from("lsp"), String::from("--unstable")]);
    let decision = decide_launch(
        Some(String::from("/usr/local/bin/deno-custom")),
        some_args(&["lsp", "--unstable"]),
    );
    assert_eq!(
        decision,
        LaunchDecision::CustomPath {
            path: String::from("/usr/local/bin/deno-custom"),
            args: vec![String::from("lsp"), String::from("--unstable")],
        }
    );
}

#[test]
fn empty_args_array_keeps_the_default() {
    let args = effective_args(Some(Vec::new()));
    assert_eq!(args, vec![String::from("lsp")]);
}

#[test]
fn non_string_args_are_dropped() {
    let args = effective_args(Some(vec![
        Some(String::from("lsp")),
        None,
        Some(String::from("--unstable")),
    ]));
    assert_eq!(args, vec![String::from("lsp"), String::from("--unstable")]);
}

#[test]
fn an_array_of_only_non_strings_yields_no_args() {
    let args = effective_args(Some(vec![None, None]));
    assert_eq!(args, Vec::<String>::new());
}

#[test]
fn non_success_status_fails_with_no_body_kept() {
    let r = validate_response(false, b"<html>404</html>".to_vec());
    assert_eq!(r, Err(InstallError::ResponseNotSuccess));
    assert_eq!(
        InstallError::ResponseNotSuccess.message(),
        "Download artifact request was not successful!"
    );
}

#[test]
fn success_status_passes_the_body_through() {
    let r = validate_response(true, b"PK\x03\x04".to_vec());
    assert_eq!(r, Ok(b"PK\x03\x04".to_vec()));
}

#[test]
fn document_selector_covers_the_fixed_languages() {
    let filters = document_selector();
    let pairs: Vec<(&str, &str)> = filters.iter().map(|f| (f.language, f.pattern)).collect();
    assert_eq!(
        pairs,
        vec![
            ("javascript", "**/*.js"),
            ("javascriptreact", "**/*.jsx"),
            ("jsx", "**/*.jsx"),
            ("typescript", "**/*.ts"),
            ("typescriptreact", "**/*.tsx"),
            ("tsx", "**/*.tsx"),
            ("json", "**/*.json"),
            ("jsonc", "**/*.jsonc"),
            ("markdown", "**/*.{md,markdown}"),
        ]
    );
}

#[test]
fn server_uri_joins_base_and_filename() {
    assert_eq!(
        server_uri("file:///plugins/deno/", "deno"),
        Ok(String::from("file:///plugins/deno/deno"))
    );
    assert_eq!(
        server_uri("file:///plugins/deno/", "deno.exe"),
        Ok(String::from("file:///plugins/deno/deno.exe"))
    );
}

#[test]
fn malformed_base_uri_fails_with_the_host_uri_error() {
    let r = server_uri("not a uri", "deno");
    assert_eq!(r, Err(InstallError::HostUriInvalid));
    assert_eq!(InstallError::HostUriInvalid.message(), "Failed to parse URL!");
}

#[test]
fn unsupported_platform_message_matches() {
    assert_eq!(
        InstallError::UnsupportedPlatform.message(),
        "Unsupported OS/Arch/Libc"
    );
}
