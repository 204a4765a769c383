//! The launch decision: how the editor-supplied configuration picks the
//! server to start. A non-empty `serverPath` override wins and skips the
//! whole install path; a non-empty `serverArgs` array replaces the default
//! `lsp` argument, keeping its string elements in order; and a fixed set of
//! document filters always goes along.
use vstd::prelude::*;
use vstd::string::StringExecFns;

verus! {

/// The configured arguments kept from a `serverArgs` array: its string
/// elements, in order; anything else in the array is dropped.
pub open spec fn kept_args(items: Seq<Option<Seq<char>>>) -> Seq<Seq<char>>
    decreases items.len(),
{
    if items.len() == 0 {
        Seq::empty()
    } else {
        let rest = kept_args(items.drop_last());
        match items.last() {
            Some(s) => rest.push(s),
            None => rest,
        }
    }
}

/// The arguments handed to the server: the kept elements of a non-empty
/// `serverArgs` array, or the single default argument `lsp`.
pub open spec fn effective_args_spec(server_args: Option<Seq<Option<Seq<char>>>>) -> Seq<
    Seq<char>,
> {
    match server_args {
        Some(items) => if items.len() > 0 {
            kept_args(items)
        } else {
            seq!["lsp"@]
        },
        None => seq!["lsp"@],
    }
}

/// The single default argument list.
fn default_args() -> (r: Vec<String>)
    ensures
        r.deep_view() == seq!["lsp"@],
{
    let mut r: Vec<String> = Vec::new();
    r.push(String::from_str("lsp"));
    proof {
        assert(r.deep_view() =~= seq!["lsp"@]);
    }
    r
}

/// Builds the argument list the server is started with, from the configured
/// `serverArgs` array as handed over by the host (string elements present,
/// anything else as `None`), or from its absence.
pub fn effective_args(server_args: Option<Vec<Option<String>>>) -> (r: Vec<String>)
    ensures
        r.deep_view() == effective_args_spec(server_args.deep_view()),
{
    match server_args {
        Some(items) => {
            if items.len() == 0 {
                default_args()
            } else {
                let ghost dv = items.deep_view();
                let mut r: Vec<String> = Vec::new();
                let mut i: usize = 0;
                while i < items.len()
                    invariant
                        dv == items.deep_view(),
                        dv.len() == items@.len(),
                        i <= items@.len(),
                        r.deep_view() == kept_args(dv.take(i as int)),
                    decreases items@.len() - i,
                {
                    let ghost r_before = r.deep_view();
                    match &items[i] {
                        Some(s) => {
                            r.push(s.clone());
                            proof {
                                assert(r.deep_view() =~= r_before.push(s@));
                            }
                        },
                        None => {},
                    }
                    proof {
                        assert(dv.take(i + 1).drop_last() =~= dv.take(i as int));
                        assert(dv.take(i + 1).last() == dv[i as int]);
                        assert(r.deep_view() =~= kept_args(dv.take(i + 1)));
                    }
                    i = i + 1;
                }
                proof {
                    assert(dv.take(items@.len() as int) =~= dv);
                }
                r
            }
        },
        None => default_args(),
    }
}

/// What the initialization decides to start.
#[derive(Debug, PartialEq, Eq)]
pub enum LaunchDecision {
    /// Launch the configured server path, bypassing the install path.
    CustomPath { path: String, args: Vec<String> },
    /// Install (or reuse) the downloaded binary and launch that.
    Install { args: Vec<String> },
}

/// Decides the launch from the configured overrides: a non-empty
/// `serverPath` is used as given, anything else falls back to the install
/// path; either way the arguments are the effective ones.
pub fn decide_launch(server_path: Option<String>, server_args: Option<Vec<Option<String>>>) -> (r:
    LaunchDecision)
    ensures
        ({
            let args = effective_args_spec(server_args.deep_view());
            match server_path {
                Some(p) => if p@.len() > 0 {
                    r matches LaunchDecision::CustomPath { path, args: a } && path@ == p@
                        && a.deep_view() == args
                } else {
                    r matches LaunchDecision::Install { args: a } && a.deep_view() == args
                },
                None => r matches LaunchDecision::Install { args: a } && a.deep_view() == args,
            }
        }),
{
    let args = effective_args(server_args);
    match server_path {
        Some(p) => {
            if !p.as_str().is_empty() {
                LaunchDecision::CustomPath { path: p, args }
            } else {
                LaunchDecision::Install { args }
            }
        },
        None => LaunchDecision::Install { args },
    }
}

/// One document filter: a language identifier and a glob pattern the
/// launched server handles.
#[derive(Debug, PartialEq, Eq)]
pub struct DocFilter {
    pub language: &'static str,
    pub pattern: &'static str,
}

/// The fixed document selector: the JavaScript/TypeScript family, JSON and
/// JSONC, and Markdown.
pub fn document_selector() -> (r: Vec<DocFilter>)
    ensures
        r@.len() == 9,
        r@[0].language@ == "javascript"@ && r@[0].pattern@ == "**/*.js"@,
        r@[1].language@ == "javascriptreact"@ && r@[1].pattern@ == "**/*.jsx"@,
        r@[2].language@ == "jsx"@ && r@[2].pattern@ == "**/*.jsx"@,
        r@[3].language@ == "typescript"@ && r@[3].pattern@ == "**/*.ts"@,
        r@[4].language@ == "typescriptreact"@ && r@[4].pattern@ == "**/*.tsx"@,
        r@[5].language@ == "tsx"@ && r@[5].pattern@ == "**/*.tsx"@,
        r@[6].language@ == "json"@ && r@[6].pattern@ == "**/*.json"@,
        r@[7].language@ == "jsonc"@ && r@[7].pattern@ == "**/*.jsonc"@,
        r@[8].language@ == "markdown"@ && r@[8].pattern@ == "**/*.{md,markdown}"@,
{
    let mut r: Vec<DocFilter> = Vec::new();
    r.push(DocFilter { language: "javascript", pattern: "**/*.js" });
    r.push(DocFilter { language: "javascriptreact", pattern: "**/*.jsx" });
    r.push(DocFilter { language: "jsx", pattern: "**/*.jsx" });
    r.push(DocFilter { language: "typescript", pattern: "**/*.ts" });
    r.push(DocFilter { language: "typescriptreact", pattern: "**/*.tsx" });
    r.push(DocFilter { language: "tsx", pattern: "**/*.tsx" });
    r.push(DocFilter { language: "json", pattern: "**/*.json" });
    r.push(DocFilter { language: "jsonc", pattern: "**/*.jsonc" });
    r.push(DocFilter { language: "markdown", pattern: "**/*.{md,markdown}" });
    r
}

} // verus!
