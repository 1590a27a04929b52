//! The command line's view of the client's inputs.
//!
//! Flag parsing itself is I/O plumbing outside this crate; it hands over the
//! raw optional values of `--url` and `--line-length`, and
//! [`AppArgs::resolve`] turns them into resolved arguments, applying the
//! default service URL when none was given.

use vstd::prelude::*;
use vstd::string::StringExecFns;

use crate::options::FormatOptions;

verus! {

/// The URL of the formatting service used when no `--url` flag is given.
pub open spec fn default_url() -> Seq<char> {
    "http://localhost:45484"@
}

/// The partial option set the command line supplies: only the line length
/// is in scope; there is no flag for target versions.
pub open spec fn spec_cli_options(args: AppArgs) -> FormatOptions {
    FormatOptions { line_length: args.line_length, target_versions: None }
}

/// The resolved command-line arguments of one invocation.
pub struct AppArgs {
    /// URL of the formatting service.
    pub url: String,
    /// Custom maximum line length, when the flag was given.
    pub line_length: Option<i32>,
}

impl AppArgs {
    /// Resolves raw flag values into arguments: an absent `--url` falls back
    /// to the default service URL, and the line length is kept as supplied.
    pub fn resolve(url: Option<String>, line_length: Option<i32>) -> (r: AppArgs)
        ensures
            (url matches Some(u) ==> r.url@ == u@),
            (url is None ==> r.url@ == default_url()),
            r.line_length == line_length,
    {
        let resolved_url = match url {
            Some(u) => u,
            None => String::from_str("http://localhost:45484"),
        };
        AppArgs { url: resolved_url, line_length }
    }

    /// The partial option set these arguments supply.
    pub fn to_options(&self) -> (r: FormatOptions)
        ensures
            r == spec_cli_options(*self),
    {
        FormatOptions { line_length: self.line_length, target_versions: None }
    }
}

} // verus!
