//! Formatting options and their precedence-based merge.
//!
//! Options reach the client from two sources: an optional project
//! configuration file and the command line.  Each source yields a partial
//! [`FormatOptions`]; the two are merged field by field, command-line values
//! taking precedence, by [`FormatOptions::overlay`].

use vstd::prelude::*;

verus! {

/// A partial set of formatting options.
///
/// Produced by each of the two option sources and by their merge; lives for
/// the duration of one invocation.
pub struct FormatOptions {
    /// Maximum line length the formatter should aim for, when supplied.
    pub line_length: Option<i32>,
    /// Target language versions, in the order supplied: the order encodes
    /// priority to the downstream formatter and must be preserved.
    pub target_versions: Option<Vec<String>>,
}

/// The field-by-field overlay of two partial option sets: wherever `over`
/// supplies a field it wins, and `base` fills the rest.
pub open spec fn spec_overlay(base: FormatOptions, over: FormatOptions) -> FormatOptions {
    FormatOptions {
        line_length: if over.line_length is Some {
            over.line_length
        } else {
            base.line_length
        },
        target_versions: if over.target_versions is Some {
            over.target_versions
        } else {
            base.target_versions
        },
    }
}

impl FormatOptions {
    /// The empty option set: what an absent configuration file yields.
    pub fn empty() -> (r: FormatOptions)
        ensures
            r.line_length is None,
            r.target_versions is None,
    {
        FormatOptions { line_length: None, target_versions: None }
    }

    /// Merges configuration-supplied options with command-line-supplied
    /// ones.  The merge is field by field, not wholesale: the command line
    /// overrides exactly the fields it supplies.
    pub fn overlay(config: FormatOptions, cli: FormatOptions) -> (r: FormatOptions)
        ensures
            r == spec_overlay(config, cli),
    {
        FormatOptions {
            line_length: match cli.line_length {
                Some(l) => Some(l),
                None => config.line_length,
            },
            target_versions: match cli.target_versions {
                Some(v) => Some(v),
                None => config.target_versions,
            },
        }
    }
}

} // verus!
