//! The project configuration file's view of the formatting options.
//!
//! The configuration is an optional TOML document (`pyproject.toml`) whose
//! recognized schema is `tool.black.line-length` (an integer) and
//! `tool.black.target-version` (a sequence of strings).  Locating and
//! parsing the file is I/O plumbing outside this crate; these types receive
//! the already-parsed sections, each level optional, and
//! [`Config::to_options`] flattens them into one partial option set.

use vstd::prelude::*;

use crate::options::FormatOptions;

verus! {

/// The root of the configuration document: an optional `tool` section.
pub struct Config {
    pub tool: Option<ToolConfig>,
}

/// The `tool` section: an optional `black` subsection.
pub struct ToolConfig {
    pub black: Option<BlackConfig>,
}

/// The `tool.black` subsection: the formatting options the configuration
/// file may supply, each optional.
pub struct BlackConfig {
    /// `tool.black.line-length`.
    pub line_length: Option<i32>,
    /// `tool.black.target-version`, in document order.
    pub target_version: Option<Vec<String>>,
}

/// The `tool.black` subsection of `c`, when every level on the way down is
/// present.
pub open spec fn spec_black_section(c: Config) -> Option<BlackConfig> {
    match c.tool {
        Some(tool) => tool.black,
        None => None,
    }
}

/// The partial option set a configuration supplies: the fields of its
/// `tool.black` subsection, or nothing at all when any level is absent.
pub open spec fn spec_config_options(c: Config) -> FormatOptions {
    match spec_black_section(c) {
        Some(black) => FormatOptions {
            line_length: black.line_length,
            target_versions: black.target_version,
        },
        None => FormatOptions { line_length: None, target_versions: None },
    }
}

impl Config {
    /// A configuration with no sections: what an absent or empty
    /// configuration file yields.
    pub fn absent() -> (r: Config)
        ensures
            r.tool is None,
            spec_config_options(r).line_length is None,
            spec_config_options(r).target_versions is None,
    {
        Config { tool: None }
    }

    /// Flattens the nested optional sections into one partial option set.
    pub fn to_options(self) -> (r: FormatOptions)
        ensures
            r == spec_config_options(self),
    {
        match self.tool {
            Some(tool) => match tool.black {
                Some(black) => FormatOptions {
                    line_length: black.line_length,
                    target_versions: black.target_version,
                },
                None => FormatOptions { line_length: None, target_versions: None },
            },
            None => FormatOptions { line_length: None, target_versions: None },
        }
    }
}

} // verus!
