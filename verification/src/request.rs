//! Construction of the outgoing request.
//!
//! One invocation performs a single HTTP POST to the formatting service.
//! [`build`] is pure data transformation: it lays out the headers the
//! transport must send — a fixed mode marker and content type, plus the
//! optional target-version and line-length headers an option set supplies —
//! and carries the source text as the body, verbatim.  The actual network
//! call is performed outside this crate, from the [`FormatRequest`] value.

use vstd::prelude::*;
use vstd::string::StringExecFns;

use crate::args::{spec_cli_options, AppArgs};
use crate::config::{spec_config_options, Config};
use crate::options::{spec_overlay, FormatOptions};
use crate::text::{i32_dec_string, int_chars, join_commas, join_with_commas};

verus! {

/// A single HTTP header of the outgoing request: a name and a value, both
/// plain text.
pub struct Header {
    pub name: String,
    pub value: String,
}

/// The resolved target of the outgoing request.
pub struct ServiceEndpoint {
    pub url: String,
}

/// The outgoing request: everything the transport needs for the one POST of
/// an invocation.  `body` is the source text to format, verbatim.
pub struct FormatRequest {
    pub endpoint: ServiceEndpoint,
    pub headers: Vec<Header>,
    pub body: String,
}

/// The names and values of a header sequence, as plain character sequences.
pub open spec fn header_views(hs: Seq<Header>) -> Seq<(Seq<char>, Seq<char>)> {
    Seq::new(hs.len(), |i: int| (hs[i].name@, hs[i].value@))
}

/// The two headers every request carries: the mode marker, fixed to
/// `"fast"`, and the content type identifying the body as UTF-8 plain text.
pub open spec fn fixed_headers() -> Seq<(Seq<char>, Seq<char>)> {
    seq![
        ("X-Fast-Or-Safe"@, "fast"@),
        ("Content-Type"@, "text/plain; charset=utf-8"@),
    ]
}

/// The target-version header an option set calls for: present exactly when
/// target versions are supplied and non-empty, valued as the versions joined
/// by single commas, in the order supplied.
pub open spec fn version_headers(options: FormatOptions) -> Seq<(Seq<char>, Seq<char>)> {
    match options.target_versions {
        Some(versions) => if versions.deep_view().len() > 0 {
            seq![("X-Target-Version"@, join_commas(versions.deep_view()))]
        } else {
            Seq::empty()
        },
        None => Seq::empty(),
    }
}

/// The line-length header an option set calls for: present exactly when a
/// line length is supplied, valued as its decimal form.
pub open spec fn length_headers(options: FormatOptions) -> Seq<(Seq<char>, Seq<char>)> {
    match options.line_length {
        Some(length) => seq![("X-Line-Length"@, int_chars(length as int))],
        None => Seq::empty(),
    }
}

/// The full header list an option set calls for, in order: the two fixed
/// headers, then the optional target-version header, then the optional
/// line-length header.
pub open spec fn spec_headers(options: FormatOptions) -> Seq<(Seq<char>, Seq<char>)> {
    fixed_headers() + version_headers(options) + length_headers(options)
}

/// Builds the outgoing request for one invocation: the given endpoint, the
/// headers the option set calls for, and the source text as the body.
///
/// No network I/O happens here; the result is plain data, deterministic in
/// the inputs.
pub fn build(options: FormatOptions, endpoint: ServiceEndpoint, source_text: String) -> (r:
    FormatRequest)
    ensures
        r.endpoint == endpoint,
        r.body@ == source_text@,
        header_views(r.headers@) == spec_headers(options),
{
    let ghost opts = options;
    let mut headers: Vec<Header> = Vec::new();
    headers.push(
        Header { name: String::from_str("X-Fast-Or-Safe"), value: String::from_str("fast") },
    );
    headers.push(
        Header {
            name: String::from_str("Content-Type"),
            value: String::from_str("text/plain; charset=utf-8"),
        },
    );
    match options.target_versions {
        Some(versions) => {
            if versions.len() > 0 {
                headers.push(
                    Header {
                        name: String::from_str("X-Target-Version"),
                        value: join_with_commas(&versions),
                    },
                );
            }
        },
        None => {},
    }
    match options.line_length {
        Some(length) => {
            headers.push(
                Header { name: String::from_str("X-Line-Length"), value: i32_dec_string(length) },
            );
        },
        None => {},
    }
    proof {
        assert(header_views(headers@) =~= spec_headers(opts));
    }
    FormatRequest { endpoint, headers, body: source_text }
}

/// The effective option set of one invocation: the configuration's options
/// overlaid with the command line's, the command line taking precedence
/// field by field.
pub open spec fn spec_effective_options(config: Config, args: AppArgs) -> FormatOptions {
    spec_overlay(spec_config_options(config), spec_cli_options(args))
}

/// Builds the one request of an invocation from its raw inputs: merges the
/// configuration's options with the command line's (command line wins, field
/// by field), targets the URL the command line resolved to, and carries the
/// source text as the body.
pub fn plan_request(config: Config, args: AppArgs, source_text: String) -> (r: FormatRequest)
    ensures
        r.endpoint.url@ == args.url@,
        r.body@ == source_text@,
        header_views(r.headers@) == spec_headers(spec_effective_options(config, args)),
{
    let cli_options = args.to_options();
    let options = FormatOptions::overlay(config.to_options(), cli_options);
    let endpoint = ServiceEndpoint { url: args.url };
    build(options, endpoint, source_text)
}

/// Joining three parts with commas yields exactly
/// `first + "," + second + "," + third`: order preserved, single commas, no
/// leading or trailing separator.
pub proof fn lemma_join_three(first: Seq<char>, second: Seq<char>, third: Seq<char>)
    ensures
        join_commas(seq![first, second, third]) == first + seq![','] + second + seq![','] + third,
{
    let parts = seq![first, second, third];
    let two = seq![first, second];
    let one = seq![first];
    assert(parts.drop_last() =~= two);
    assert(two.drop_last() =~= one);
    assert(join_commas(one) == first);
    assert(join_commas(two) == join_commas(two.drop_last()) + seq![','] + two.last());
    assert(join_commas(parts) == join_commas(parts.drop_last()) + seq![','] + parts.last());
    assert(join_commas(parts) =~= first + seq![','] + second + seq![','] + third);
}

/// Law: when both the configuration and the command line supply a line
/// length, the request built from the overlaid options carries the
/// command-line value — the one line-length header there is holds its
/// decimal form, never the configuration's.
pub proof fn lemma_cli_line_length_precedence(config: FormatOptions, cli: FormatOptions)
    requires
        config.line_length is Some,
        cli.line_length is Some,
    ensures
        spec_overlay(config, cli).line_length == cli.line_length,
        ({
            let hs = spec_headers(spec_overlay(config, cli));
            &&& hs.len() >= 3
            &&& hs.last() == ("X-Line-Length"@, int_chars(cli.line_length->0 as int))
            &&& (forall|j: int|
                0 <= j < hs.len() - 1 ==> #[trigger] hs[j].0 != "X-Line-Length"@)
        }),
{
    reveal_strlit("X-Fast-Or-Safe");
    reveal_strlit("Content-Type");
    reveal_strlit("X-Target-Version");
    reveal_strlit("X-Line-Length");
    let merged = spec_overlay(config, cli);
    let hs = spec_headers(merged);
    assert(hs.last() == ("X-Line-Length"@, int_chars(cli.line_length->0 as int)));
    assert forall|j: int| 0 <= j < hs.len() - 1 implies #[trigger] hs[j].0 != "X-Line-Length"@ by {
        assert(hs[j].0.len() != "X-Line-Length"@.len());
    }
}

/// Law: with target versions supplied by the configuration alone, say
/// `[first, second, third]`, the built request carries a target-version
/// header valued exactly `first + "," + second + "," + third`, right after
/// the two fixed headers.
pub proof fn lemma_config_target_versions_joined(
    config: FormatOptions,
    cli: FormatOptions,
    first: Seq<char>,
    second: Seq<char>,
    third: Seq<char>,
)
    requires
        cli.target_versions is None,
        config.target_versions is Some,
        config.target_versions->0.deep_view() == seq![first, second, third],
    ensures
        ({
            let hs = spec_headers(spec_overlay(config, cli));
            hs[2] == ("X-Target-Version"@, first + seq![','] + second + seq![','] + third)
        }),
{
    let merged = spec_overlay(config, cli);
    assert(merged.target_versions == config.target_versions);
    lemma_join_three(first, second, third);
    let hs = spec_headers(merged);
    assert(hs[2] == ("X-Target-Version"@, join_commas(seq![first, second, third])));
}

} // verus!
