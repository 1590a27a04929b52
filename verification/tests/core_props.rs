//! Concrete checks of the core's stated properties: option precedence,
//! header layout, response classification and text rendering.

use blackd_client::args::AppArgs;
use blackd_client::config::{BlackConfig, Config, ToolConfig};
use blackd_client::options::FormatOptions;
use blackd_client::outcome::{classify, FormatOutcome};
use blackd_client::request::{build, plan_request, FormatRequest, ServiceEndpoint};
use blackd_client::text::{i32_dec_string, join_with_commas, u32_dec_string};

fn header_value(request: &FormatRequest, name: &str) -> Option<String> {
    for header in request.headers.iter() {
        if header.name == name {
            return Some(header.value.clone());
        }
    }
    None
}

fn config_with(line_length: Option<i32>, target_version: Option<Vec<String>>) -> Config {
    Config {
        tool: Some(ToolConfig {
            black: Some(BlackConfig {
                line_length,
                target_version,
            }),
        }),
    }
}

#[test]
fn cli_line_length_overrides_config() {
    let config = config_with(Some(80), None);
    let args = AppArgs {
        url: "http://localhost:45484".to_string(),
        line_length: Some(120),
    };
    let request = plan_request(config, args, String::new());
    assert_eq!(
        header_value(&request, "X-Line-Length"),
        Some("120".to_string())
    );
    for header in request.headers.iter() {
        assert_ne!(header.value, "80");
    }
}

#[test]
fn config_line_length_used_when_cli_silent() {
    let config = config_with(Some(80), None);
    let args = AppArgs {
        url: "http://localhost:45484".to_string(),
        line_length: None,
    };
    let request = plan_request(config, args, String::new());
    assert_eq!(
        header_value(&request, "X-Line-Length"),
        Some("80".to_string())
    );
}

#[test]
fn target_versions_joined_in_order() {
    let config = config_with(
        None,
        Some(vec![
            "py36".to_string(),
            "py37".to_string(),
            "py38".to_string(),
        ]),
    );
    let args = AppArgs {
        url: "http://localhost:45484".to_string(),
        line_length: None,
    };
    let request = plan_request(config, args, String::new());
    assert_eq!(
        header_value(&request, "X-Target-Version"),
        Some("py36,py37,py38".to_string())
    );
    assert_eq!(header_value(&request, "X-Line-Length"), None);
}

#[test]
fn single_target_version_has_no_separator() {
    let config = config_with(None, Some(vec!["py38".to_string()]));
    let args = AppArgs {
        url: "http://localhost:45484".to_string(),
        line_length: None,
    };
    let request = plan_request(config, args, String::new());
    assert_eq!(
        header_value(&request, "X-Target-Version"),
        Some("py38".to_string())
    );
}

#[test]
fn empty_target_versions_send_no_header() {
    let config = config_with(None, Some(Vec::new()));
    let args = AppArgs {
        url: "http://localhost:45484".to_string(),
        line_length: None,
    };
    let request = plan_request(config, args, String::new());
    assert_eq!(header_value(&request, "X-Target-Version"), None);
    assert_eq!(request.headers.len(), 2);
}

#[test]
fn fixed_headers_always_first() {
    let request = build(
        FormatOptions {
            line_length: Some(99),
            target_versions: Some(vec!["py36".to_string()]),
        },
        ServiceEndpoint {
            url: "http://localhost:45484".to_string(),
        },
        "x = 1".to_string(),
    );
    assert_eq!(request.headers.len(), 4);
    assert_eq!(request.headers[0].name, "X-Fast-Or-Safe");
    assert_eq!(request.headers[0].value, "fast");
    assert_eq!(request.headers[1].name, "Content-Type");
    assert_eq!(request.headers[1].value, "text/plain; charset=utf-8");
    assert_eq!(request.headers[2].name, "X-Target-Version");
    assert_eq!(request.headers[3].name, "X-Line-Length");
    assert_eq!(request.headers[3].value, "99");
    assert_eq!(request.body, "x = 1");
    assert_eq!(request.endpoint.url, "http://localhost:45484");
}

#[test]
fn classify_204_echoes_original_input() {
    let unchanged = classify(204, String::new(), "print('x')".to_string());
    match unchanged {
        FormatOutcome::Unchanged { original_text } => assert_eq!(original_text, "print('x')"),
        _ => panic!("expected the unchanged outcome"),
    }

    let empty = classify(204, String::new(), String::new());
    match empty {
        FormatOutcome::Unchanged { original_text } => assert_eq!(original_text, ""),
        _ => panic!("expected the unchanged outcome"),
    }

    // A body on 204 is ignored: the original input is echoed, never the body.
    let stray_body = classify(204, "stray".to_string(), "print('x')".to_string());
    match stray_body {
        FormatOutcome::Unchanged { original_text } => assert_eq!(original_text, "print('x')"),
        _ => panic!("expected the unchanged outcome"),
    }
}

#[test]
fn classify_200_returns_body() {
    let reformatted = classify(200, "print(\"x\")".to_string(), "print('x')".to_string());
    match reformatted {
        FormatOutcome::Reformatted { text } => assert_eq!(text, "print(\"x\")"),
        _ => panic!("expected the reformatted outcome"),
    }

    let empty_body = classify(200, String::new(), "print('x')".to_string());
    match empty_body {
        FormatOutcome::Reformatted { text } => assert_eq!(text, ""),
        _ => panic!("expected the reformatted outcome"),
    }
}

#[test]
fn classify_400_and_500_keep_bodies_verbatim() {
    let syntax = classify(400, "bad input".to_string(), "x".to_string());
    match syntax {
        FormatOutcome::SyntaxError { ref details } => assert_eq!(details, "bad input"),
        _ => panic!("expected the syntax-error outcome"),
    }
    assert_eq!(syntax.error_message(), "Syntax Error: bad input");

    let formatting = classify(500, "service broke".to_string(), "x".to_string());
    match formatting {
        FormatOutcome::FormattingError { ref details } => assert_eq!(details, "service broke"),
        _ => panic!("expected the formatting-error outcome"),
    }
    assert_eq!(formatting.error_message(), "Formatting Error: service broke");
}

#[test]
fn classify_other_codes_are_unknown() {
    for code in [418, 301, 503] {
        let outcome = classify(code, "body text".to_string(), "input".to_string());
        match outcome {
            FormatOutcome::Unknown { status_code, ref body } => {
                assert_eq!(status_code, code);
                assert_eq!(body, "body text");
            }
            _ => panic!("expected the unknown outcome"),
        }
        assert_eq!(outcome.exit_code(), 1);
    }
}

#[test]
fn reformatted_round_trip_exits_zero() {
    let config = Config { tool: None };
    let args = AppArgs {
        url: "http://localhost:45484".to_string(),
        line_length: None,
    };
    let input = "print('x')";
    let request = plan_request(config, args, input.to_string());
    assert_eq!(request.body, input);

    let outcome = classify(200, "print(\"x\")".to_string(), input.to_string());
    assert_eq!(outcome.exit_code(), 0);
    assert_eq!(outcome.output_text(), "print(\"x\")");
}

#[test]
fn unchanged_round_trip_exits_zero() {
    let config = Config { tool: None };
    let args = AppArgs {
        url: "http://localhost:45484".to_string(),
        line_length: None,
    };
    let input = "print('x')";
    let request = plan_request(config, args, input.to_string());
    assert_eq!(request.body, input);

    let outcome = classify(204, String::new(), input.to_string());
    assert_eq!(outcome.exit_code(), 0);
    assert_eq!(outcome.output_text(), "print('x')");
}

#[test]
fn cli_line_length_without_config() {
    let args = AppArgs {
        url: "http://localhost:45484".to_string(),
        line_length: Some(120),
    };
    let request = plan_request(Config::absent(), args, "print('x')".to_string());
    assert_eq!(
        header_value(&request, "X-Line-Length"),
        Some("120".to_string())
    );
    assert_eq!(header_value(&request, "X-Target-Version"), None);
}

#[test]
fn overlay_field_by_field() {
    let merged = FormatOptions::overlay(
        FormatOptions {
            line_length: Some(80),
            target_versions: Some(vec!["py36".to_string()]),
        },
        FormatOptions {
            line_length: Some(120),
            target_versions: None,
        },
    );
    assert_eq!(merged.line_length, Some(120));
    assert_eq!(merged.target_versions, Some(vec!["py36".to_string()]));

    let config_only = FormatOptions::overlay(
        FormatOptions {
            line_length: Some(80),
            target_versions: None,
        },
        FormatOptions::empty(),
    );
    assert_eq!(config_only.line_length, Some(80));
    assert_eq!(config_only.target_versions, None);

    let both_empty = FormatOptions::overlay(FormatOptions::empty(), FormatOptions::empty());
    assert_eq!(both_empty.line_length, None);
    assert_eq!(both_empty.target_versions, None);
}

#[test]
fn config_flattens_to_options() {
    let partial = config_with(Some(120), None).to_options();
    assert_eq!(partial.line_length, Some(120));
    assert_eq!(partial.target_versions, None);

    let no_black = Config {
        tool: Some(ToolConfig { black: None }),
    }
    .to_options();
    assert_eq!(no_black.line_length, None);
    assert_eq!(no_black.target_versions, None);

    let absent = Config::absent().to_options();
    assert_eq!(absent.line_length, None);
    assert_eq!(absent.target_versions, None);
}

#[test]
fn url_defaults_when_flag_absent() {
    let defaulted = AppArgs::resolve(None, None);
    assert_eq!(defaulted.url, "http://localhost:45484");
    assert_eq!(defaulted.line_length, None);

    let given = AppArgs::resolve(Some("http://example.test:9000".to_string()), Some(100));
    assert_eq!(given.url, "http://example.test:9000");
    assert_eq!(given.line_length, Some(100));
}

#[test]
fn decimal_rendering() {
    assert_eq!(u32_dec_string(0), "0");
    assert_eq!(u32_dec_string(9), "9");
    assert_eq!(u32_dec_string(10), "10");
    assert_eq!(u32_dec_string(120), "120");
    assert_eq!(u32_dec_string(4294967295), "4294967295");
    assert_eq!(i32_dec_string(0), "0");
    assert_eq!(i32_dec_string(120), "120");
    assert_eq!(i32_dec_string(-5), "-5");
    assert_eq!(i32_dec_string(2147483647), "2147483647");
    assert_eq!(i32_dec_string(-2147483648), "-2147483648");
}

#[test]
fn comma_joining() {
    assert_eq!(join_with_commas(&Vec::new()), "");
    assert_eq!(join_with_commas(&vec!["py36".to_string()]), "py36");
    assert_eq!(
        join_with_commas(&vec!["py36".to_string(), "py37".to_string()]),
        "py36,py37"
    );
    assert_eq!(
        join_with_commas(&vec![String::new(), String::new()]),
        ","
    );
}

#[test]
fn unknown_error_message_carries_code() {
    let outcome = classify(301, "moved".to_string(), String::new());
    assert_eq!(outcome.error_message(), "Unknown Error 301: moved");

    let negative = classify(-7, "odd transport".to_string(), String::new());
    assert_eq!(negative.error_message(), "Unknown Error -7: odd transport");
}
