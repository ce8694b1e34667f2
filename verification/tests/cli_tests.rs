use pdfpress::cli::{parse_args, resolve_plan, CliAction, Request, UsageError};
use pdfpress::mode::Mode;

fn strings(args: &[&str]) -> Vec<String> {
    args.iter().map(|a| a.to_string()).collect()
}

#[test]
fn source_alone_defaults_mode_and_destination() {
    let r = parse_args(&strings(&["in.pdf"]));
    assert_eq!(
        r,
        Ok(CliAction::Run(Request {
            source: "in.pdf".to_string(),
            dest: None,
            mode: Mode::Ebook,
        }))
    );
}

#[test]
fn explicit_destination_is_kept() {
    let r = parse_args(&strings(&["in.pdf", "out.pdf"]));
    assert_eq!(
        r,
        Ok(CliAction::Run(Request {
            source: "in.pdf".to_string(),
            dest: Some("out.pdf".to_string()),
            mode: Mode::Ebook,
        }))
    );
}

#[test]
fn every_mode_token_is_accepted() {
    for (tok, mode) in [
        ("screen", Mode::Screen),
        ("ebook", Mode::Ebook),
        ("prepress", Mode::Prepress),
        ("print", Mode::Print),
    ] {
        let r = parse_args(&strings(&["in.pdf", "-m", tok]));
        assert_eq!(
            r,
            Ok(CliAction::Run(Request {
                source: "in.pdf".to_string(),
                dest: None,
                mode,
            }))
        );
    }
}

#[test]
fn long_and_equals_mode_spellings() {
    let long = parse_args(&strings(&["a.pdf", "--mode", "print"]));
    let eq = parse_args(&strings(&["a.pdf", "--mode=print"]));
    let want = Ok(CliAction::Run(Request {
        source: "a.pdf".to_string(),
        dest: None,
        mode: Mode::Print,
    }));
    assert_eq!(long, want);
    assert_eq!(eq, want);
}

#[test]
fn unrecognized_mode_is_a_usage_error() {
    let r = parse_args(&strings(&["in.pdf", "-m", "ultra"]));
    assert_eq!(r, Err(UsageError::InvalidMode("ultra".to_string())));
}

#[test]
fn missing_source_is_a_usage_error() {
    assert_eq!(parse_args(&strings(&[])), Err(UsageError::MissingSource));
    assert_eq!(
        parse_args(&strings(&["-m", "screen"])),
        Err(UsageError::MissingSource)
    );
}

#[test]
fn mode_flag_without_value_is_a_usage_error() {
    assert_eq!(
        parse_args(&strings(&["in.pdf", "-m"])),
        Err(UsageError::MissingModeValue)
    );
}

#[test]
fn unknown_flag_is_a_usage_error() {
    assert_eq!(
        parse_args(&strings(&["in.pdf", "--fast"])),
        Err(UsageError::UnknownFlag("--fast".to_string()))
    );
}

#[test]
fn third_positional_is_a_usage_error() {
    assert_eq!(
        parse_args(&strings(&["a", "b", "c"])),
        Err(UsageError::ExtraPositional("c".to_string()))
    );
}

#[test]
fn help_and_version_short_circuit() {
    assert_eq!(parse_args(&strings(&["-h"])), Ok(CliAction::Help));
    assert_eq!(parse_args(&strings(&["--help"])), Ok(CliAction::Help));
    assert_eq!(parse_args(&strings(&["-V"])), Ok(CliAction::Version));
    assert_eq!(parse_args(&strings(&["--version"])), Ok(CliAction::Version));
    assert_eq!(
        parse_args(&strings(&["in.pdf", "--help", "junk", "more"])),
        Ok(CliAction::Help)
    );
}

#[test]
fn last_mode_named_wins() {
    let r = parse_args(&strings(&["in.pdf", "-m", "screen", "--mode", "print"]));
    assert_eq!(
        r,
        Ok(CliAction::Run(Request {
            source: "in.pdf".to_string(),
            dest: None,
            mode: Mode::Print,
        }))
    );
}

#[test]
fn resolve_keeps_explicit_destination() {
    let plan = resolve_plan(Request {
        source: "/docs/report.pdf".to_string(),
        dest: Some("elsewhere.pdf".to_string()),
        mode: Mode::Screen,
    });
    assert_eq!(plan.destination, "elsewhere.pdf");
    assert_eq!(plan.source, "/docs/report.pdf");
    assert_eq!(plan.mode, Mode::Screen);
}

#[test]
fn resolve_derives_default_destination() {
    let plan = resolve_plan(Request {
        source: "/docs/report.pdf".to_string(),
        dest: None,
        mode: Mode::Ebook,
    });
    assert_eq!(plan.destination, "/docs/report_pressed.pdf");
}

#[test]
fn usage_error_messages_name_the_culprit() {
    assert_eq!(
        UsageError::MissingSource.message(),
        "missing required argument: source file path"
    );
    assert_eq!(
        UsageError::InvalidMode("ultra".to_string()).message(),
        "invalid mode (expected screen, ebook, prepress or print): ultra"
    );
    assert_eq!(
        UsageError::UnknownFlag("--fast".to_string()).message(),
        "unrecognized option: --fast"
    );
}
