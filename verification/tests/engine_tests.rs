use pdfpress::cli::{Plan, Request, resolve_plan};
use pdfpress::engine::{engine_args, engine_program};
use pdfpress::mode::Mode;

#[test]
fn engine_program_is_gs() {
    assert_eq!(engine_program(), "gs");
}

#[test]
fn argument_list_has_the_fixed_shape() {
    let plan = Plan {
        source: "/docs/report.pdf".to_string(),
        destination: "/docs/report_pressed.pdf".to_string(),
        mode: Mode::Ebook,
    };
    let args = engine_args(&plan);
    assert_eq!(
        args,
        vec![
            "-SDEVICE=pdfwrite".to_string(),
            "-dCompatibilityLevel=1.4".to_string(),
            "-dNOPAUSE".to_string(),
            "-dQUIET".to_string(),
            "-dBATCH".to_string(),
            "-sOutputFile=/docs/report_pressed.pdf".to_string(),
            "-dPDFSETTINGS=/ebook".to_string(),
            "/docs/report.pdf".to_string(),
        ]
    );
}

#[test]
fn quality_and_output_flags_appear_exactly_once() {
    for (mode, tok) in [
        (Mode::Screen, "screen"),
        (Mode::Ebook, "ebook"),
        (Mode::Prepress, "prepress"),
        (Mode::Print, "print"),
    ] {
        let plan = Plan {
            source: "in.pdf".to_string(),
            destination: "out.pdf".to_string(),
            mode,
        };
        let args = engine_args(&plan);
        let quality: Vec<&String> = args
            .iter()
            .filter(|a| a.starts_with("-dPDFSETTINGS="))
            .collect();
        assert_eq!(quality.len(), 1);
        assert_eq!(*quality[0], format!("-dPDFSETTINGS=/{}", tok));
        let output: Vec<&String> = args
            .iter()
            .filter(|a| a.starts_with("-sOutputFile="))
            .collect();
        assert_eq!(output.len(), 1);
        assert_eq!(*output[0], "-sOutputFile=out.pdf");
    }
}

#[test]
fn source_stands_last_as_a_positional() {
    let plan = resolve_plan(Request {
        source: "scan.pdf".to_string(),
        dest: None,
        mode: Mode::Prepress,
    });
    let args = engine_args(&plan);
    assert_eq!(args.len(), 8);
    assert_eq!(args[7], "scan.pdf");
    assert_eq!(args[5], "-sOutputFile=scan_pressed.pdf");
}
