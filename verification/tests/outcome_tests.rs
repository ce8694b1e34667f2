use pdfpress::mode::Mode;
use pdfpress::outcome::{judge_outcome, EngineOutcome, RunError};

#[test]
fn launch_failure_is_reported() {
    let r = judge_outcome(EngineOutcome::LaunchFailure("No such file or directory".to_string()));
    assert_eq!(
        r,
        Err(RunError::Launch("No such file or directory".to_string()))
    );
}

#[test]
fn wait_failure_is_reported() {
    let r = judge_outcome(EngineOutcome::WaitFailure("interrupted".to_string()));
    assert_eq!(r, Err(RunError::Wait("interrupted".to_string())));
}

#[test]
fn clean_exit_is_success() {
    assert_eq!(judge_outcome(EngineOutcome::Exited(Some(0))), Ok(()));
}

#[test]
fn nonzero_exit_still_counts_as_success() {
    // Pins the deliberate policy: the engine's own exit status is not
    // consulted, so even a failing engine run is reported as success.
    assert_eq!(judge_outcome(EngineOutcome::Exited(Some(1))), Ok(()));
    assert_eq!(judge_outcome(EngineOutcome::Exited(Some(139))), Ok(()));
    assert_eq!(judge_outcome(EngineOutcome::Exited(None)), Ok(()));
}

#[test]
fn run_error_messages_carry_the_os_error() {
    assert_eq!(
        RunError::Launch("denied".to_string()).message(),
        "failed to launch the engine: denied"
    );
    assert_eq!(
        RunError::Wait("gone".to_string()).message(),
        "failed to wait on the engine: gone"
    );
}

#[test]
fn mode_tokens_round_trip() {
    for (mode, tok) in [
        (Mode::Screen, "screen"),
        (Mode::Ebook, "ebook"),
        (Mode::Prepress, "prepress"),
        (Mode::Print, "print"),
    ] {
        assert_eq!(mode.token(), tok);
        assert_eq!(Mode::from_token(tok), Some(mode));
    }
    assert_eq!(Mode::from_token("ultra"), None);
    assert_eq!(Mode::from_token("Screen"), None);
    assert_eq!(Mode::from_token(""), None);
    assert_eq!(Mode::default(), Mode::Ebook);
}
