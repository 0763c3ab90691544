use clip_tray::native::{NativeOp, Outcome, Report, RetryRun, Step, BASE_DELAY_MS, MAX_ATTEMPTS};

const EMPTY_MSG: &str =
    "The clipboard contents were not available in the requested format or the clipboard is empty.";

#[test]
fn empty_text_read_ends_on_first_attempt() {
    let (mut run, first) = RetryRun::start(NativeOp::ReadText);
    assert_eq!(first, Step::EnsureHandle);
    assert_eq!(run.step(Report::HandleReady), Step::Invoke);
    let last = run.step(Report::CallFailed(EMPTY_MSG.to_string()));
    assert_eq!(last, Step::Finish(Outcome::Empty));
    assert_eq!(run.text_result(Outcome::Empty, String::from("ignored")), Ok(String::new()));
}

#[test]
fn write_succeeds_on_third_attempt() {
    let (mut run, _) = RetryRun::start(NativeOp::WriteText);
    let reports = vec![
        Report::HandleReady,
        Report::CallFailed("X11 server connection timed out".to_string()),
        Report::Discarded,
        Report::Waited,
        Report::HandleReady,
        Report::CallFailed("clipboard is occupied".to_string()),
        Report::Discarded,
        Report::Waited,
        Report::HandleReady,
        Report::Done,
    ];
    let steps: Vec<Step> = reports.into_iter().map(|r| run.step(r)).collect();
    assert_eq!(
        steps,
        vec![
            Step::Invoke,
            Step::Discard,
            Step::Wait(50),
            Step::EnsureHandle,
            Step::Invoke,
            Step::Discard,
            Step::Wait(100),
            Step::EnsureHandle,
            Step::Invoke,
            Step::Finish(Outcome::Success),
        ]
    );
    assert_eq!(run.write_result(Outcome::Success), Ok(()));
}

#[test]
fn write_fails_after_three_attempts() {
    let (mut run, _) = RetryRun::start(NativeOp::WriteText);
    let mut last = Step::EnsureHandle;
    for k in 0..MAX_ATTEMPTS {
        assert_eq!(run.step(Report::HandleReady), Step::Invoke);
        assert_eq!(run.step(Report::CallFailed(format!("failure {}", k))), Step::Discard);
        last = run.step(Report::Discarded);
        if k + 1 < MAX_ATTEMPTS {
            assert_eq!(last, Step::Wait(BASE_DELAY_MS << k));
            assert_eq!(run.step(Report::Waited), Step::EnsureHandle);
        }
    }
    assert_eq!(last, Step::Finish(Outcome::Failed));
    let err = run.write_result(Outcome::Failed).unwrap_err();
    assert_eq!(err, "Failed to write clipboard: failure 2");
    assert!(err.contains("failure 2"));
}

#[test]
fn handle_creation_failures_exhaust_attempts() {
    let (mut run, _) = RetryRun::start(NativeOp::ReadText);
    assert_eq!(run.step(Report::HandleFailed("no display".to_string())), Step::Wait(50));
    assert_eq!(run.step(Report::Waited), Step::EnsureHandle);
    assert_eq!(run.step(Report::HandleFailed("no display".to_string())), Step::Wait(100));
    assert_eq!(run.step(Report::Waited), Step::EnsureHandle);
    assert_eq!(run.step(Report::HandleFailed("still no display".to_string())), Step::Finish(Outcome::Failed));
    assert_eq!(run.failure(), "Failed to create clipboard instance: still no display");
    assert_eq!(
        run.text_result(Outcome::Failed, String::new()),
        Err("Failed to create clipboard instance: still no display".to_string())
    );
}

#[test]
fn read_text_success_returns_the_text() {
    let (mut run, _) = RetryRun::start(NativeOp::ReadText);
    assert_eq!(run.step(Report::HandleReady), Step::Invoke);
    assert_eq!(run.step(Report::Done), Step::Finish(Outcome::Success));
    assert_eq!(run.text_result(Outcome::Success, "hello".to_string()), Ok("hello".to_string()));
    assert_eq!(run.op(), NativeOp::ReadText);
}

#[test]
fn image_read_of_no_image_is_not_an_error() {
    let (mut run, _) = RetryRun::start(NativeOp::ReadImage);
    run.step(Report::HandleReady);
    assert_eq!(run.step(Report::CallFailed("ContentNotAvailable".to_string())), Step::Finish(Outcome::Empty));
    assert_eq!(run.image_result::<u8>(Outcome::Empty, None), Ok(None));
}

#[test]
fn empty_message_on_write_is_still_a_failure() {
    let (mut run, _) = RetryRun::start(NativeOp::WriteImage);
    run.step(Report::HandleReady);
    assert_eq!(run.step(Report::CallFailed("clipboard is empty".to_string())), Step::Discard);
    assert_eq!(run.failure(), "Failed to write image: clipboard is empty");
}

#[test]
fn finished_run_stays_finished() {
    let (mut run, _) = RetryRun::start(NativeOp::ReadImage);
    run.step(Report::HandleReady);
    assert_eq!(run.step(Report::Done), Step::Finish(Outcome::Success));
    assert_eq!(run.step(Report::CallFailed("late".to_string())), Step::Finish(Outcome::Success));
    assert_eq!(run.image_result(Outcome::Success, Some(7u8)), Ok(Some(7u8)));
}

#[test]
fn read_failure_message_names_the_read() {
    let (mut run, _) = RetryRun::start(NativeOp::ReadText);
    run.step(Report::HandleReady);
    assert_eq!(run.step(Report::CallFailed("boom".to_string())), Step::Discard);
    assert_eq!(run.failure(), "Failed to read clipboard: boom");
    assert_eq!(run.step(Report::Discarded), Step::Wait(50));
}
