use gemini_orchestration::complete_task::{
    cap_result_bytes, handle_complete_task, CompleteTaskArgs, CompleteTaskResult,
    CompleteTaskStatus, COMPLETE_TASK_TRUNCATION_MARKER, MAX_COMPLETE_TASK_RESULT_BYTES,
};
use gemini_orchestration::protocol::FunctionCallError;

#[test]
fn status_defaults_to_completed() {
    assert_eq!(
        CompleteTaskStatus::from_word(None),
        Ok(CompleteTaskStatus::Completed)
    );
}

#[test]
fn status_accepts_completed_partial_and_failed() {
    for (raw, expected) in [
        ("completed", CompleteTaskStatus::Completed),
        ("partial", CompleteTaskStatus::Partial),
        ("failed", CompleteTaskStatus::Failed),
    ] {
        assert_eq!(CompleteTaskStatus::from_word(Some(raw)), Ok(expected));
    }
}

#[test]
fn invalid_status_is_rejected() {
    let err = CompleteTaskStatus::from_word(Some("blocked"))
        .expect_err("invalid status should fail");

    assert!(err.contains("unknown variant `blocked`"));
    assert_eq!(
        err,
        "unknown variant `blocked`, expected one of `completed`, `partial`, `failed`"
    );
}

#[test]
fn short_result_is_not_truncated() {
    let result = "a concise report";
    assert_eq!(cap_result_bytes(result), result);
    assert!(!cap_result_bytes(result).contains(COMPLETE_TASK_TRUNCATION_MARKER));
}

#[test]
fn oversized_result_is_truncated_with_marker_and_stays_within_budget() {
    let result = "x".repeat(20_000);
    let capped = cap_result_bytes(&result);
    assert!(capped.ends_with(COMPLETE_TASK_TRUNCATION_MARKER));
    assert!(
        capped.len() <= MAX_COMPLETE_TASK_RESULT_BYTES,
        "capped len {} exceeded budget {MAX_COMPLETE_TASK_RESULT_BYTES}",
        capped.len()
    );
    assert_eq!(capped.len(), 12_000);
}

#[test]
fn truncation_respects_utf8_char_boundaries() {
    // Characters of two bytes force the cut back to a boundary.
    let result = "é".repeat(20_000);
    let capped = cap_result_bytes(&result);
    assert!(capped.ends_with(COMPLETE_TASK_TRUNCATION_MARKER));
    assert!(capped.len() <= MAX_COMPLETE_TASK_RESULT_BYTES);
    let body = capped
        .strip_suffix(COMPLETE_TASK_TRUNCATION_MARKER)
        .unwrap();
    assert!(body.chars().all(|c| c == 'é'));
}

#[test]
fn a_report_at_the_limit_is_kept_whole() {
    let result = "y".repeat(12_000);
    assert_eq!(cap_result_bytes(&result), result);
    let one_more = "y".repeat(12_001);
    assert_eq!(
        cap_result_bytes(&one_more),
        format!("{}…[truncated at 12000 bytes]", "y".repeat(11_971))
    );
}

#[test]
fn a_blank_report_is_refused() {
    let args = CompleteTaskArgs {
        result: " \n\t".to_string(),
        status: CompleteTaskStatus::Completed,
    };
    assert_eq!(
        handle_complete_task(&args),
        Err(FunctionCallError::RespondToModel(
            "complete_task requires a non-empty `result` containing your final report.".to_string()
        ))
    );
}

#[test]
fn an_accepted_report_keeps_its_status() {
    let args = CompleteTaskArgs {
        result: "done".to_string(),
        status: CompleteTaskStatus::Partial,
    };
    assert_eq!(
        handle_complete_task(&args),
        Ok(CompleteTaskResult {
            status: CompleteTaskStatus::Partial,
            result: "done".to_string(),
        })
    );
    assert_eq!(CompleteTaskStatus::default(), CompleteTaskStatus::Completed);
}
