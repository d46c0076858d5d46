//! Tests of response shaping: status codes, bodies, the JSON rendering of a
//! shell result, and the write action's checkpoints.

use teleapi::response::{
    empty_with_status, read_bin_file_response, read_file_response, command_result_response,
    BodyKind, CommandResult,
};
use teleapi::writefile::{write_outcome_response, write_step_kinds, WriteOutcome, WritePlan, WriteStepKind};

fn b(s: &str) -> Vec<u8> {
    s.as_bytes().to_vec()
}

#[test]
fn empty_with_status_has_no_body() {
    let r = empty_with_status(401);
    assert_eq!(r.status_code, 401);
    assert_eq!(r.kind, BodyKind::Empty);
    assert!(r.body.is_empty());
}

#[test]
fn text_read_success_is_200_plain_text() {
    let r = read_file_response(Some(b("hello\n")));
    assert_eq!(r.status_code, 200);
    assert_eq!(r.kind, BodyKind::PlainText);
    assert_eq!(r.body, b("hello\n"));
}

#[test]
fn any_text_read_failure_collapses_to_404() {
    let r = read_file_response(None);
    assert_eq!(r.status_code, 404);
    assert_eq!(r.kind, BodyKind::Empty);
    assert!(r.body.is_empty());
}

#[test]
fn binary_read_success_is_200_octet_stream() {
    let r = read_bin_file_response(Some(vec![0u8, 159, 146, 150]));
    assert_eq!(r.status_code, 200);
    assert_eq!(r.kind, BodyKind::OctetStream);
    assert_eq!(r.body, vec![0u8, 159, 146, 150]);
}

#[test]
fn binary_read_failure_collapses_to_404() {
    let r = read_bin_file_response(None);
    assert_eq!(r.status_code, 404);
}

#[test]
fn echo_hi_result_renders_the_documented_json() {
    let res = CommandResult::from_raw(Some(0), b("hi\n"), b(""));
    let r = command_result_response(&res);
    assert_eq!(r.status_code, 200);
    assert_eq!(r.kind, BodyKind::Json);
    assert_eq!(r.body, b("{\"retcode\":0,\"stdout\":\"hi\\n\",\"stderr\":\"\"}"));
}

#[test]
fn negative_exit_code_renders_with_sign() {
    let res = CommandResult::from_raw(Some(-17), b(""), b(""));
    let r = command_result_response(&res);
    assert_eq!(r.body, b("{\"retcode\":-17,\"stdout\":\"\",\"stderr\":\"\"}"));
}

#[test]
fn missing_exit_code_counts_as_zero() {
    let res = CommandResult::from_raw(None, b(""), b("boom"));
    assert_eq!(res.retcode, 0);
    assert_eq!(res.stderr, b("boom"));
}

#[test]
fn undecodable_output_stream_becomes_empty() {
    let res = CommandResult::from_raw(Some(1), vec![0xff, 0xfe], b("ok"));
    assert_eq!(res.stdout, b(""));
    assert_eq!(res.stderr, b("ok"));
    let r = command_result_response(&res);
    assert_eq!(r.body, b("{\"retcode\":1,\"stdout\":\"\",\"stderr\":\"ok\"}"));
}

#[test]
fn json_escapes_quotes_backslashes_and_controls() {
    let res = CommandResult::from_raw(Some(0), b("a\"b\\c\t\r\x01"), b(""));
    let r = command_result_response(&res);
    assert_eq!(
        r.body,
        b("{\"retcode\":0,\"stdout\":\"a\\\"b\\\\c\\t\\r\\u0001\",\"stderr\":\"\"}")
    );
}

#[test]
fn write_steps_follow_the_configured_fields_in_order() {
    let full = WritePlan {
        path: b("/tmp/x"),
        mode: Some(0o600),
        user: Some(b("root")),
        group: Some(b("wheel")),
    };
    assert_eq!(
        write_step_kinds(&full),
        vec![
            WriteStepKind::ReadBody,
            WriteStepKind::WriteContent,
            WriteStepKind::SetMode,
            WriteStepKind::SetOwner,
            WriteStepKind::SetGroup,
        ]
    );
    let bare = WritePlan { path: b("/tmp/x"), mode: None, user: None, group: None };
    assert_eq!(
        write_step_kinds(&bare),
        vec![WriteStepKind::ReadBody, WriteStepKind::WriteContent]
    );
    let owner_only = WritePlan { path: b("/tmp/x"), mode: None, user: Some(b("root")), group: None };
    assert_eq!(
        write_step_kinds(&owner_only),
        vec![WriteStepKind::ReadBody, WriteStepKind::WriteContent, WriteStepKind::SetOwner]
    );
}

#[test]
fn completed_write_is_201_and_failures_are_500() {
    assert_eq!(write_outcome_response(WriteOutcome::Success).status_code, 201);
    assert!(write_outcome_response(WriteOutcome::Success).body.is_empty());
    for o in [
        WriteOutcome::NoBody,
        WriteOutcome::BodyReadFailed,
        WriteOutcome::WriteFailed,
        WriteOutcome::MetadataFailed,
        WriteOutcome::SetModeFailed,
        WriteOutcome::UserNotFound,
        WriteOutcome::ChownFailed,
        WriteOutcome::GroupNotFound,
        WriteOutcome::ChgrpFailed,
    ] {
        let r = write_outcome_response(o);
        assert_eq!(r.status_code, 500);
        assert!(r.body.is_empty());
    }
}

