use pull_server::{
    classify, compose_reply, contains_marker, handle_output, reply_for, Outcome, NO_CHANGE_MARKER,
    STATUS_FAILURE, STATUS_NO_OP, STATUS_SUCCESS,
};

#[test]
fn up_to_date_gives_no_op() {
    let r = handle_output(true, b"Already up to date.\n", b"");
    assert_eq!(r.status, 204);
    assert_eq!(r.status, STATUS_NO_OP);
    assert_eq!(r.body, "No changes to apply");
    assert!(r.echo.is_none());
}

#[test]
fn fast_forward_gives_changes_applied() {
    let out = b"Updating a1b2c3..d4e5f6\nFast-forward\n file.txt | 2 +-\n";
    let r = handle_output(true, out, b"");
    assert_eq!(r.status, 200);
    assert_eq!(r.status, STATUS_SUCCESS);
    assert_eq!(
        r.body,
        "Changes applied: Updating a1b2c3..d4e5f6\nFast-forward\n file.txt | 2 +-"
    );
    assert_eq!(
        r.echo.as_deref(),
        Some("Updating a1b2c3..d4e5f6\nFast-forward\n file.txt | 2 +-")
    );
}

#[test]
fn failed_run_gives_server_error() {
    let err = b"fatal: unable to access remote: Could not resolve host";
    let r = handle_output(false, b"", err);
    assert_eq!(r.status, 500);
    assert_eq!(r.status, STATUS_FAILURE);
    assert_eq!(
        r.body,
        "Error applying changes: fatal: unable to access remote: Could not resolve host"
    );
    assert!(r.echo.is_none());
}

#[test]
fn failed_run_trims_stderr() {
    let r = handle_output(false, b"", b"  \n fatal: bad object\n\n");
    assert_eq!(r.status, 500);
    assert_eq!(r.body, "Error applying changes: fatal: bad object");
}

#[test]
fn failed_run_ignores_marker_in_stdout() {
    let r = handle_output(false, b"Already up to date.\n", b"error: boom\n");
    assert_eq!(r.status, 500);
    assert_eq!(r.body, "Error applying changes: error: boom");
}

#[test]
fn failed_run_with_same_stderr_ignores_stdout() {
    let a = handle_output(false, b"Updating 1..2\n", b"fatal: x");
    let b = handle_output(false, b"something else", b"fatal: x");
    assert_eq!(a.status, b.status);
    assert_eq!(a.body, b.body);
    assert_eq!(a.body, "Error applying changes: fatal: x");
}

#[test]
fn invalid_utf8_is_replaced_not_rejected() {
    let r = handle_output(true, b"Updating \xff\xfe done\n", b"");
    assert_eq!(r.status, 200);
    assert_eq!(r.body, "Changes applied: Updating \u{FFFD}\u{FFFD} done");
}

#[test]
fn invalid_utf8_in_stderr_is_replaced() {
    let r = handle_output(false, b"", b"fatal: \xc3(\n");
    assert_eq!(r.status, 500);
    assert_eq!(r.body, "Error applying changes: fatal: \u{FFFD}(");
}

#[test]
fn marker_after_invalid_bytes_is_still_found() {
    let r = handle_output(true, b"\xff\nAlready up to date.\n", b"");
    assert_eq!(r.status, 204);
    assert_eq!(r.body, "No changes to apply");
}

#[test]
fn repeated_up_to_date_runs_agree() {
    let first = handle_output(true, b"Already up to date.\n", b"");
    let second = handle_output(true, b"Already up to date.\n", b"");
    assert_eq!(first.status, STATUS_NO_OP);
    assert_eq!(second.status, STATUS_NO_OP);
    assert_eq!(first.body, second.body);
    assert_eq!(first.body, "No changes to apply");
}

#[test]
fn marker_inside_longer_output_is_no_op() {
    let r = reply_for(true, "From origin\n * branch main\nAlready up to date.\n", "warning");
    assert_eq!(r.status, 204);
    assert_eq!(r.body, "No changes to apply");
}

#[test]
fn empty_output_of_successful_run_is_success() {
    let r = reply_for(true, "", "");
    assert_eq!(r.status, 200);
    assert_eq!(r.body, "Changes applied: ");
    assert_eq!(r.echo.as_deref(), Some(""));
}

#[test]
fn success_trims_both_ends() {
    let r = reply_for(true, "\n\t Updating 1..2 \n", "");
    assert_eq!(r.body, "Changes applied: Updating 1..2");
}

#[test]
fn marker_search() {
    assert_eq!(NO_CHANGE_MARKER, "Already up to date.");
    assert!(contains_marker("Already up to date."));
    assert!(contains_marker("x Already up to date.\n"));
    assert!(!contains_marker("Already up to date"));
    assert!(!contains_marker("already up to date."));
    assert!(!contains_marker(""));
    assert!(!contains_marker("Already up to\ndate."));
}

#[test]
fn classify_order() {
    assert_eq!(classify(false, "Already up to date."), Outcome::Failure);
    assert_eq!(classify(false, "Updating"), Outcome::Failure);
    assert_eq!(classify(true, "Already up to date.\n"), Outcome::NoOp);
    assert_eq!(classify(true, "Updating 1..2"), Outcome::Success);
}

#[test]
fn compose_each_outcome() {
    let f = compose_reply(Outcome::Failure, "out", "err");
    assert_eq!((f.status, f.body.as_str()), (500, "Error applying changes: err"));
    assert!(f.echo.is_none());
    let n = compose_reply(Outcome::NoOp, "out", "err");
    assert_eq!((n.status, n.body.as_str()), (204, "No changes to apply"));
    assert!(n.echo.is_none());
    let s = compose_reply(Outcome::Success, "out", "err");
    assert_eq!((s.status, s.body.as_str()), (200, "Changes applied: out"));
    assert_eq!(s.echo.as_deref(), Some("out"));
}
