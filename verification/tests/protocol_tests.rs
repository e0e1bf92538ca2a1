use intersystems_ls::protocol::CompileStatus;

#[test]
fn compile_status_codes() {
    assert_eq!(CompileStatus::Success.code(), 0);
    assert_eq!(CompileStatus::Error.code(), 1);
    assert_eq!(CompileStatus::Failure.code(), 2);
    assert_eq!(CompileStatus::Cancelled.code(), 3);
}

#[test]
fn compile_status_round_trip() {
    for s in [
        CompileStatus::Success,
        CompileStatus::Error,
        CompileStatus::Failure,
        CompileStatus::Cancelled,
    ] {
        assert_eq!(CompileStatus::from_code(s.code()), Some(s));
    }
}

#[test]
fn compile_status_unknown_code() {
    assert_eq!(CompileStatus::from_code(4), None);
    assert_eq!(CompileStatus::from_code(-1), None);
}
