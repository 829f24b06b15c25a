use singularity::power::{
    next_logout_step, parse_u32, parse_uid, LogoutError, LogoutEvent, LogoutStep, UidOutput,
};

fn chars(s: &str) -> Vec<char> {
    s.chars().collect()
}

#[test]
fn uid_is_read_from_id_output() {
    assert_eq!(parse_uid("1000\n"), Some(1000));
    assert_eq!(parse_uid("  0 \t\n"), Some(0));
    assert_eq!(parse_uid("+42"), Some(42));
    assert_eq!(parse_uid("4294967295"), Some(u32::MAX));
}

#[test]
fn uid_rejects_what_parse_rejects() {
    assert_eq!(parse_uid(""), None);
    assert_eq!(parse_uid("\n"), None);
    assert_eq!(parse_uid("+"), None);
    assert_eq!(parse_uid("-1"), None);
    assert_eq!(parse_uid("12 34"), None);
    assert_eq!(parse_uid("4294967296"), None);
    assert_eq!(parse_uid("99999999999999999999"), None);
    assert_eq!(parse_uid("1e3"), None);
}

#[test]
fn parse_u32_agrees_with_std() {
    for s in ["0", "007", "+1", "65535", "4294967295", "4294967296", "", "+", "-0", " 1", "1 ", "abc"] {
        assert_eq!(parse_u32(&chars(s)), s.parse::<u32>().ok(), "input {s:?}");
    }
}

#[test]
fn log_out_finishes_when_the_session_exits() {
    assert!(matches!(next_logout_step(LogoutEvent::SessionExited(true)), LogoutStep::Finish(Ok(()))));
}

#[test]
fn log_out_falls_back_to_the_user_id() {
    assert!(matches!(next_logout_step(LogoutEvent::SessionExited(false)), LogoutStep::ReadUserId));
    assert!(matches!(
        next_logout_step(LogoutEvent::UserIdRead(UidOutput::Text("1000\n".to_string()))),
        LogoutStep::TerminateUser(1000)
    ));
    assert!(matches!(next_logout_step(LogoutEvent::UserTerminated(true)), LogoutStep::Finish(Ok(()))));
}

#[test]
fn log_out_reports_each_failure() {
    assert!(matches!(
        next_logout_step(LogoutEvent::UserIdRead(UidOutput::NotRun)),
        LogoutStep::Finish(Err(LogoutError::UidNotRun))
    ));
    assert!(matches!(
        next_logout_step(LogoutEvent::UserIdRead(UidOutput::Failed)),
        LogoutStep::Finish(Err(LogoutError::UidFailed))
    ));
    assert!(matches!(
        next_logout_step(LogoutEvent::UserIdRead(UidOutput::NotText)),
        LogoutStep::Finish(Err(LogoutError::UidNotText))
    ));
    assert!(matches!(
        next_logout_step(LogoutEvent::UserIdRead(UidOutput::Text("root".to_string()))),
        LogoutStep::Finish(Err(LogoutError::UidNotNumber))
    ));
    assert!(matches!(
        next_logout_step(LogoutEvent::UserTerminated(false)),
        LogoutStep::Finish(Err(LogoutError::Bus))
    ));
}
