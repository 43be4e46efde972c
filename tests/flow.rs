use causeway::retry::{after_attempt, after_reconnect, AttemptStep, ReconnectStep};
use causeway::sequence::SequenceRun;
use causeway::{BrowserError, CdpError, ConfigError};

fn three() -> Vec<(String, String)> {
    vec![
        ("A".to_string(), "{}".to_string()),
        ("B".to_string(), "{}".to_string()),
        ("C".to_string(), "{}".to_string()),
    ]
}

#[test]
fn sequence_stops_at_first_failure() {
    let mut run = SequenceRun::new(three());
    let mut issued = Vec::new();
    while let Some((method, _)) = run.next_command() {
        issued.push(method.clone());
        if method == "B" {
            run.record(Err(CdpError::ResponseError { code: 1, message: "b failed".to_string() }));
        } else {
            run.record(Ok(format!("\"{}\"", method)));
        }
    }
    assert_eq!(issued, vec!["A".to_string(), "B".to_string()]);
    assert!(run.is_finished());
    match run.outcome() {
        Err(CdpError::ResponseError { code, message }) => {
            assert_eq!(code, 1);
            assert_eq!(message, "b failed");
        }
        _ => panic!("expected b's error"),
    }
}

#[test]
fn sequence_returns_last_result() {
    let mut run = SequenceRun::new(three());
    let mut n = 0;
    while let Some((method, _)) = run.next_command() {
        n += 1;
        run.record(Ok(format!("\"{}\"", method)));
    }
    assert_eq!(n, 3);
    assert_eq!(run.outcome().ok().unwrap(), "\"C\"");
}

#[test]
fn empty_sequence_yields_null() {
    let run = SequenceRun::new(Vec::new());
    assert!(run.is_finished());
    assert!(run.next_command().is_none());
    assert_eq!(run.outcome().ok().unwrap(), "null");
}

#[test]
fn transport_failure_leads_to_one_reconnect() {
    assert!(matches!(after_attempt(false, Err(CdpError::SendFailed)), AttemptStep::Reconnect));
    assert!(matches!(after_attempt(false, Err(CdpError::ResponseDropped)), AttemptStep::Reconnect));
    assert!(matches!(
        after_attempt(true, Err(CdpError::SendFailed)),
        AttemptStep::Finish(Err(CdpError::SendFailed))
    ));
}

#[test]
fn protocol_error_and_success_are_final() {
    let e = CdpError::ResponseError { code: 2, message: "x".to_string() };
    assert!(matches!(after_attempt(false, Err(e)), AttemptStep::Finish(Err(CdpError::ResponseError { code: 2, .. }))));
    match after_attempt(false, Ok("1".to_string())) {
        AttemptStep::Finish(Ok(v)) => assert_eq!(v, "1"),
        _ => panic!("expected success"),
    }
}

#[test]
fn reconnect_outcomes() {
    assert!(matches!(after_reconnect(Ok(())), ReconnectStep::Resend));
    match after_reconnect(Err("no target".to_string())) {
        ReconnectStep::Finish(CdpError::ConnectionFailed(msg)) => assert_eq!(msg, "no target"),
        _ => panic!("expected a connection failure"),
    }
}

#[test]
fn error_descriptions() {
    assert_eq!(CdpError::ConnectionFailed("refused".to_string()).describe(), "CDP connection failed: refused");
    assert_eq!(CdpError::SendFailed.describe(), "Failed to send CDP command");
    assert_eq!(
        CdpError::ResponseError { code: -32601, message: "nope".to_string() }.describe(),
        "CDP error (-32601): nope"
    );
    assert_eq!(
        CdpError::ResponseError { code: i64::MIN, message: "m".to_string() }.describe(),
        "CDP error (-9223372036854775808): m"
    );
    assert_eq!(CdpError::ResponseDropped.describe(), "CDP response channel dropped");
    assert_eq!(BrowserError::LaunchFailed("x".to_string()).describe(), "Failed to launch browser: x");
    assert_eq!(BrowserError::Timeout.describe(), "Browser did not become ready within 15 seconds");
    assert_eq!(ConfigError::FileNotFound("c.toml".to_string()).describe(), "Config file not found: c.toml");
    assert_eq!(ConfigError::ParseError("bad".to_string()).describe(), "Config parse error: bad");
}

#[test]
fn transport_failures_are_classified() {
    assert!(CdpError::SendFailed.is_transport_failure());
    assert!(CdpError::ResponseDropped.is_transport_failure());
    assert!(!CdpError::ConnectionFailed(String::new()).is_transport_failure());
}
