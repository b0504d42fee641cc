use cccb_bridge::error::{CccbError, ConnError};
use cccb_bridge::statuses::{EffectResult, RequestType, ResponseType};

#[test]
fn effect_result_codes_follow_declaration_order() {
    let all = [
        EffectResult::Success,
        EffectResult::Failure,
        EffectResult::Unavailable,
        EffectResult::Retry,
        EffectResult::Queue,
        EffectResult::Running,
        EffectResult::Paused,
        EffectResult::Resumed,
        EffectResult::Finished,
        EffectResult::NotReady,
    ];
    for (i, e) in all.iter().enumerate() {
        assert_eq!(e.code() as usize, i);
        assert_eq!(EffectResult::from_code(i as u8), Some(*e));
    }
    assert_eq!(EffectResult::from_code(10), None);
    assert_eq!(EffectResult::from_code(255), None);
}

#[test]
fn request_type_codes() {
    assert_eq!(RequestType::Test.code(), 0);
    assert_eq!(RequestType::Start.code(), 1);
    assert_eq!(RequestType::Stop.code(), 2);
    assert_eq!(RequestType::Login.code(), 0xF0);
    assert_eq!(RequestType::KeepAlive.code(), 0xFF);
    for t in [RequestType::Test, RequestType::Start, RequestType::Stop, RequestType::Login, RequestType::KeepAlive] {
        assert_eq!(RequestType::from_code(t.code()), Some(t));
    }
    assert_eq!(RequestType::from_code(3), None);
    assert_eq!(RequestType::from_code(0xEF), None);
}

#[test]
fn response_type_codes() {
    assert_eq!(ResponseType::EffectRequest.code(), 0);
    assert_eq!(ResponseType::Login.code(), 0xF0);
    assert_eq!(ResponseType::KeepAlive.code(), 0xFF);
    for t in [ResponseType::EffectRequest, ResponseType::Login, ResponseType::KeepAlive] {
        assert_eq!(ResponseType::from_code(t.code()), Some(t));
    }
    assert_eq!(ResponseType::from_code(1), None);
    assert_eq!(ResponseType::from_code(0xFE), None);
}

#[test]
fn cccb_error_text() {
    assert_eq!(CccbError::MajorConnError("boom".to_string()).describe(), "major error: boom");
    assert_eq!(CccbError::MinorConnError("meh".to_string()).describe(), "minor error: meh");
}

#[test]
fn conn_error_text() {
    assert_eq!(ConnError::AlreadyActive.describe(), "already connecting/connected");
    assert_eq!(ConnError::Cancelled.describe(), "cancelled");
    assert_eq!(ConnError::Transport("refused".to_string()).describe(), "refused");
    assert_eq!(ConnError::IdsExhausted.describe(), "command identifiers exhausted");
}

#[test]
fn conn_error_severity() {
    assert_eq!(
        ConnError::AlreadyActive.to_report(),
        CccbError::MinorConnError("already connecting/connected".to_string())
    );
    assert_eq!(ConnError::Cancelled.to_report(), CccbError::MinorConnError("cancelled".to_string()));
    assert_eq!(
        ConnError::Transport("reset".to_string()).to_report(),
        CccbError::MajorConnError("reset".to_string())
    );
    assert_eq!(
        ConnError::IdsExhausted.to_report().describe(),
        "major error: command identifiers exhausted"
    );
}
