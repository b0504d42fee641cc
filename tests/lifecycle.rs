use cccb_bridge::error::ConnError;
use cccb_bridge::lifecycle::{
    combine_outcomes, is_failure_outcome, ConnPhase, ConnState, ConnectionSide,
};

#[test]
fn only_first_connect_succeeds() {
    let mut st = ConnState::new(ConnectionSide::Game);
    assert_eq!(st.phase(), ConnPhase::Idle);
    assert!(st.begin_connect().is_ok());
    assert_eq!(st.phase(), ConnPhase::Connecting);
    assert_eq!(st.begin_connect().err(), Some(ConnError::AlreadyActive));
    assert!(st.handshake_done(1));
    assert_eq!(st.phase(), ConnPhase::Connected);
    assert_eq!(st.begin_connect().err(), Some(ConnError::AlreadyActive));
    assert_eq!(st.phase(), ConnPhase::Connected);
    st.disconnect();
    assert_eq!(st.phase(), ConnPhase::Idle);
    assert!(st.begin_connect().is_ok());
    assert_eq!(st.side(), ConnectionSide::Game);
}

#[test]
fn disconnect_signals_the_handed_out_token() {
    let mut st = ConnState::new(ConnectionSide::Remote);
    let (token, attempt) = st.begin_connect().unwrap();
    assert_eq!(attempt, 1);
    assert!(!token.is_cancelled());
    st.disconnect();
    assert!(token.is_cancelled());
    assert_eq!(st.phase(), ConnPhase::Idle);
}

#[test]
fn disconnect_when_idle_is_a_no_op() {
    let mut st = ConnState::new(ConnectionSide::Remote);
    st.disconnect();
    assert_eq!(st.phase(), ConnPhase::Idle);
    assert_eq!(st.side(), ConnectionSide::Remote);
}

#[test]
fn cancelled_during_connect_never_becomes_connected() {
    let mut st = ConnState::new(ConnectionSide::Game);
    let (token, attempt) = st.begin_connect().unwrap();
    st.disconnect();
    assert!(token.is_cancelled());
    assert!(!st.handshake_done(attempt));
    assert_eq!(st.phase(), ConnPhase::Idle);
}

#[test]
fn finish_ends_only_its_own_attempt() {
    let mut st = ConnState::new(ConnectionSide::Game);
    let (first, a1) = st.begin_connect().unwrap();
    st.disconnect();
    let (second, a2) = st.begin_connect().unwrap();
    assert_ne!(a1, a2);
    // The first attempt's cleanup comes late: the second attempt survives it.
    st.finish(a1);
    assert_eq!(st.phase(), ConnPhase::Connecting);
    assert!(first.is_cancelled());
    assert!(!second.is_cancelled());
    // A handshake reported for the first attempt does not count either.
    assert!(!st.handshake_done(a1));
    assert!(st.handshake_done(a2));
    st.finish(a2);
    assert_eq!(st.phase(), ConnPhase::Idle);
    assert!(second.is_cancelled());
}

#[test]
fn rejected_connect_leaves_the_active_attempt_alone() {
    let mut st = ConnState::new(ConnectionSide::Remote);
    let (token, attempt) = st.begin_connect().unwrap();
    assert_eq!(st.begin_connect().err(), Some(ConnError::AlreadyActive));
    assert!(!token.is_cancelled());
    assert!(st.handshake_done(attempt));
    assert_eq!(st.phase(), ConnPhase::Connected);
}

#[test]
fn outcomes_two_failures_are_joined() {
    let r = combine_outcomes(
        Err(ConnError::Transport("write failed".to_string())),
        Err(ConnError::Transport("read failed".to_string())),
    );
    assert_eq!(r, Err(ConnError::Transport("write failed, read failed".to_string())));
    let r = combine_outcomes(Err(ConnError::IdsExhausted), Err(ConnError::Transport("eof".to_string())));
    assert_eq!(r, Err(ConnError::Transport("command identifiers exhausted, eof".to_string())));
}

#[test]
fn outcomes_single_failure_is_reported() {
    let w = Err(ConnError::Transport("broken pipe".to_string()));
    assert_eq!(combine_outcomes(w.clone(), Ok(())), w);
    assert_eq!(combine_outcomes(w.clone(), Err(ConnError::Cancelled)), w);
    let r = Err(ConnError::Transport("reset".to_string()));
    assert_eq!(combine_outcomes(Ok(()), r.clone()), r);
    assert_eq!(combine_outcomes(Err(ConnError::Cancelled), r.clone()), r);
}

#[test]
fn outcomes_cancellation_and_clean_end() {
    assert_eq!(combine_outcomes(Err(ConnError::Cancelled), Ok(())), Err(ConnError::Cancelled));
    assert_eq!(combine_outcomes(Ok(()), Err(ConnError::Cancelled)), Err(ConnError::Cancelled));
    assert_eq!(
        combine_outcomes(Err(ConnError::Cancelled), Err(ConnError::Cancelled)),
        Err(ConnError::Cancelled)
    );
    assert_eq!(combine_outcomes(Ok(()), Ok(())), Ok(()));
}

#[test]
fn failure_outcomes() {
    assert!(!is_failure_outcome(&Ok(())));
    assert!(!is_failure_outcome(&Err(ConnError::Cancelled)));
    assert!(is_failure_outcome(&Err(ConnError::Transport("x".to_string()))));
    assert!(is_failure_outcome(&Err(ConnError::IdsExhausted)));
    assert!(is_failure_outcome(&Err(ConnError::AlreadyActive)));
}
