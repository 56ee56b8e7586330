use ssh_session::connect::{AuthMethod, Connect, ConnectAction, ConnectStage};
use ssh_session::error::SshError;
use ssh_session::reply::Reply;

fn password_attempt() -> Connect {
    Connect::begin(
        "host.example",
        2200,
        AuthMethod::Password { username: "alice".to_string(), password: "pw".to_string() },
    )
}

#[test]
fn the_steps_come_in_order() {
    let mut attempt = password_attempt();
    assert_eq!(attempt.host(), "host.example");
    assert_eq!(attempt.port(), 2200);
    assert_eq!(attempt.stage(), ConnectStage::Socket);
    assert!(matches!(
        attempt.action(),
        ConnectAction::OpenSocket { host: "host.example", port: 2200 }
    ));
    attempt.step(Reply::Done);
    assert_eq!(attempt.stage(), ConnectStage::Handshake);
    assert!(matches!(attempt.action(), ConnectAction::Handshake));
    attempt.step(Reply::Done);
    assert_eq!(attempt.stage(), ConnectStage::Authenticate);
    assert!(matches!(
        attempt.action(),
        ConnectAction::Password { username: "alice", password: "pw" }
    ));
    attempt.step(Reply::Done);
    assert_eq!(attempt.stage(), ConnectStage::Verify);
    assert!(!attempt.failed());
    assert!(matches!(attempt.action(), ConnectAction::Adopt));
    assert_eq!(attempt.verdict(true), Ok(()));
    assert_eq!(attempt.verdict(false), Err(SshError::Auth));
}

#[test]
fn an_agent_attempt_authenticates_through_the_agent() {
    let mut attempt =
        Connect::begin("host.example", 22, AuthMethod::Agent { username: "bob".to_string() });
    attempt.step(Reply::Done);
    attempt.step(Reply::Done);
    assert!(matches!(attempt.action(), ConnectAction::Agent { username: "bob" }));
    attempt.step(Reply::Failed);
    assert!(matches!(attempt.action(), ConnectAction::Fail(SshError::Auth)));
    assert_eq!(attempt.verdict(true), Err(SshError::Auth));
}

#[test]
fn a_failed_socket_is_a_socket_error() {
    let mut attempt = password_attempt();
    attempt.step(Reply::Failed);
    assert!(attempt.failed());
    assert!(matches!(attempt.action(), ConnectAction::Fail(SshError::Socket)));
    assert_eq!(attempt.verdict(true), Err(SshError::Socket));
    assert_eq!(attempt.verdict(false), Err(SshError::Socket));
}

#[test]
fn a_failed_handshake_is_a_handshake_error() {
    let mut attempt = password_attempt();
    attempt.step(Reply::Done);
    attempt.step(Reply::Failed);
    assert!(matches!(attempt.action(), ConnectAction::Fail(SshError::Handshake)));
    assert_eq!(attempt.verdict(true), Err(SshError::Handshake));
}

#[test]
fn an_answer_of_the_wrong_kind_fails_the_step() {
    let mut attempt = password_attempt();
    attempt.step(Reply::End);
    assert_eq!(attempt.verdict(true), Err(SshError::Socket));
    let mut attempt = password_attempt();
    attempt.step(Reply::Done);
    attempt.step(Reply::Data(vec![1, 2, 3]));
    assert_eq!(attempt.verdict(true), Err(SshError::Handshake));
}

#[test]
fn an_attempt_that_waits_for_the_session_ignores_answers() {
    let mut attempt = password_attempt();
    attempt.step(Reply::Done);
    attempt.step(Reply::Done);
    attempt.step(Reply::Done);
    attempt.step(Reply::Failed);
    attempt.step(Reply::Done);
    assert_eq!(attempt.stage(), ConnectStage::Verify);
    assert!(!attempt.failed());
    assert_eq!(attempt.verdict(true), Ok(()));
}

#[test]
fn the_error_of_each_step() {
    assert_eq!(ConnectStage::Socket.error(), SshError::Socket);
    assert_eq!(ConnectStage::Handshake.error(), SshError::Handshake);
    assert_eq!(ConnectStage::Authenticate.error(), SshError::Auth);
    assert_eq!(ConnectStage::Verify.error(), SshError::Auth);
}

#[test]
fn connect_errors_are_told_apart() {
    assert!(SshError::Socket.is_connect_error());
    assert!(SshError::Handshake.is_connect_error());
    assert!(SshError::Auth.is_connect_error());
    assert!(!SshError::NotAuthenticated.is_connect_error());
    assert!(!SshError::Transfer.is_connect_error());
    assert_eq!(SshError::Socket.message(), "could not connect to the host");
    assert_eq!(SshError::NotAuthenticated.message(), "the session is not authenticated");
    assert_eq!(SshError::AgentProtocol.message(), "the agent gave no usable answer");
}
