use ssh_session::connect::{ConnectAction, ConnectStage};
use ssh_session::error::SshError;
use ssh_session::reply::Reply;
use ssh_session::session::SSH;

fn engine_session() -> ssh2::Session {
    ssh2::Session::new().expect("libssh2 gives a session")
}

fn authenticated_session() -> SSH {
    let mut ssh = SSH::new("localhost", 22);
    let mut attempt = ssh.connect("user", "secret");
    attempt.step(Reply::Done);
    attempt.step(Reply::Done);
    attempt.step(Reply::Done);
    assert_eq!(ssh.settle(&attempt, engine_session(), true), Ok(()));
    ssh
}

#[test]
fn fresh_session_is_not_authenticated() {
    let ssh = SSH::new("localhost", 22);
    assert_eq!(ssh.host(), "localhost");
    assert_eq!(ssh.port(), 22);
    assert!(!ssh.authed());
    assert!(matches!(ssh.transport(), Err(SshError::NotAuthenticated)));
}

#[test]
fn authed_gives_the_same_answer_each_time() {
    let ssh = SSH::new("example.org", 2222);
    assert_eq!(ssh.authed(), ssh.authed());
    assert!(!ssh.authed());
    let ssh = authenticated_session();
    assert!(ssh.authed());
    assert!(ssh.authed());
    assert_eq!(ssh.authed(), ssh.authed());
}

#[test]
fn every_operation_refuses_a_fresh_session() {
    let mut ssh = SSH::new("localhost", 22);
    assert!(matches!(ssh.run_command("echo hello"), Err(SshError::NotAuthenticated)));
    assert!(matches!(ssh.upload_file("/tmp/local", "/tmp/x"), Err(SshError::NotAuthenticated)));
    assert!(matches!(ssh.get_file("/tmp/x"), Err(SshError::NotAuthenticated)));
    assert!(matches!(ssh.keepalive(true, 30), Err(SshError::NotAuthenticated)));
    assert!(matches!(ssh.get_shell(), Err(SshError::NotAuthenticated)));
    assert!(!ssh.authed());
}

#[test]
fn every_operation_refuses_a_session_whose_attempt_failed() {
    let mut ssh = SSH::new("localhost", 22);
    let mut attempt = ssh.connect("user", "wrongpass");
    attempt.step(Reply::Done);
    attempt.step(Reply::Done);
    attempt.step(Reply::Failed);
    assert_eq!(ssh.adopt(&attempt, engine_session()), Err(SshError::Auth));
    assert!(matches!(ssh.run_command("echo hello"), Err(SshError::NotAuthenticated)));
    assert!(matches!(ssh.upload_file("/tmp/local", "/tmp/x"), Err(SshError::NotAuthenticated)));
    assert!(matches!(ssh.get_file("/tmp/x"), Err(SshError::NotAuthenticated)));
    assert!(matches!(ssh.keepalive(true, 30), Err(SshError::NotAuthenticated)));
}

#[test]
fn wrong_password_is_an_auth_error() {
    let mut ssh = SSH::new("localhost", 22);
    let mut attempt = ssh.connect("user", "wrongpass");
    assert!(matches!(
        attempt.action(),
        ConnectAction::OpenSocket { host: "localhost", port: 22 }
    ));
    attempt.step(Reply::Done);
    assert!(matches!(attempt.action(), ConnectAction::Handshake));
    attempt.step(Reply::Done);
    assert!(matches!(
        attempt.action(),
        ConnectAction::Password { username: "user", password: "wrongpass" }
    ));
    attempt.step(Reply::Failed);
    assert!(matches!(attempt.action(), ConnectAction::Fail(SshError::Auth)));
    assert_eq!(ssh.adopt(&attempt, engine_session()), Err(SshError::Auth));
    assert!(!ssh.authed());
}

#[test]
fn unreachable_host_is_a_socket_error() {
    let mut ssh = SSH::new("192.0.2.1", 22);
    let mut attempt = ssh.connect("user", "secret");
    attempt.step(Reply::Failed);
    assert!(attempt.failed());
    assert_eq!(attempt.stage(), ConnectStage::Socket);
    assert!(matches!(attempt.action(), ConnectAction::Fail(SshError::Socket)));
    // Whatever is answered afterwards, the attempt has failed at the socket.
    attempt.step(Reply::Done);
    attempt.step(Reply::Done);
    assert!(matches!(attempt.action(), ConnectAction::Fail(SshError::Socket)));
    assert_eq!(ssh.settle(&attempt, engine_session(), true), Err(SshError::Socket));
    assert!(!ssh.authed());

    let mut attempt = ssh.connect_agent("user");
    attempt.step(Reply::Failed);
    assert_eq!(ssh.adopt(&attempt, engine_session()), Err(SshError::Socket));
    assert!(!ssh.authed());
}

#[test]
fn a_transport_that_is_not_authenticated_is_not_adopted() {
    // The three steps are reported done, but the engine's session was never
    // authenticated: the engine says so, and the session refuses it.
    let mut ssh = SSH::new("localhost", 22);
    let mut attempt = ssh.connect("user", "secret");
    attempt.step(Reply::Done);
    attempt.step(Reply::Done);
    attempt.step(Reply::Done);
    assert!(matches!(attempt.action(), ConnectAction::Adopt));
    assert_eq!(ssh.adopt(&attempt, engine_session()), Err(SshError::Auth));
    assert!(!ssh.authed());
    assert!(matches!(ssh.transport(), Err(SshError::NotAuthenticated)));
}

#[test]
fn settle_goes_by_the_flag() {
    let mut ssh = SSH::new("localhost", 22);
    let mut attempt = ssh.connect("user", "secret");
    attempt.step(Reply::Done);
    attempt.step(Reply::Done);
    attempt.step(Reply::Done);
    assert_eq!(ssh.settle(&attempt, engine_session(), false), Err(SshError::Auth));
    assert!(!ssh.authed());
    assert_eq!(ssh.settle(&attempt, engine_session(), true), Ok(()));
    assert!(ssh.authed());
    assert!(ssh.transport().is_ok());
    assert_eq!(ssh.host(), "localhost");
    assert_eq!(ssh.port(), 22);
}

#[test]
fn an_attempt_that_is_not_through_is_not_settled() {
    let mut ssh = SSH::new("localhost", 22);
    let mut attempt = ssh.connect("user", "secret");
    assert_eq!(ssh.settle(&attempt, engine_session(), true), Err(SshError::Socket));
    attempt.step(Reply::Done);
    assert_eq!(ssh.settle(&attempt, engine_session(), true), Err(SshError::Handshake));
    attempt.step(Reply::Done);
    assert_eq!(ssh.settle(&attempt, engine_session(), true), Err(SshError::Auth));
    assert!(!ssh.authed());
}

#[test]
fn an_authenticated_session_stays_so() {
    let mut ssh = authenticated_session();
    let mut attempt = ssh.connect("user", "wrongpass");
    attempt.step(Reply::Done);
    attempt.step(Reply::Failed);
    assert_eq!(ssh.adopt(&attempt, engine_session()), Err(SshError::Handshake));
    assert!(ssh.authed());
    assert!(ssh.transport().is_ok());
}

#[test]
fn an_authenticated_session_begins_every_operation() {
    let mut ssh = authenticated_session();
    assert!(ssh.run_command("echo hello").is_ok());
    assert!(ssh.upload_file("/tmp/local", "/tmp/x").is_ok());
    assert!(ssh.get_file("/tmp/x").is_ok());
    assert!(ssh.get_shell().is_ok());
    assert!(ssh.keepalive(true, 30).is_ok());
    assert!(ssh.authed());
}
