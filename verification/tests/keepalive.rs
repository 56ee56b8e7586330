use ssh_session::error::SshError;
use ssh_session::keepalive::{Keepalive, KeepaliveAction, KeepaliveStage};
use ssh_session::reply::Reply;
use ssh_session::session::SSH;

fn authenticated_session() -> SSH {
    let mut ssh = SSH::new("localhost", 22);
    let mut attempt = ssh.connect("user", "secret");
    attempt.step(Reply::Done);
    attempt.step(Reply::Done);
    attempt.step(Reply::Done);
    let transport = ssh2::Session::new().expect("libssh2 gives a session");
    assert_eq!(ssh.settle(&attempt, transport, true), Ok(()));
    ssh
}

#[test]
fn keepalive_sends_one_probe() {
    let mut k = Keepalive::begin(true, 30);
    assert!(k.enabled());
    assert!(k.want_reply());
    assert_eq!(k.interval(), 30);
    assert_eq!(k.action(), KeepaliveAction::Probe);
    k.step(Reply::Done);
    assert_eq!(k.action(), KeepaliveAction::Finish(Ok(())));
}

#[test]
fn a_probe_that_cannot_be_sent_is_a_transport_error() {
    let mut k = Keepalive::begin(false, 5);
    k.step(Reply::Failed);
    assert_eq!(k.action(), KeepaliveAction::Finish(Err(SshError::Transport)));
    k.step(Reply::Done);
    assert_eq!(k.action(), KeepaliveAction::Finish(Err(SshError::Transport)));
}

#[test]
fn an_interval_of_zero_switches_keepalive_off() {
    let k = Keepalive::begin(true, 0);
    assert!(!k.enabled());
    assert_eq!(k.interval(), 0);
    assert_eq!(k.stage(), KeepaliveStage::Finished);
    // Nothing is probed: the setting has ended well as it begins.
    assert_eq!(k.action(), KeepaliveAction::Finish(Ok(())));
}

#[test]
fn keepalive_with_interval_zero_on_a_session() {
    let mut ssh = authenticated_session();
    let k = ssh.keepalive(true, 0).unwrap();
    assert!(!k.enabled());
    assert_eq!(k.action(), KeepaliveAction::Finish(Ok(())));
    assert!(ssh.authed());
}

#[test]
fn keepalive_on_a_session_sets_the_transport_and_asks_for_a_probe() {
    let mut ssh = authenticated_session();
    let mut k = ssh.keepalive(false, 60).unwrap();
    assert!(k.enabled());
    assert!(!k.want_reply());
    assert_eq!(k.interval(), 60);
    assert_eq!(k.stage(), KeepaliveStage::Probing);
    assert_eq!(k.action(), KeepaliveAction::Probe);
    k.step(Reply::Done);
    assert_eq!(k.stage(), KeepaliveStage::Finished);
    assert_eq!(k.action(), KeepaliveAction::Finish(Ok(())));
}
