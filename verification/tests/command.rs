use ssh_session::command::{text_of_output, CommandAction, CommandRun, CommandStage};
use ssh_session::error::SshError;
use ssh_session::reply::Reply;
use ssh_session::shell::{ShellAction, ShellProbe, ShellStage};

#[test]
fn echo_hello_prints_hello() {
    let mut run = CommandRun::begin("echo hello");
    assert_eq!(run.command(), "echo hello");
    assert!(matches!(run.action(), CommandAction::Open));
    run.step(Reply::Done);
    assert!(matches!(run.action(), CommandAction::Exec { command: "echo hello" }));
    run.step(Reply::Done);
    assert!(matches!(run.action(), CommandAction::Read));
    run.step(Reply::Data(b"hello\n".to_vec()));
    assert!(matches!(run.action(), CommandAction::Read));
    run.step(Reply::End);
    assert!(matches!(run.action(), CommandAction::Close));
    run.step(Reply::Done);
    assert!(matches!(run.action(), CommandAction::Finish));
    assert_eq!(run.finish(), Some(Ok("hello\n".to_string())));
}

#[test]
fn output_in_pieces_is_put_together() {
    let mut run = CommandRun::begin("cat /etc/motd");
    run.step(Reply::Done);
    run.step(Reply::Done);
    run.step(Reply::Data(b"one ".to_vec()));
    run.step(Reply::Data(Vec::new()));
    run.step(Reply::Data(b"two ".to_vec()));
    // A character of two bytes, cut in the middle.
    run.step(Reply::Data(vec![0xc3]));
    run.step(Reply::Data(vec![0xa9]));
    run.step(Reply::End);
    run.step(Reply::Failed);
    assert_eq!(run.finish(), Some(Ok("one two \u{e9}".to_string())));
}

#[test]
fn no_output_is_the_empty_text() {
    let mut run = CommandRun::begin("true");
    run.step(Reply::Done);
    run.step(Reply::Done);
    run.step(Reply::End);
    run.step(Reply::Done);
    assert_eq!(run.finish(), Some(Ok(String::new())));
}

#[test]
fn a_refused_channel_is_a_channel_open_error() {
    let mut run = CommandRun::begin("ls");
    run.step(Reply::Failed);
    // No channel was opened, so none is closed.
    assert_eq!(run.stage(), CommandStage::Finished);
    assert!(matches!(run.action(), CommandAction::Finish));
    assert_eq!(run.finish(), Some(Err(SshError::ChannelOpen)));
}

#[test]
fn a_rejected_command_is_an_exec_error_and_the_channel_is_closed() {
    let mut run = CommandRun::begin("ls");
    run.step(Reply::Done);
    run.step(Reply::Failed);
    assert_eq!(run.stage(), CommandStage::Closing);
    assert!(matches!(run.action(), CommandAction::Close));
    run.step(Reply::Done);
    assert_eq!(run.finish(), Some(Err(SshError::Exec)));
}

#[test]
fn a_failed_read_is_an_io_error_and_the_channel_is_closed() {
    let mut run = CommandRun::begin("ls");
    run.step(Reply::Done);
    run.step(Reply::Done);
    run.step(Reply::Data(b"partial".to_vec()));
    run.step(Reply::Failed);
    assert!(matches!(run.action(), CommandAction::Close));
    run.step(Reply::Failed);
    assert_eq!(run.finish(), Some(Err(SshError::Io)));
}

#[test]
fn output_that_is_no_text_is_an_io_error() {
    let mut run = CommandRun::begin("cat /bin/ls");
    run.step(Reply::Done);
    run.step(Reply::Done);
    run.step(Reply::Data(vec![0x66, 0x6f, 0xff, 0x6f]));
    run.step(Reply::End);
    run.step(Reply::Done);
    assert_eq!(run.finish(), Some(Err(SshError::Io)));
}

#[test]
fn a_run_that_has_not_ended_has_no_result() {
    let run = CommandRun::begin("ls");
    assert_eq!(run.finish(), None);
    let mut run = CommandRun::begin("ls");
    run.step(Reply::Done);
    run.step(Reply::Done);
    run.step(Reply::End);
    assert_eq!(run.finish(), None);
}

#[test]
fn a_finished_run_stays_finished() {
    let mut run = CommandRun::begin("ls");
    run.step(Reply::Done);
    run.step(Reply::Done);
    run.step(Reply::Data(b"a\n".to_vec()));
    run.step(Reply::End);
    run.step(Reply::Done);
    run.step(Reply::Data(b"more".to_vec()));
    run.step(Reply::Failed);
    assert_eq!(run.stage(), CommandStage::Finished);
    assert_eq!(run.finish(), Some(Ok("a\n".to_string())));
}

#[test]
fn text_of_output_decodes_utf8() {
    assert_eq!(text_of_output(b"hello\n".to_vec()), Ok("hello\n".to_string()));
    assert_eq!(text_of_output(Vec::new()), Ok(String::new()));
    assert_eq!(text_of_output(vec![0xe2, 0x82, 0xac]), Ok("\u{20ac}".to_string()));
    assert_eq!(text_of_output(vec![0xe2, 0x82]), Err(SshError::Io));
    assert_eq!(text_of_output(vec![0x80]), Err(SshError::Io));
}

#[test]
fn a_shell_probe_asks_for_an_xterm_and_closes() {
    let mut probe = ShellProbe::begin();
    assert!(matches!(probe.action(), ShellAction::Open));
    probe.step(Reply::Done);
    assert!(matches!(probe.action(), ShellAction::RequestPty { term: "xterm" }));
    probe.step(Reply::Done);
    assert!(matches!(probe.action(), ShellAction::Shell));
    probe.step(Reply::Done);
    assert!(matches!(probe.action(), ShellAction::Close));
    probe.step(Reply::Done);
    assert_eq!(probe.stage(), ShellStage::Finished);
    assert!(matches!(probe.action(), ShellAction::Finish(Ok(()))));
}

#[test]
fn a_shell_probe_fails_by_its_step() {
    let mut probe = ShellProbe::begin();
    probe.step(Reply::Failed);
    assert!(matches!(probe.action(), ShellAction::Finish(Err(SshError::ChannelOpen))));

    let mut probe = ShellProbe::begin();
    probe.step(Reply::Done);
    probe.step(Reply::Failed);
    assert!(matches!(probe.action(), ShellAction::Close));
    probe.step(Reply::Done);
    assert!(matches!(probe.action(), ShellAction::Finish(Err(SshError::Exec))));

    let mut probe = ShellProbe::begin();
    probe.step(Reply::Done);
    probe.step(Reply::Done);
    probe.step(Reply::Failed);
    assert!(matches!(probe.action(), ShellAction::Close));
    probe.step(Reply::Failed);
    assert!(matches!(probe.action(), ShellAction::Finish(Err(SshError::Exec))));
}
