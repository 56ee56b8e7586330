//! Running one command on the remote side and reading what it prints.
//!
//! The command gets a channel of its own. Its standard output is read to the
//! end and taken as text; neither its exit status nor what it prints on
//! standard error is captured. The channel is closed before the run ends,
//! whether it ends well or not.

use crate::channel::{closes, law_closed_exactly_once, opens, orderly, Hold};
use crate::engine::text_of_bytes;
use crate::error::SshError;
use crate::reply::{all_data, payload, Reply};
use vstd::prelude::*;
use vstd::utf8::*;

verus! {

/// Where a run stands.
#[derive(Clone, Copy, Debug, PartialEq, Eq, Structural)]
pub enum CommandStage {
    /// The channel is to be opened.
    Opening,
    /// The channel is open; the remote side is to be asked to run the
    /// command.
    Requesting,
    /// The command runs; its output is being read.
    Reading,
    /// The channel is to be closed; how the run ends is decided.
    Closing,
    /// The run has ended.
    Finished,
}

impl CommandStage {
    /// What the run has of its channel at this stage.
    pub open spec fn hold(self) -> Hold {
        match self {
            CommandStage::Opening => Hold::Unopened,
            CommandStage::Requesting | CommandStage::Reading => Hold::Open,
            CommandStage::Closing => Hold::Closing,
            CommandStage::Finished => Hold::Ended,
        }
    }
}

/// What the driver is to do next for a run.
#[derive(Debug)]
pub enum CommandAction<'a> {
    /// Open a session channel.
    Open,
    /// Ask the remote side to run this command on the channel.
    Exec { command: &'a str },
    /// Read on in the channel's standard output.
    Read,
    /// Close the channel.
    Close,
    /// The run has ended; `finish` gives the result.
    Finish,
}

/// The run of one command, as far as it has come.
#[derive(Debug)]
pub struct CommandRun {
    command: String,
    output: Vec<u8>,
    stage: CommandStage,
    failure: Option<SshError>,
}

/// A `CommandRun` as plain values.
pub struct CommandRunView {
    /// The command line.
    pub command: Seq<char>,
    /// What the command has printed so far.
    pub output: Seq<u8>,
    pub stage: CommandStage,
    /// Why the run fails, once that is decided.
    pub failure: Option<SshError>,
}

impl View for CommandRun {
    type V = CommandRunView;

    closed spec fn view(&self) -> CommandRunView {
        CommandRunView {
            command: self.command@,
            output: self.output@,
            stage: self.stage,
            failure: self.failure,
        }
    }
}

/// What a run of bytes gives as a command's output: the text that they
/// encode in UTF-8, or a read error where they encode none.
pub open spec fn output_text(bytes: Seq<u8>) -> Result<Seq<char>, SshError> {
    if valid_utf8(bytes) {
        Ok(decode_utf8(bytes))
    } else {
        Err(SshError::Io)
    }
}

impl CommandRunView {
    /// A run that is about to ask for its channel.
    pub open spec fn begin(command: Seq<char>) -> CommandRunView {
        CommandRunView {
            command,
            output: Seq::empty(),
            stage: CommandStage::Opening,
            failure: None,
        }
    }

    /// The run after the answer to its action.
    ///
    /// The channel opens or the run has failed. The remote side takes the
    /// command or rejects it. Bytes that a read brings are added to the
    /// output, the end of the stream leads on to closing, and any other
    /// answer is a read error. Once the channel was open it is closed, and
    /// whatever closing answers the run ends as was decided.
    pub open spec fn next(self, reply: Reply) -> CommandRunView {
        match self.stage {
            CommandStage::Opening => match reply {
                Reply::Done => CommandRunView { stage: CommandStage::Requesting, ..self },
                _ => CommandRunView {
                    stage: CommandStage::Finished,
                    failure: Some(SshError::ChannelOpen),
                    ..self
                },
            },
            CommandStage::Requesting => match reply {
                Reply::Done => CommandRunView { stage: CommandStage::Reading, ..self },
                _ => CommandRunView {
                    stage: CommandStage::Closing,
                    failure: Some(SshError::Exec),
                    ..self
                },
            },
            CommandStage::Reading => match reply {
                Reply::Data(chunk) => CommandRunView { output: self.output + chunk@, ..self },
                Reply::End => CommandRunView { stage: CommandStage::Closing, ..self },
                _ => CommandRunView {
                    stage: CommandStage::Closing,
                    failure: Some(SshError::Io),
                    ..self
                },
            },
            CommandStage::Closing => CommandRunView { stage: CommandStage::Finished, ..self },
            CommandStage::Finished => self,
        }
    }

    /// The run after a row of answers.
    pub open spec fn run(self, replies: Seq<Reply>) -> CommandRunView
        decreases replies.len(),
    {
        if replies.len() == 0 {
            self
        } else {
            self.next(replies[0]).run(replies.skip(1))
        }
    }

    /// What the run has of its channel from step to step, while it takes
    /// the answers.
    pub open spec fn course(self, replies: Seq<Reply>) -> Seq<Hold>
        decreases replies.len(),
    {
        if replies.len() == 0 {
            seq![self.stage.hold()]
        } else {
            seq![self.stage.hold()] + self.next(replies[0]).course(replies.skip(1))
        }
    }

    /// How the run has ended, if it has: with the error that was decided,
    /// or else with the output as text.
    pub open spec fn outcome(self) -> Option<Result<Seq<char>, SshError>> {
        if self.stage == CommandStage::Finished {
            match self.failure {
                Some(e) => Some(Err(e)),
                None => Some(output_text(self.output)),
            }
        } else {
            None
        }
    }
}

impl CommandRun {
    /// A run of `command`. Nothing is asked yet.
    pub fn begin(command: &str) -> (run: CommandRun)
        ensures
            run@ == CommandRunView::begin(command@),
    {
        CommandRun {
            command: command.to_owned(),
            output: Vec::new(),
            stage: CommandStage::Opening,
            failure: None,
        }
    }

    /// The command line.
    pub fn command(&self) -> (c: &str)
        ensures
            c@ == self@.command,
    {
        self.command.as_str()
    }

    /// Where the run stands.
    pub fn stage(&self) -> (s: CommandStage)
        ensures
            s == self@.stage,
    {
        self.stage
    }

    /// What the driver is to do next.
    pub fn action(&self) -> (a: CommandAction<'_>)
        ensures
            match self@.stage {
                CommandStage::Opening => a == CommandAction::Open,
                CommandStage::Requesting => a matches CommandAction::Exec { command } && command@
                    == self@.command,
                CommandStage::Reading => a == CommandAction::Read,
                CommandStage::Closing => a == CommandAction::Close,
                CommandStage::Finished => a == CommandAction::Finish,
            },
    {
        match self.stage {
            CommandStage::Opening => CommandAction::Open,
            CommandStage::Requesting => CommandAction::Exec { command: self.command.as_str() },
            CommandStage::Reading => CommandAction::Read,
            CommandStage::Closing => CommandAction::Close,
            CommandStage::Finished => CommandAction::Finish,
        }
    }

    /// Takes the answer to the last action.
    pub fn step(&mut self, reply: Reply)
        ensures
            final(self)@ == old(self)@.next(reply),
    {
        match self.stage {
            CommandStage::Opening => match reply {
                Reply::Done => {
                    self.stage = CommandStage::Requesting;
                },
                _ => {
                    self.failure = Some(SshError::ChannelOpen);
                    self.stage = CommandStage::Finished;
                },
            },
            CommandStage::Requesting => match reply {
                Reply::Done => {
                    self.stage = CommandStage::Reading;
                },
                _ => {
                    self.failure = Some(SshError::Exec);
                    self.stage = CommandStage::Closing;
                },
            },
            CommandStage::Reading => match reply {
                Reply::Data(chunk) => {
                    let mut chunk = chunk;
                    self.output.append(&mut chunk);
                },
                Reply::End => {
                    self.stage = CommandStage::Closing;
                },
                _ => {
                    self.failure = Some(SshError::Io);
                    self.stage = CommandStage::Closing;
                },
            },
            CommandStage::Closing => {
                self.stage = CommandStage::Finished;
            },
            CommandStage::Finished => {},
        }
    }

    /// The result of a run that has ended: what the command printed, as
    /// text, or the error. Output that is not text is a read error. A run
    /// that has not ended has no result.
    pub fn finish(self) -> (r: Option<Result<String, SshError>>)
        ensures
            match self@.outcome() {
                None => r is None,
                Some(Ok(text)) => r matches Some(Ok(s)) && s@ == text,
                Some(Err(e)) => r == Some(Err::<String, SshError>(e)),
            },
    {
        match self.stage {
            CommandStage::Finished => match self.failure {
                Some(e) => Some(Err(e)),
                None => Some(text_of_output(self.output)),
            },
            _ => None,
        }
    }
}

/// The output of a command as text.
pub fn text_of_output(bytes: Vec<u8>) -> (r: Result<String, SshError>)
    ensures
        match output_text(bytes@) {
            Ok(text) => r matches Ok(s) && s@ == text,
            Err(e) => r == Err::<String, SshError>(e),
        },
{
    match text_of_bytes(bytes) {
        Some(text) => Ok(text),
        None => Err(SshError::Io),
    }
}

/// A run that goes well gives everything that the command printed, however
/// the stream was cut: once the channel is open and the command taken, a
/// row of reads, the end of the stream and the closing of the channel end
/// the run with the text of all bytes read, in their order.
pub proof fn law_output_is_complete(command: Seq<char>, reads: Seq<Reply>, closing: Reply)
    requires
        all_data(reads),
    ensures
        CommandRunView::begin(command).next(Reply::Done).next(Reply::Done).run(reads).next(
            Reply::End,
        ).next(closing).outcome() == Some(output_text(payload(reads))),
{
    let reading = CommandRunView::begin(command).next(Reply::Done).next(Reply::Done);
    lemma_reads_accumulate(reading, reads);
    assert(reading.output + payload(reads) == payload(reads));
}

proof fn lemma_reads_accumulate(run: CommandRunView, reads: Seq<Reply>)
    requires
        run.stage == CommandStage::Reading,
        all_data(reads),
    ensures
        run.run(reads) == (CommandRunView { output: run.output + payload(reads), ..run }),
    decreases reads.len(),
{
    if reads.len() == 0 {
        assert(run.output + payload(reads) == run.output);
    } else {
        let next = run.next(reads[0]);
        lemma_reads_accumulate(next, reads.skip(1));
        assert(next.output + payload(reads.skip(1)) == run.output + payload(reads));
    }
}

/// A run opens at most one channel, and closes the one that it opened
/// exactly once on whatever path it ends: with the output, on a rejected
/// command, or on a failed read.
pub proof fn law_command_closes_its_channel(command: Seq<char>, replies: Seq<Reply>)
    ensures
        ({
            let course = CommandRunView::begin(command).course(replies);
            &&& orderly(course)
            &&& opens(course) <= 1
            &&& closes(course) <= opens(course)
            &&& CommandRunView::begin(command).run(replies).stage == CommandStage::Finished
                ==> closes(course) == opens(course)
        }),
{
    lemma_command_course(CommandRunView::begin(command), replies);
    law_closed_exactly_once(CommandRunView::begin(command).course(replies));
}

proof fn lemma_command_course(at: CommandRunView, replies: Seq<Reply>)
    ensures
        orderly(at.course(replies)),
        at.course(replies).len() == replies.len() + 1,
        at.course(replies)[0] == at.stage.hold(),
        at.course(replies).last() == at.run(replies).stage.hold(),
    decreases replies.len(),
{
    if replies.len() > 0 {
        let rest = at.next(replies[0]).course(replies.skip(1));
        let course = at.course(replies);
        lemma_command_course(at.next(replies[0]), replies.skip(1));
        assert(course == seq![at.stage.hold()] + rest);
        assert forall|i: int| 0 <= i < course.len() - 1 implies (#[trigger] course[i]).may_lead_to(
            course[i + 1],
        ) by {
            if i == 0 {
                assert(course[1] == rest[0]);
            } else {
                assert(course[i] == rest[i - 1]);
                assert(course[i + 1] == rest[i]);
            }
        }
    }
}

/// No failure is swallowed: once a failure is decided the run ends with it.
pub proof fn law_command_failure_is_kept(run: CommandRunView, replies: Seq<Reply>)
    requires
        run.failure is Some,
        run.stage == CommandStage::Closing || run.stage == CommandStage::Finished,
    ensures
        run.run(replies).failure == run.failure,
        replies.len() > 0 ==> run.run(replies).outcome() == Some(
            Err::<Seq<char>, SshError>(run.failure->0),
        ),
    decreases replies.len(),
{
    if replies.len() > 0 {
        law_command_failure_is_kept(run.next(replies[0]), replies.skip(1));
        if replies.len() == 1 {
            assert(run.next(replies[0]).run(replies.skip(1)) == run.next(replies[0]));
        }
    }
}

} // verus!
