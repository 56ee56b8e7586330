//! Probing for an interactive shell.
//!
//! The probe opens a session channel, asks for a terminal and for a shell,
//! and closes the channel at once. It shows that the remote side would give
//! a shell; it carries no input or output, and is of no use for interactive
//! work.

use crate::channel::{closes, law_closed_exactly_once, opens, orderly, Hold};
use crate::error::SshError;
use crate::reply::Reply;
use vstd::prelude::*;

verus! {

/// Where a probe stands.
#[derive(Clone, Copy, Debug, PartialEq, Eq, Structural)]
pub enum ShellStage {
    /// The channel is to be opened.
    Opening,
    /// The channel is open; a terminal is to be asked for.
    RequestingPty,
    /// The terminal is there; a shell is to be asked for.
    RequestingShell,
    /// The channel is to be closed; how the probe ends is decided.
    Closing,
    /// The probe has ended.
    Finished,
}

impl ShellStage {
    /// What the probe has of its channel at this stage.
    pub open spec fn hold(self) -> Hold {
        match self {
            ShellStage::Opening => Hold::Unopened,
            ShellStage::RequestingPty | ShellStage::RequestingShell => Hold::Open,
            ShellStage::Closing => Hold::Closing,
            ShellStage::Finished => Hold::Ended,
        }
    }
}

/// What the driver is to do next for a probe.
#[derive(Debug)]
pub enum ShellAction {
    /// Open a session channel.
    Open,
    /// Ask for a terminal of this type, in the default size.
    RequestPty { term: &'static str },
    /// Ask for a shell.
    Shell,
    /// Close the channel.
    Close,
    /// The probe has ended, with this result.
    Finish(Result<(), SshError>),
}

/// A probe for a shell, as far as it has come.
#[derive(Clone, Copy, Debug)]
pub struct ShellProbe {
    stage: ShellStage,
    failure: Option<SshError>,
}

/// A `ShellProbe` as plain values.
pub struct ShellProbeView {
    pub stage: ShellStage,
    /// Why the probe fails, once that is decided.
    pub failure: Option<SshError>,
}

impl View for ShellProbe {
    type V = ShellProbeView;

    closed spec fn view(&self) -> ShellProbeView {
        ShellProbeView { stage: self.stage, failure: self.failure }
    }
}

impl ShellProbeView {
    /// A probe that is about to ask for its channel.
    pub open spec fn begin() -> ShellProbeView {
        ShellProbeView { stage: ShellStage::Opening, failure: None }
    }

    /// The probe after the answer to its action. The channel opens or the
    /// probe has failed. Each of the two requests is granted or rejected;
    /// after the second, or after a rejection, the channel is closed, and
    /// whatever closing answers the probe ends as was decided.
    pub open spec fn next(self, reply: Reply) -> ShellProbeView {
        match self.stage {
            ShellStage::Opening => if reply is Done {
                ShellProbeView { stage: ShellStage::RequestingPty, ..self }
            } else {
                ShellProbeView {
                    stage: ShellStage::Finished,
                    failure: Some(SshError::ChannelOpen),
                }
            },
            ShellStage::RequestingPty => if reply is Done {
                ShellProbeView { stage: ShellStage::RequestingShell, ..self }
            } else {
                ShellProbeView { stage: ShellStage::Closing, failure: Some(SshError::Exec) }
            },
            ShellStage::RequestingShell => if reply is Done {
                ShellProbeView { stage: ShellStage::Closing, ..self }
            } else {
                ShellProbeView { stage: ShellStage::Closing, failure: Some(SshError::Exec) }
            },
            ShellStage::Closing => ShellProbeView { stage: ShellStage::Finished, ..self },
            ShellStage::Finished => self,
        }
    }

    /// The probe after a row of answers.
    pub open spec fn run(self, replies: Seq<Reply>) -> ShellProbeView
        decreases replies.len(),
    {
        if replies.len() == 0 {
            self
        } else {
            self.next(replies[0]).run(replies.skip(1))
        }
    }

    /// What the probe has of its channel from step to step, while it takes
    /// the answers.
    pub open spec fn course(self, replies: Seq<Reply>) -> Seq<Hold>
        decreases replies.len(),
    {
        if replies.len() == 0 {
            seq![self.stage.hold()]
        } else {
            seq![self.stage.hold()] + self.next(replies[0]).course(replies.skip(1))
        }
    }

    /// How the probe has ended, if it has.
    pub open spec fn outcome(self) -> Option<Result<(), SshError>> {
        if self.stage == ShellStage::Finished {
            match self.failure {
                Some(e) => Some(Err(e)),
                None => Some(Ok(())),
            }
        } else {
            None
        }
    }
}

impl ShellProbe {
    /// A probe. Nothing is asked yet.
    pub fn begin() -> (probe: ShellProbe)
        ensures
            probe@ == ShellProbeView::begin(),
    {
        ShellProbe { stage: ShellStage::Opening, failure: None }
    }

    /// Where the probe stands.
    pub fn stage(&self) -> (s: ShellStage)
        ensures
            s == self@.stage,
    {
        self.stage
    }

    /// What the driver is to do next. The terminal asked for is an `xterm`.
    pub fn action(&self) -> (a: ShellAction)
        ensures
            match self@.stage {
                ShellStage::Opening => a == ShellAction::Open,
                ShellStage::RequestingPty => a matches ShellAction::RequestPty { term } && term@
                    == "xterm"@,
                ShellStage::RequestingShell => a == ShellAction::Shell,
                ShellStage::Closing => a == ShellAction::Close,
                ShellStage::Finished => a matches ShellAction::Finish(r) && Some(r)
                    == self@.outcome(),
            },
    {
        match self.stage {
            ShellStage::Opening => ShellAction::Open,
            ShellStage::RequestingPty => ShellAction::RequestPty { term: "xterm" },
            ShellStage::RequestingShell => ShellAction::Shell,
            ShellStage::Closing => ShellAction::Close,
            ShellStage::Finished => match self.failure {
                Some(e) => ShellAction::Finish(Err(e)),
                None => ShellAction::Finish(Ok(())),
            },
        }
    }

    /// Takes the answer to the last action.
    pub fn step(&mut self, reply: Reply)
        ensures
            final(self)@ == old(self)@.next(reply),
    {
        let done = match reply {
            Reply::Done => true,
            _ => false,
        };
        match self.stage {
            ShellStage::Opening => {
                if done {
                    self.stage = ShellStage::RequestingPty;
                } else {
                    self.failure = Some(SshError::ChannelOpen);
                    self.stage = ShellStage::Finished;
                }
            },
            ShellStage::RequestingPty => {
                if done {
                    self.stage = ShellStage::RequestingShell;
                } else {
                    self.failure = Some(SshError::Exec);
                    self.stage = ShellStage::Closing;
                }
            },
            ShellStage::RequestingShell => {
                if !done {
                    self.failure = Some(SshError::Exec);
                }
                self.stage = ShellStage::Closing;
            },
            ShellStage::Closing => {
                self.stage = ShellStage::Finished;
            },
            ShellStage::Finished => {},
        }
    }
}

/// A probe ends well exactly when the channel opened and both requests were
/// granted; the channel is then closed, and what closing answers does not
/// count.
pub proof fn law_probe_succeeds(opened: Reply, pty: Reply, shell: Reply, closing: Reply)
    ensures
        ({
            let end = ShellProbeView::begin().next(opened).next(pty).next(shell).next(closing);
            end.outcome() == Some(Ok::<(), SshError>(())) <==> opened is Done && pty is Done
                && shell is Done
        }),
{
}

/// A probe opens at most one channel, and closes the one that it opened
/// exactly once on whatever path it ends.
pub proof fn law_shell_closes_its_channel(replies: Seq<Reply>)
    ensures
        ({
            let course = ShellProbeView::begin().course(replies);
            &&& orderly(course)
            &&& opens(course) <= 1
            &&& closes(course) <= opens(course)
            &&& ShellProbeView::begin().run(replies).stage == ShellStage::Finished ==> closes(
                course,
            ) == opens(course)
        }),
{
    lemma_shell_course(ShellProbeView::begin(), replies);
    law_closed_exactly_once(ShellProbeView::begin().course(replies));
}

proof fn lemma_shell_course(at: ShellProbeView, replies: Seq<Reply>)
    ensures
        orderly(at.course(replies)),
        at.course(replies).len() == replies.len() + 1,
        at.course(replies)[0] == at.stage.hold(),
        at.course(replies).last() == at.run(replies).stage.hold(),
    decreases replies.len(),
{
    if replies.len() > 0 {
        let rest = at.next(replies[0]).course(replies.skip(1));
        let course = at.course(replies);
        lemma_shell_course(at.next(replies[0]), replies.skip(1));
        assert(course == seq![at.stage.hold()] + rest);
        assert forall|i: int| 0 <= i < course.len() - 1 implies (#[trigger] course[i]).may_lead_to(
            course[i + 1],
        ) by {
            if i == 0 {
                assert(course[1] == rest[0]);
            } else {
                assert(course[i] == rest[i - 1]);
                assert(course[i + 1] == rest[i]);
            }
        }
    }
}

} // verus!
