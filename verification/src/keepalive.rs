//! Keepalive: how often the transport probes an idle connection, and one
//! probe at once to see that the connection lives.
//!
//! An interval of zero seconds switches keepalive off. Nothing is probed
//! then, at once or later, and setting it so succeeds.

use crate::error::SshError;
use crate::reply::Reply;
use vstd::prelude::*;

verus! {

/// Where the setting of keepalive stands.
#[derive(Clone, Copy, Debug, PartialEq, Eq, Structural)]
pub enum KeepaliveStage {
    /// The transport is set; the one probe is to be sent.
    Probing,
    /// Done.
    Finished,
}

/// What the driver is to do next.
#[derive(Clone, Copy, Debug, PartialEq, Eq)]
pub enum KeepaliveAction {
    /// Send one keepalive probe now.
    Probe,
    /// The setting has ended, with this result.
    Finish(Result<(), SshError>),
}

/// A setting of keepalive, as far as it has come.
#[derive(Clone, Copy, Debug)]
pub struct Keepalive {
    want_reply: bool,
    interval: u32,
    stage: KeepaliveStage,
    failure: Option<SshError>,
}

/// A `Keepalive` as plain values.
pub struct KeepaliveView {
    /// Whether a probe asks the remote side to answer it.
    pub want_reply: bool,
    /// After how many seconds without traffic a probe is sent; zero for
    /// never.
    pub interval: u32,
    pub stage: KeepaliveStage,
    /// Why the setting fails, once that is decided.
    pub failure: Option<SshError>,
}

impl View for Keepalive {
    type V = KeepaliveView;

    closed spec fn view(&self) -> KeepaliveView {
        KeepaliveView {
            want_reply: self.want_reply,
            interval: self.interval,
            stage: self.stage,
            failure: self.failure,
        }
    }
}

impl KeepaliveView {
    /// A setting whose values the transport has taken. With an interval of
    /// zero keepalive is off and there is nothing left to do; with any other
    /// the one probe is due.
    pub open spec fn begin(want_reply: bool, interval: u32) -> KeepaliveView {
        KeepaliveView {
            want_reply,
            interval,
            stage: if interval == 0 {
                KeepaliveStage::Finished
            } else {
                KeepaliveStage::Probing
            },
            failure: None,
        }
    }

    /// Whether keepalive is on.
    pub open spec fn enabled(self) -> bool {
        self.interval > 0
    }

    /// The setting after the answer to its action: the probe was sent, or
    /// the transport has failed.
    pub open spec fn next(self, reply: Reply) -> KeepaliveView {
        match self.stage {
            KeepaliveStage::Probing => if reply is Done {
                KeepaliveView { stage: KeepaliveStage::Finished, ..self }
            } else {
                KeepaliveView {
                    stage: KeepaliveStage::Finished,
                    failure: Some(SshError::Transport),
                    ..self
                }
            },
            KeepaliveStage::Finished => self,
        }
    }

    /// How the setting has ended, if it has.
    pub open spec fn outcome(self) -> Option<Result<(), SshError>> {
        match self.stage {
            KeepaliveStage::Probing => None,
            KeepaliveStage::Finished => match self.failure {
                Some(e) => Some(Err(e)),
                None => Some(Ok(())),
            },
        }
    }
}

impl Keepalive {
    /// A setting whose values the transport has taken.
    pub fn begin(want_reply: bool, interval: u32) -> (k: Keepalive)
        ensures
            k@ == KeepaliveView::begin(want_reply, interval),
    {
        Keepalive {
            want_reply,
            interval,
            stage: if interval == 0 {
                KeepaliveStage::Finished
            } else {
                KeepaliveStage::Probing
            },
            failure: None,
        }
    }

    /// Where the setting stands.
    pub fn stage(&self) -> (s: KeepaliveStage)
        ensures
            s == self@.stage,
    {
        self.stage
    }

    /// Whether a probe asks the remote side to answer it.
    pub fn want_reply(&self) -> (b: bool)
        ensures
            b == self@.want_reply,
    {
        self.want_reply
    }

    /// After how many seconds without traffic a probe is sent.
    pub fn interval(&self) -> (n: u32)
        ensures
            n == self@.interval,
    {
        self.interval
    }

    /// Whether keepalive is on.
    pub fn enabled(&self) -> (b: bool)
        ensures
            b == self@.enabled(),
    {
        self.interval > 0
    }

    /// What the driver is to do next.
    pub fn action(&self) -> (a: KeepaliveAction)
        ensures
            match self@.outcome() {
                None => a == KeepaliveAction::Probe,
                Some(r) => a == KeepaliveAction::Finish(r),
            },
    {
        match self.stage {
            KeepaliveStage::Probing => KeepaliveAction::Probe,
            KeepaliveStage::Finished => match self.failure {
                Some(e) => KeepaliveAction::Finish(Err(e)),
                None => KeepaliveAction::Finish(Ok(())),
            },
        }
    }

    /// Takes the answer to the last action.
    pub fn step(&mut self, reply: Reply)
        ensures
            final(self)@ == old(self)@.next(reply),
    {
        match self.stage {
            KeepaliveStage::Probing => {
                match reply {
                    Reply::Done => {},
                    _ => {
                        self.failure = Some(SshError::Transport);
                    },
                }
                self.stage = KeepaliveStage::Finished;
            },
            KeepaliveStage::Finished => {},
        }
    }
}

/// An interval of zero switches keepalive off: the setting has ended well as
/// it begins, and no probe is asked for.
pub proof fn law_zero_interval_disables(want_reply: bool)
    ensures
        !KeepaliveView::begin(want_reply, 0).enabled(),
        KeepaliveView::begin(want_reply, 0).outcome() == Some(Ok::<(), SshError>(())),
{
}

/// With any other interval one probe is sent, and the setting ends well
/// exactly when the transport could send it; if it could not, that is a
/// transport error.
pub proof fn law_probe_decides(want_reply: bool, interval: u32, reply: Reply)
    requires
        interval > 0,
    ensures
        KeepaliveView::begin(want_reply, interval).outcome() is None,
        KeepaliveView::begin(want_reply, interval).next(reply).outcome() == Some(
            if reply is Done {
                Ok::<(), SshError>(())
            } else {
                Err::<(), SshError>(SshError::Transport)
            },
        ),
{
}

} // verus!
