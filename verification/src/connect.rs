//! One attempt to connect and authenticate.
//!
//! The steps come in a fixed order: open the socket, negotiate the protocol,
//! authenticate, and hand the transport to the session. The first step that
//! fails ends the attempt, and names the error.

use crate::error::SshError;
use crate::reply::Reply;
use vstd::prelude::*;

verus! {

/// How the user proves who they are.
pub enum AuthMethod {
    /// By a password.
    Password { username: String, password: String },
    /// By a key that a running agent holds.
    Agent { username: String },
}

/// An `AuthMethod` with its texts as sequences.
pub enum AuthMethodView {
    Password { username: Seq<char>, password: Seq<char> },
    Agent { username: Seq<char> },
}

impl View for AuthMethod {
    type V = AuthMethodView;

    open spec fn view(&self) -> AuthMethodView {
        match self {
            AuthMethod::Password { username, password } => AuthMethodView::Password {
                username: username@,
                password: password@,
            },
            AuthMethod::Agent { username } => AuthMethodView::Agent { username: username@ },
        }
    }
}

/// The step that an attempt is at.
#[derive(Clone, Copy, Debug, PartialEq, Eq, Structural)]
pub enum ConnectStage {
    /// The socket is to be opened.
    Socket,
    /// The protocol is to be negotiated.
    Handshake,
    /// The user is to be authenticated.
    Authenticate,
    /// The three steps are through; the session is to take the transport.
    Verify,
}

impl ConnectStage {
    /// The error that a failure of this step is.
    pub open spec fn failure(self) -> SshError {
        match self {
            ConnectStage::Socket => SshError::Socket,
            ConnectStage::Handshake => SshError::Handshake,
            ConnectStage::Authenticate => SshError::Auth,
            ConnectStage::Verify => SshError::Auth,
        }
    }

    /// The step that follows this one.
    pub open spec fn following(self) -> ConnectStage {
        match self {
            ConnectStage::Socket => ConnectStage::Handshake,
            ConnectStage::Handshake => ConnectStage::Authenticate,
            ConnectStage::Authenticate => ConnectStage::Verify,
            ConnectStage::Verify => ConnectStage::Verify,
        }
    }

    /// The error that a failure of this step is.
    pub fn error(&self) -> (e: SshError)
        ensures
            e == self.failure(),
    {
        match self {
            ConnectStage::Socket => SshError::Socket,
            ConnectStage::Handshake => SshError::Handshake,
            ConnectStage::Authenticate => SshError::Auth,
            ConnectStage::Verify => SshError::Auth,
        }
    }
}

/// What the driver is to do next for an attempt.
pub enum ConnectAction<'a> {
    /// Open a TCP connection to this host and port.
    OpenSocket { host: &'a str, port: u16 },
    /// Negotiate the protocol on the connection.
    Handshake,
    /// Authenticate with this password.
    Password { username: &'a str, password: &'a str },
    /// Authenticate through the agent.
    Agent { username: &'a str },
    /// Hand the transport to the session.
    Adopt,
    /// Give up: the attempt has failed with this error.
    Fail(SshError),
}

/// An attempt to connect, as far as it has come.
pub struct Connect {
    host: String,
    port: u16,
    method: AuthMethod,
    stage: ConnectStage,
    halted: bool,
}

/// A `Connect` as plain values.
pub struct ConnectView {
    pub host: Seq<char>,
    pub port: u16,
    pub method: AuthMethodView,
    /// The step that the attempt is at, or has failed at.
    pub stage: ConnectStage,
    /// Whether the step has failed.
    pub halted: bool,
}

impl View for Connect {
    type V = ConnectView;

    closed spec fn view(&self) -> ConnectView {
        ConnectView {
            host: self.host@,
            port: self.port,
            method: self.method@,
            stage: self.stage,
            halted: self.halted,
        }
    }
}

impl ConnectView {
    /// A fresh attempt.
    pub open spec fn begin(host: Seq<char>, port: u16, method: AuthMethodView) -> ConnectView {
        ConnectView { host, port, method, stage: ConnectStage::Socket, halted: false }
    }

    /// The attempt after the answer to its action. A step that is done leads
    /// to the next one; any other answer ends the attempt at that step. An
    /// attempt that has ended, or that waits for the session to take the
    /// transport, stays as it is.
    pub open spec fn next(self, reply: Reply) -> ConnectView {
        if self.halted || self.stage == ConnectStage::Verify {
            self
        } else if reply is Done {
            ConnectView { stage: self.stage.following(), ..self }
        } else {
            ConnectView { halted: true, ..self }
        }
    }

    /// The attempt after a row of answers.
    pub open spec fn run(self, replies: Seq<Reply>) -> ConnectView
        decreases replies.len(),
    {
        if replies.len() == 0 {
            self
        } else {
            self.next(replies[0]).run(replies.skip(1))
        }
    }

    /// How the attempt ends when the transport says `authenticated` of
    /// itself: well if all three steps were done and the transport is
    /// authenticated, and else with the error of the first step that was not
    /// done. A transport that is not authenticated after all is an
    /// authentication failure.
    pub open spec fn verdict(self, authenticated: bool) -> Result<(), SshError> {
        if !self.halted && self.stage == ConnectStage::Verify && authenticated {
            Ok(())
        } else {
            Err(self.stage.failure())
        }
    }
}

impl Connect {
    /// A fresh attempt to reach `host` at `port` as the user of `method`.
    pub fn begin(host: &str, port: u16, method: AuthMethod) -> (attempt: Connect)
        ensures
            attempt@ == ConnectView::begin(host@, port, method@),
    {
        Connect { host: host.to_owned(), port, method, stage: ConnectStage::Socket, halted: false }
    }

    /// The host that the attempt is for.
    pub fn host(&self) -> (h: &str)
        ensures
            h@ == self@.host,
    {
        self.host.as_str()
    }

    /// The port that the attempt is for.
    pub fn port(&self) -> (p: u16)
        ensures
            p == self@.port,
    {
        self.port
    }

    /// The step that the attempt is at, or has failed at.
    pub fn stage(&self) -> (s: ConnectStage)
        ensures
            s == self@.stage,
    {
        self.stage
    }

    /// Whether the attempt has failed.
    pub fn failed(&self) -> (b: bool)
        ensures
            b == self@.halted,
    {
        self.halted
    }

    /// What the driver is to do next.
    pub fn action(&self) -> (a: ConnectAction<'_>)
        ensures
            self@.halted ==> a == ConnectAction::Fail(self@.stage.failure()),
            !self@.halted ==> match self@.stage {
                ConnectStage::Socket => a matches ConnectAction::OpenSocket { host, port }
                    && host@ == self@.host && port == self@.port,
                ConnectStage::Handshake => a == ConnectAction::Handshake,
                ConnectStage::Authenticate => match self@.method {
                    AuthMethodView::Password { username: u, password: p } => a matches ConnectAction::Password {
                        username,
                        password,
                    } && username@ == u && password@ == p,
                    AuthMethodView::Agent { username: u } => a matches ConnectAction::Agent {
                        username,
                    } && username@ == u,
                },
                ConnectStage::Verify => a == ConnectAction::Adopt,
            },
    {
        if self.halted {
            return ConnectAction::Fail(self.stage.error());
        }
        match self.stage {
            ConnectStage::Socket => ConnectAction::OpenSocket {
                host: self.host.as_str(),
                port: self.port,
            },
            ConnectStage::Handshake => ConnectAction::Handshake,
            ConnectStage::Authenticate => match &self.method {
                AuthMethod::Password { username, password } => ConnectAction::Password {
                    username: username.as_str(),
                    password: password.as_str(),
                },
                AuthMethod::Agent { username } => ConnectAction::Agent {
                    username: username.as_str(),
                },
            },
            ConnectStage::Verify => ConnectAction::Adopt,
        }
    }

    /// Takes the answer to the last action.
    pub fn step(&mut self, reply: Reply)
        ensures
            final(self)@ == old(self)@.next(reply),
    {
        if self.halted {
            return ;
        }
        match self.stage {
            ConnectStage::Verify => {},
            _ => match reply {
                Reply::Done => {
                    self.stage = match self.stage {
                        ConnectStage::Socket => ConnectStage::Handshake,
                        ConnectStage::Handshake => ConnectStage::Authenticate,
                        _ => ConnectStage::Verify,
                    };
                },
                _ => {
                    self.halted = true;
                },
            },
        }
    }

    /// How the attempt ends when the transport says `authenticated` of
    /// itself.
    pub fn verdict(&self, authenticated: bool) -> (r: Result<(), SshError>)
        ensures
            r == self@.verdict(authenticated),
    {
        if !self.halted && self.stage == ConnectStage::Verify && authenticated {
            Ok(())
        } else {
            Err(self.stage.error())
        }
    }
}

/// The first step that fails decides: whatever is answered after it, and
/// whatever the transport says of itself, the attempt ends with the error of
/// that step.
pub proof fn law_first_failure_decides(
    attempt: ConnectView,
    reply: Reply,
    rest: Seq<Reply>,
    authenticated: bool,
)
    requires
        !attempt.halted,
        attempt.stage != ConnectStage::Verify,
        !(reply is Done),
    ensures
        attempt.next(reply).run(rest).verdict(authenticated) == Err::<(), SshError>(
            attempt.stage.failure(),
        ),
{
    lemma_halted_stays(attempt.next(reply), rest);
}

/// A host that cannot be reached: when opening the socket fails, the attempt
/// ends with a socket error.
pub proof fn law_unreachable_host(
    host: Seq<char>,
    port: u16,
    method: AuthMethodView,
    reply: Reply,
    rest: Seq<Reply>,
    authenticated: bool,
)
    requires
        !(reply is Done),
    ensures
        ConnectView::begin(host, port, method).next(reply).run(rest).verdict(authenticated) == Err::<
            (),
            SshError,
        >(SshError::Socket),
{
    law_first_failure_decides(ConnectView::begin(host, port, method), reply, rest, authenticated);
}

/// An attempt ends well only if the socket, the handshake and the
/// authentication were done, in that order, and the transport then says that
/// it is authenticated; and then it does end well.
pub proof fn law_success_needs_every_step(
    host: Seq<char>,
    port: u16,
    method: AuthMethodView,
    replies: Seq<Reply>,
    authenticated: bool,
)
    ensures
        ConnectView::begin(host, port, method).run(replies).verdict(authenticated) is Ok <==> (
        authenticated && replies.len() >= 3 && replies[0] is Done && replies[1] is Done
            && replies[2] is Done),
{
    let a0 = ConnectView::begin(host, port, method);
    if replies.len() > 0 {
        let a1 = a0.next(replies[0]);
        let r1 = replies.skip(1);
        assert(a0.run(replies) == a1.run(r1));
        if !(replies[0] is Done) {
            lemma_halted_stays(a1, r1);
        } else if r1.len() > 0 {
            let a2 = a1.next(r1[0]);
            let r2 = r1.skip(1);
            assert(r1[0] == replies[1]);
            assert(a1.run(r1) == a2.run(r2));
            if !(r1[0] is Done) {
                lemma_halted_stays(a2, r2);
            } else if r2.len() > 0 {
                let a3 = a2.next(r2[0]);
                let r3 = r2.skip(1);
                assert(r2[0] == replies[2]);
                assert(a2.run(r2) == a3.run(r3));
                if !(r2[0] is Done) {
                    lemma_halted_stays(a3, r3);
                } else {
                    lemma_verify_stays(a3, r3);
                }
            }
        }
    }
}

/// Connecting fails only with a socket, handshake or authentication error.
pub proof fn law_failure_is_of_connecting(attempt: ConnectView, authenticated: bool)
    ensures
        attempt.verdict(authenticated) matches Err(e) ==> e.is_connect_failure(),
{
}

/// An attempt that has failed stays as it is.
proof fn lemma_halted_stays(attempt: ConnectView, replies: Seq<Reply>)
    requires
        attempt.halted,
    ensures
        attempt.run(replies) == attempt,
    decreases replies.len(),
{
    if replies.len() > 0 {
        lemma_halted_stays(attempt, replies.skip(1));
    }
}

/// An attempt that waits for the session stays as it is.
proof fn lemma_verify_stays(attempt: ConnectView, replies: Seq<Reply>)
    requires
        attempt.stage == ConnectStage::Verify,
    ensures
        attempt.run(replies) == attempt,
    decreases replies.len(),
{
    if replies.len() > 0 {
        lemma_verify_stays(attempt, replies.skip(1));
    }
}

} // verus!
