//! The session: the host it is for and, once authenticated, its transport.

use crate::agent::{AgentQuery, AgentQueryView};
use crate::command::{CommandRun, CommandRunView};
use crate::connect::{AuthMethod, AuthMethodView, Connect, ConnectView};
use crate::engine::{transport_authenticated, transport_set_keepalive};
use crate::error::SshError;
use crate::keepalive::{Keepalive, KeepaliveView};
use crate::reply::Reply;
use crate::shell::{ShellProbe, ShellProbeView};
use crate::transfer::{Download, DownloadView, Upload, UploadView};
use vstd::prelude::*;

verus! {

/// One logical connection to a remote host.
///
/// A session is made for a host and a port without any I/O. It holds no
/// transport until an attempt to connect has ended well; from then on it
/// holds one for as long as it lives. Dropping the session drops the
/// transport, which closes the connection.
pub struct SSH {
    session: Option<ssh2::Session>,
    host: String,
    port: u16,
}

impl SSH {
    /// The host that the session is for.
    pub closed spec fn host_text(&self) -> Seq<char> {
        self.host@
    }

    /// The port that the session is for.
    pub closed spec fn port_number(&self) -> u16 {
        self.port
    }

    /// Whether the session holds an authenticated transport.
    pub closed spec fn is_authed(&self) -> bool {
        self.session is Some
    }

    /// The transport that the session holds.
    pub closed spec fn held_transport(&self) -> Option<ssh2::Session> {
        self.session
    }

    /// A session for `host` and `port`. Nothing is connected yet.
    pub fn new(host: &str, port: u16) -> (ssh: SSH)
        ensures
            ssh.host_text() == host@,
            ssh.port_number() == port,
            !ssh.is_authed(),
    {
        SSH { session: None, host: host.to_owned(), port }
    }

    /// The host that the session is for.
    pub fn host(&self) -> (h: &str)
        ensures
            h@ == self.host_text(),
    {
        self.host.as_str()
    }

    /// The port that the session is for.
    pub fn port(&self) -> (p: u16)
        ensures
            p == self.port_number(),
    {
        self.port
    }

    /// Whether the session holds an authenticated transport. The answer is
    /// read off the session itself: nothing is sent, nothing blocks, and the
    /// same session gives the same answer.
    pub fn authed(&self) -> (b: bool)
        ensures
            b == self.is_authed(),
    {
        self.session.is_some()
    }

    /// The transport, for a channel to be opened on it. A session that is not
    /// authenticated has none to give.
    pub fn transport(&self) -> (r: Result<&ssh2::Session, SshError>)
        ensures
            self.is_authed() ==> r is Ok && self.held_transport() == Some(*r->Ok_0),
            !self.is_authed() ==> r == Err::<&ssh2::Session, SshError>(SshError::NotAuthenticated),
    {
        match &self.session {
            Some(transport) => Ok(transport),
            None => Err(SshError::NotAuthenticated),
        }
    }

    /// The session after an attempt to connect has been settled: it holds
    /// `transport` if the attempt ended well, and is as it was if not.
    pub closed spec fn settled(
        self,
        attempt: ConnectView,
        transport: ssh2::Session,
        authenticated: bool,
    ) -> SSH {
        if attempt.verdict(authenticated) is Ok {
            SSH { session: Some(transport), ..self }
        } else {
            self
        }
    }

    /// Begins an attempt to connect to the session's host and to authenticate
    /// as `username` with the password `pass`. The session itself changes
    /// only when the attempt is settled.
    pub fn connect(&mut self, username: &str, pass: &str) -> (attempt: Connect)
        ensures
            *final(self) == *old(self),
            attempt@ == ConnectView::begin(
                old(self).host_text(),
                old(self).port_number(),
                AuthMethodView::Password { username: username@, password: pass@ },
            ),
    {
        Connect::begin(
            self.host.as_str(),
            self.port,
            AuthMethod::Password { username: username.to_owned(), password: pass.to_owned() },
        )
    }

    /// Begins an attempt to connect to the session's host and to authenticate
    /// as `username` with a key that a running agent holds.
    pub fn connect_agent(&mut self, username: &str) -> (attempt: Connect)
        ensures
            *final(self) == *old(self),
            attempt@ == ConnectView::begin(
                old(self).host_text(),
                old(self).port_number(),
                AuthMethodView::Agent { username: username@ },
            ),
    {
        Connect::begin(
            self.host.as_str(),
            self.port,
            AuthMethod::Agent { username: username.to_owned() },
        )
    }

    /// Settles an attempt, given what the transport says of itself. If the
    /// attempt ends well the session holds `transport` from now on; if not,
    /// the transport is dropped, the session is as it was, and the error is
    /// that of the attempt.
    pub fn settle(&mut self, attempt: &Connect, transport: ssh2::Session, authenticated: bool) -> (r:
        Result<(), SshError>)
        ensures
            r == attempt@.verdict(authenticated),
            *final(self) == old(self).settled(attempt@, transport, authenticated),
            final(self).host_text() == old(self).host_text(),
            final(self).port_number() == old(self).port_number(),
            r is Ok ==> final(self).is_authed() && final(self).held_transport() == Some(transport),
            r is Err ==> *final(self) == *old(self),
    {
        let r = attempt.verdict(authenticated);
        if r.is_ok() {
            self.session = Some(transport);
        }
        r
    }

    /// Settles an attempt with a transport on which the three steps were
    /// made: asks the transport whether it is authenticated, and goes by the
    /// answer. An attempt that did not come through its steps fails with its
    /// own error whatever the transport says; one that did fails only if the
    /// transport is not authenticated after all.
    pub fn adopt(&mut self, attempt: &Connect, transport: ssh2::Session) -> (r: Result<
        (),
        SshError,
    >)
        ensures
            attempt@.verdict(true) is Err ==> r is Err,
            r is Err ==> r == attempt@.verdict(false) && *final(self) == *old(self),
            r is Ok ==> *final(self) == old(self).settled(attempt@, transport, true)
                && final(self).is_authed() && final(self).held_transport() == Some(transport),
            final(self).host_text() == old(self).host_text(),
            final(self).port_number() == old(self).port_number(),
    {
        let authenticated = transport_authenticated(&transport);
        self.settle(attempt, transport, authenticated)
    }

    /// Sets keepalive on the transport: a probe after every `interval`
    /// seconds without traffic, asking for an answer if `reply` is set; an
    /// interval of zero switches keepalive off. What is left to do is the
    /// one probe that shows the connection to live, unless keepalive is off.
    /// A session that is not authenticated has no transport to set: nothing
    /// is set and nothing is left to do.
    pub fn keepalive(&mut self, reply: bool, interval: u32) -> (r: Result<Keepalive, SshError>)
        ensures
            *final(self) == *old(self),
            match r {
                Ok(k) => old(self).is_authed() && k@ == KeepaliveView::begin(reply, interval),
                Err(e) => !old(self).is_authed() && e == SshError::NotAuthenticated,
            },
    {
        match &self.session {
            Some(transport) => {
                transport_set_keepalive(transport, reply, interval);
                Ok(Keepalive::begin(reply, interval))
            },
            None => Err(SshError::NotAuthenticated),
        }
    }

    /// Begins a probe for an interactive shell. A session that is not
    /// authenticated begins none.
    pub fn get_shell(&self) -> (r: Result<ShellProbe, SshError>)
        ensures
            match r {
                Ok(probe) => self.is_authed() && probe@ == ShellProbeView::begin(),
                Err(e) => !self.is_authed() && e == SshError::NotAuthenticated,
            },
    {
        if self.authed() {
            Ok(ShellProbe::begin())
        } else {
            Err(SshError::NotAuthenticated)
        }
    }

    /// Begins a run of `cmd` on the remote side. A session that is not
    /// authenticated begins none.
    pub fn run_command(&self, cmd: &str) -> (r: Result<CommandRun, SshError>)
        ensures
            match r {
                Ok(run) => self.is_authed() && run@ == CommandRunView::begin(cmd@),
                Err(e) => !self.is_authed() && e == SshError::NotAuthenticated,
            },
    {
        if self.authed() {
            Ok(CommandRun::begin(cmd))
        } else {
            Err(SshError::NotAuthenticated)
        }
    }

    /// Begins an upload of the local file at `fpath` to `dest` on the remote
    /// side. A session that is not authenticated begins none, and the local
    /// file is not touched.
    pub fn upload_file(&self, fpath: &str, dest: &str) -> (r: Result<Upload, SshError>)
        ensures
            match r {
                Ok(up) => self.is_authed() && up@ == UploadView::begin(fpath@, dest@),
                Err(e) => !self.is_authed() && e == SshError::NotAuthenticated,
            },
    {
        if self.authed() {
            Ok(Upload::begin(fpath, dest))
        } else {
            Err(SshError::NotAuthenticated)
        }
    }

    /// Begins a download of the file at `fpath` on the remote side. A
    /// session that is not authenticated begins none.
    pub fn get_file(&self, fpath: &str) -> (r: Result<Download, SshError>)
        ensures
            match r {
                Ok(down) => self.is_authed() && down@ == DownloadView::begin(fpath@),
                Err(e) => !self.is_authed() && e == SshError::NotAuthenticated,
            },
    {
        if self.authed() {
            Ok(Download::begin(fpath))
        } else {
            Err(SshError::NotAuthenticated)
        }
    }

    /// Begins a query for the identities that a running agent holds. The
    /// query needs no session.
    pub fn identities() -> (query: AgentQuery)
        ensures
            query@ == AgentQueryView::begin(),
    {
        AgentQuery::begin()
    }
}

/// An attempt that fails leaves the session as it was: one that was not
/// authenticated is not authenticated afterwards.
pub proof fn law_failed_attempt_changes_nothing(
    ssh: SSH,
    attempt: ConnectView,
    transport: ssh2::Session,
    authenticated: bool,
)
    requires
        attempt.verdict(authenticated) is Err,
    ensures
        ssh.settled(attempt, transport, authenticated) == ssh,
        ssh.settled(attempt, transport, authenticated).is_authed() == ssh.is_authed(),
{
}

/// A session never goes back: one that is authenticated is so after any
/// attempt, whether that ends well or not.
pub proof fn law_authenticated_stays(
    ssh: SSH,
    attempt: ConnectView,
    transport: ssh2::Session,
    authenticated: bool,
)
    requires
        ssh.is_authed(),
    ensures
        ssh.settled(attempt, transport, authenticated).is_authed(),
{
}

/// A host that cannot be reached: the attempt of a session whose socket
/// could not be opened ends with a socket error, whatever follows, and the
/// session is as it was.
pub proof fn law_unreachable_host_leaves_session(
    ssh: SSH,
    method: AuthMethodView,
    reply: Reply,
    rest: Seq<Reply>,
    transport: ssh2::Session,
    authenticated: bool,
)
    requires
        !(reply is Done),
    ensures
        ({
            let attempt = ConnectView::begin(ssh.host_text(), ssh.port_number(), method).next(
                reply,
            ).run(rest);
            &&& attempt.verdict(authenticated) == Err::<(), SshError>(SshError::Socket)
            &&& ssh.settled(attempt, transport, authenticated) == ssh
        }),
{
    crate::connect::law_unreachable_host(
        ssh.host_text(),
        ssh.port_number(),
        method,
        reply,
        rest,
        authenticated,
    );
}

} // verus!
