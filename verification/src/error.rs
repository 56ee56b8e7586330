//! The kinds of failure that a caller can tell apart.

use vstd::prelude::*;

verus! {

/// Why an operation failed. Each kind names the step that went wrong, so that
/// a caller can decide between retrying, reconnecting and giving up.
#[derive(Clone, Copy, Debug, PartialEq, Eq, Structural)]
pub enum SshError {
    /// The TCP connection to the host could not be made.
    Socket,
    /// The protocol negotiation failed on an established connection.
    Handshake,
    /// The credentials were rejected, the agent had no usable identity, or
    /// the transport did not report itself authenticated afterwards.
    Auth,
    /// A channel operation was asked of a session that holds no
    /// authenticated transport.
    NotAuthenticated,
    /// The remote side refused to open the channel.
    ChannelOpen,
    /// The remote side rejected a request made on an open channel.
    Exec,
    /// Reading a command's output failed, or the output was not text.
    Io,
    /// A file transfer stopped before all bytes were through.
    Transfer,
    /// The local file could not be read.
    LocalIo,
    /// The transport could not send a keepalive probe.
    Transport,
    /// No agent could be reached.
    AgentUnavailable,
    /// The agent answered, but not with a usable list of identities.
    AgentProtocol,
}

impl SshError {
    /// The text of `message`.
    pub open spec fn text(self) -> Seq<char> {
        match self {
            SshError::Socket => "could not connect to the host"@,
            SshError::Handshake => "the protocol handshake failed"@,
            SshError::Auth => "authentication failed"@,
            SshError::NotAuthenticated => "the session is not authenticated"@,
            SshError::ChannelOpen => "the channel could not be opened"@,
            SshError::Exec => "the remote side rejected the request"@,
            SshError::Io => "reading the output failed"@,
            SshError::Transfer => "the transfer did not complete"@,
            SshError::LocalIo => "the local file could not be read"@,
            SshError::Transport => "the keepalive probe could not be sent"@,
            SshError::AgentUnavailable => "no agent could be reached"@,
            SshError::AgentProtocol => "the agent gave no usable answer"@,
        }
    }

    /// Whether this is one of the three failures of connecting:
    /// socket, handshake or authentication.
    pub open spec fn is_connect_failure(self) -> bool {
        self == SshError::Socket || self == SshError::Handshake || self == SshError::Auth
    }

    /// A sentence for people.
    pub fn message(&self) -> (s: String)
        ensures
            s@ == self.text(),
    {
        match self {
            SshError::Socket => "could not connect to the host".to_owned(),
            SshError::Handshake => "the protocol handshake failed".to_owned(),
            SshError::Auth => "authentication failed".to_owned(),
            SshError::NotAuthenticated => "the session is not authenticated".to_owned(),
            SshError::ChannelOpen => "the channel could not be opened".to_owned(),
            SshError::Exec => "the remote side rejected the request".to_owned(),
            SshError::Io => "reading the output failed".to_owned(),
            SshError::Transfer => "the transfer did not complete".to_owned(),
            SshError::LocalIo => "the local file could not be read".to_owned(),
            SshError::Transport => "the keepalive probe could not be sent".to_owned(),
            SshError::AgentUnavailable => "no agent could be reached".to_owned(),
            SshError::AgentProtocol => "the agent gave no usable answer".to_owned(),
        }
    }

    /// Whether connecting can fail this way.
    pub fn is_connect_error(&self) -> (b: bool)
        ensures
            b == self.is_connect_failure(),
    {
        match self {
            SshError::Socket | SshError::Handshake | SshError::Auth => true,
            _ => false,
        }
    }
}

} // verus!
