//! The transport engine: libssh2 through the `ssh2` crate. Here stand the
//! calls that do not touch the network, each with what is taken on trust of
//! it. Nothing in this file is proved.

use crate::identity::Identity;
use vstd::prelude::*;
use vstd::utf8::*;

verus! {

/// An SSH session of the engine: one connection to a host. Opaque here.
#[verifier::external_type_specification]
#[verifier::external_body]
pub struct ExSession(ssh2::Session);

/// The engine's handle on a key agent. Opaque here.
#[verifier::external_type_specification]
#[verifier::external_body]
pub struct ExAgent(ssh2::Agent);

/// The engine's own error. Opaque here.
#[verifier::external_type_specification]
#[verifier::external_body]
pub struct ExEngineError(ssh2::Error);

/// `ssh2::Session::authenticated`: whether the engine holds the session to be
/// authenticated. The engine reads a flag of the session and sends nothing.
/// Nothing is claimed of the answer.
#[verifier::external_body]
pub(crate) fn transport_authenticated(transport: &ssh2::Session) -> (flag: bool) {
    transport.authenticated()
}

/// `ssh2::Session::set_keepalive`: sets how often the engine is to send
/// keepalive messages and whether they ask for a reply. The engine stores the
/// two values and sends nothing. Nothing is claimed of the session afterwards.
#[verifier::external_body]
pub(crate) fn transport_set_keepalive(transport: &ssh2::Session, want_reply: bool, interval: u32) {
    transport.set_keepalive(want_reply, interval)
}

/// `ssh2::Agent::identities`, with `ssh2::PublicKey::comment` and
/// `ssh2::PublicKey::blob` for each key: the identities that the agent handle
/// has stored from its last listing, in the handle's order. The engine walks
/// its stored list and asks the agent nothing. Nothing is claimed of the
/// listing.
#[verifier::external_body]
pub(crate) fn agent_identities(agent: &ssh2::Agent) -> (listing: Result<
    Vec<Identity>,
    ssh2::Error,
>) {
    let keys = agent.identities()?;
    let mut listing = Vec::new();
    for key in keys.iter() {
        listing.push(Identity { comment: key.comment().to_owned(), blob: key.blob().to_vec() });
    }
    Ok(listing)
}

/// `String::from_utf8`: the text that the bytes encode in UTF-8. There is a
/// text exactly when the bytes are valid UTF-8, and it is then their
/// decoding.
#[verifier::external_body]
pub(crate) fn text_of_bytes(bytes: Vec<u8>) -> (text: Option<String>)
    ensures
        text is Some <==> valid_utf8(bytes@),
        text matches Some(s) ==> s@ == decode_utf8(bytes@),
{
    String::from_utf8(bytes).ok()
}

} // verus!
