use ssh_session::agent::{AgentAction, AgentQuery, AgentStage};
use ssh_session::error::SshError;
use ssh_session::identity::{Identity, IdentityMap};
use ssh_session::reply::Reply;
use ssh_session::session::SSH;

fn identity(comment: &str, blob: &[u8]) -> Identity {
    Identity { comment: comment.to_string(), blob: blob.to_vec() }
}

#[test]
fn an_empty_mapping() {
    let m = IdentityMap::new();
    assert_eq!(m.len(), 0);
    assert!(m.is_empty());
    assert_eq!(m.get("me@host"), None);
    assert!(!m.contains_key("me@host"));
    assert!(m.entries().is_empty());
}

#[test]
fn distinct_comments_are_all_kept() {
    let m = IdentityMap::collect(vec![
        identity("work", &[1, 2, 3]),
        identity("home", &[4, 5]),
        identity("", &[6]),
    ]);
    assert_eq!(m.len(), 3);
    assert!(!m.is_empty());
    assert_eq!(m.get("work"), Some(&vec![1, 2, 3]));
    assert_eq!(m.get("home"), Some(&vec![4, 5]));
    assert_eq!(m.get(""), Some(&vec![6]));
    assert_eq!(m.get("other"), None);
    assert!(m.contains_key("home"));
    assert!(!m.contains_key("Home"));
}

#[test]
fn of_two_identities_with_one_comment_the_later_stays() {
    let m = IdentityMap::collect(vec![
        identity("key", &[1]),
        identity("other", &[2]),
        identity("key", &[3]),
    ]);
    assert_eq!(m.len(), 2);
    assert_eq!(m.get("key"), Some(&vec![3]));
    assert_eq!(m.get("other"), Some(&vec![2]));
    let comments: Vec<&str> = m.entries().iter().map(|e| e.comment.as_str()).collect();
    assert_eq!(comments, vec!["key", "other"]);
}

#[test]
fn no_comment_occurs_twice_among_the_entries() {
    let mut m = IdentityMap::new();
    for (i, comment) in ["a", "b", "a", "c", "b", "a"].iter().enumerate() {
        m.insert(comment.to_string(), vec![i as u8]);
    }
    assert_eq!(m.len(), 3);
    let mut comments: Vec<&str> = m.entries().iter().map(|e| e.comment.as_str()).collect();
    comments.sort();
    assert_eq!(comments, vec!["a", "b", "c"]);
    assert_eq!(m.get("a"), Some(&vec![5]));
    assert_eq!(m.get("b"), Some(&vec![4]));
    assert_eq!(m.get("c"), Some(&vec![3]));
}

#[test]
fn a_query_that_goes_well() {
    let mut query = SSH::identities();
    assert_eq!(query.stage(), AgentStage::Connecting);
    assert_eq!(query.action(), AgentAction::Connect);
    query.step(Reply::Done);
    assert_eq!(query.action(), AgentAction::List);
    query.step(Reply::Done);
    assert_eq!(query.action(), AgentAction::Collect);
    query.step(Reply::Keys(vec![identity("work", &[1, 2]), identity("home", &[3])]));
    assert_eq!(query.action(), AgentAction::Disconnect);
    query.step(Reply::Done);
    assert_eq!(query.action(), AgentAction::Finish);
    let found = query.finish().unwrap().unwrap();
    assert_eq!(found.len(), 2);
    assert_eq!(found.get("work"), Some(&vec![1, 2]));
    assert_eq!(found.get("home"), Some(&vec![3]));
}

#[test]
fn an_agent_without_identities_gives_an_empty_mapping() {
    let mut query = AgentQuery::begin();
    query.step(Reply::Done);
    query.step(Reply::Done);
    query.step(Reply::Keys(Vec::new()));
    query.step(Reply::Done);
    let found = query.finish().unwrap().unwrap();
    assert!(found.is_empty());
}

#[test]
fn an_agent_that_cannot_be_reached_is_unavailable() {
    let mut query = AgentQuery::begin();
    query.step(Reply::Failed);
    // Nothing was connected, so nothing is disconnected.
    assert_eq!(query.stage(), AgentStage::Finished);
    assert_eq!(query.action(), AgentAction::Finish);
    assert!(matches!(query.finish(), Some(Err(SshError::AgentUnavailable))));
}

#[test]
fn an_agent_that_does_not_list_breaks_the_protocol() {
    let mut query = AgentQuery::begin();
    query.step(Reply::Done);
    query.step(Reply::Failed);
    assert_eq!(query.action(), AgentAction::Disconnect);
    query.step(Reply::Done);
    assert!(matches!(query.finish(), Some(Err(SshError::AgentProtocol))));

    let mut query = AgentQuery::begin();
    query.step(Reply::Done);
    query.step(Reply::Done);
    query.step(Reply::Failed);
    assert_eq!(query.action(), AgentAction::Disconnect);
    query.step(Reply::Failed);
    assert!(matches!(query.finish(), Some(Err(SshError::AgentProtocol))));
}

#[test]
fn a_query_that_has_not_ended_has_no_result() {
    let mut query = AgentQuery::begin();
    query.step(Reply::Done);
    assert!(query.finish().is_none());
}

#[test]
fn collecting_from_a_handle_that_was_never_listed() {
    // A handle of the engine that was not connected holds no identities.
    // Reading it either gives none or fails; the query goes on to
    // disconnect either way.
    let session = ssh2::Session::new().expect("libssh2 gives a session");
    let agent = session.agent().expect("libssh2 gives an agent handle");
    let mut query = AgentQuery::begin();
    query.step(Reply::Done);
    query.step(Reply::Done);
    assert_eq!(query.action(), AgentAction::Collect);
    query.collect(&agent);
    assert_eq!(query.stage(), AgentStage::Closing);
    assert_eq!(query.action(), AgentAction::Disconnect);
    query.step(Reply::Done);
    match query.finish() {
        Some(Ok(found)) => assert!(found.is_empty()),
        Some(Err(e)) => assert_eq!(e, SshError::AgentProtocol),
        None => panic!("the query has ended"),
    }
}
