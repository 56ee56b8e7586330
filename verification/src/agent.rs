//! Asking a key agent for its identities.
//!
//! The query is on its own: it needs no session. It connects to the agent,
//! has the identities listed, reads them into a mapping by comment, and
//! disconnects. Once connected it disconnects before it ends, whether it
//! ends well or not.

use crate::channel::{closes, law_closed_exactly_once, opens, orderly, Hold};
use crate::engine::agent_identities;
use crate::error::SshError;
use crate::identity::{collected, pairs_of, IdentityMap};
use crate::reply::Reply;
use vstd::prelude::*;

verus! {

/// Where a query stands.
#[derive(Clone, Copy, Debug, PartialEq, Eq, Structural)]
pub enum AgentStage {
    /// The agent is to be connected to.
    Connecting,
    /// The agent is to list its identities.
    Listing,
    /// The listing is to be read.
    Collecting,
    /// The agent is to be disconnected from; how the query ends is decided.
    Closing,
    /// The query has ended.
    Finished,
}

impl AgentStage {
    /// What the query has of its connection to the agent at this stage.
    pub open spec fn hold(self) -> Hold {
        match self {
            AgentStage::Connecting => Hold::Unopened,
            AgentStage::Listing | AgentStage::Collecting => Hold::Open,
            AgentStage::Closing => Hold::Closing,
            AgentStage::Finished => Hold::Ended,
        }
    }
}

/// What the driver is to do next for a query.
#[derive(Clone, Copy, Debug, PartialEq, Eq, Structural)]
pub enum AgentAction {
    /// Connect to the agent.
    Connect,
    /// Have the agent list its identities.
    List,
    /// Hand the agent's handle to `collect`.
    Collect,
    /// Disconnect from the agent.
    Disconnect,
    /// The query has ended; `finish` gives the result.
    Finish,
}

/// A query, as far as it has come.
#[derive(Debug)]
pub struct AgentQuery {
    found: IdentityMap,
    stage: AgentStage,
    failure: Option<SshError>,
}

/// An `AgentQuery` as plain values.
pub struct AgentQueryView {
    /// The identities read, by comment.
    pub found: Map<Seq<char>, Seq<u8>>,
    pub stage: AgentStage,
    /// Why the query fails, once that is decided.
    pub failure: Option<SshError>,
}

impl View for AgentQuery {
    type V = AgentQueryView;

    closed spec fn view(&self) -> AgentQueryView {
        AgentQueryView { found: self.found@, stage: self.stage, failure: self.failure }
    }
}

impl AgentQueryView {
    /// A query that is about to connect.
    pub open spec fn begin() -> AgentQueryView {
        AgentQueryView { found: Map::empty(), stage: AgentStage::Connecting, failure: None }
    }

    /// The query after the answer to its action.
    ///
    /// An agent that cannot be connected to is unavailable. One that is
    /// connected and does not list its identities, or whose listing cannot
    /// be read, has broken the protocol. A listing that can be read is
    /// entered front to back, so that of two identities with one comment the
    /// later one stays. Once connected the query disconnects, and whatever
    /// that answers it ends as was decided.
    pub open spec fn next(self, reply: Reply) -> AgentQueryView {
        match self.stage {
            AgentStage::Connecting => match reply {
                Reply::Done => AgentQueryView { stage: AgentStage::Listing, ..self },
                _ => AgentQueryView {
                    stage: AgentStage::Finished,
                    failure: Some(SshError::AgentUnavailable),
                    ..self
                },
            },
            AgentStage::Listing => match reply {
                Reply::Done => AgentQueryView { stage: AgentStage::Collecting, ..self },
                _ => AgentQueryView {
                    stage: AgentStage::Closing,
                    failure: Some(SshError::AgentProtocol),
                    ..self
                },
            },
            AgentStage::Collecting => match reply {
                Reply::Keys(ids) => AgentQueryView {
                    found: collected(pairs_of(ids@)),
                    stage: AgentStage::Closing,
                    ..self
                },
                _ => AgentQueryView {
                    stage: AgentStage::Closing,
                    failure: Some(SshError::AgentProtocol),
                    ..self
                },
            },
            AgentStage::Closing => AgentQueryView { stage: AgentStage::Finished, ..self },
            AgentStage::Finished => self,
        }
    }

    /// The query after a row of answers.
    pub open spec fn run(self, replies: Seq<Reply>) -> AgentQueryView
        decreases replies.len(),
    {
        if replies.len() == 0 {
            self
        } else {
            self.next(replies[0]).run(replies.skip(1))
        }
    }

    /// What the query has of its connection from step to step, while it takes
    /// the answers.
    pub open spec fn course(self, replies: Seq<Reply>) -> Seq<Hold>
        decreases replies.len(),
    {
        if replies.len() == 0 {
            seq![self.stage.hold()]
        } else {
            seq![self.stage.hold()] + self.next(replies[0]).course(replies.skip(1))
        }
    }

    /// How the query has ended, if it has.
    pub open spec fn outcome(self) -> Option<Result<Map<Seq<char>, Seq<u8>>, SshError>> {
        if self.stage == AgentStage::Finished {
            match self.failure {
                Some(e) => Some(Err(e)),
                None => Some(Ok(self.found)),
            }
        } else {
            None
        }
    }
}

impl AgentQuery {
    /// A query. Nothing is asked yet.
    pub fn begin() -> (query: AgentQuery)
        ensures
            query@ == AgentQueryView::begin(),
    {
        AgentQuery { found: IdentityMap::new(), stage: AgentStage::Connecting, failure: None }
    }

    /// Where the query stands.
    pub fn stage(&self) -> (s: AgentStage)
        ensures
            s == self@.stage,
    {
        self.stage
    }

    /// What the driver is to do next.
    pub fn action(&self) -> (a: AgentAction)
        ensures
            a == match self@.stage {
                AgentStage::Connecting => AgentAction::Connect,
                AgentStage::Listing => AgentAction::List,
                AgentStage::Collecting => AgentAction::Collect,
                AgentStage::Closing => AgentAction::Disconnect,
                AgentStage::Finished => AgentAction::Finish,
            },
    {
        match self.stage {
            AgentStage::Connecting => AgentAction::Connect,
            AgentStage::Listing => AgentAction::List,
            AgentStage::Collecting => AgentAction::Collect,
            AgentStage::Closing => AgentAction::Disconnect,
            AgentStage::Finished => AgentAction::Finish,
        }
    }

    /// Takes the answer to the last action.
    pub fn step(&mut self, reply: Reply)
        ensures
            final(self)@ == old(self)@.next(reply),
    {
        match self.stage {
            AgentStage::Connecting => match reply {
                Reply::Done => {
                    self.stage = AgentStage::Listing;
                },
                _ => {
                    self.failure = Some(SshError::AgentUnavailable);
                    self.stage = AgentStage::Finished;
                },
            },
            AgentStage::Listing => match reply {
                Reply::Done => {
                    self.stage = AgentStage::Collecting;
                },
                _ => {
                    self.failure = Some(SshError::AgentProtocol);
                    self.stage = AgentStage::Closing;
                },
            },
            AgentStage::Collecting => match reply {
                Reply::Keys(ids) => {
                    self.found = IdentityMap::collect(ids);
                    self.stage = AgentStage::Closing;
                },
                _ => {
                    self.failure = Some(SshError::AgentProtocol);
                    self.stage = AgentStage::Closing;
                },
            },
            AgentStage::Closing => {
                self.stage = AgentStage::Finished;
            },
            AgentStage::Finished => {},
        }
    }

    /// Reads the identities that the agent's handle holds after a listing,
    /// and takes them as the answer to the last action: the listing as it
    /// was read, or a failure where the handle could not give it.
    pub fn collect(&mut self, agent: &ssh2::Agent)
        ensures
            exists|reply: Reply|
                (reply is Keys || reply is Failed) && final(self)@ == #[trigger] old(self)@.next(
                    reply,
                ),
    {
        let reply = match agent_identities(agent) {
            Ok(ids) => Reply::Keys(ids),
            Err(_) => Reply::Failed,
        };
        self.step(reply);
    }

    /// The result of a query that has ended: the identities by comment, or
    /// the error. A query that has not ended has no result.
    pub fn finish(self) -> (r: Option<Result<IdentityMap, SshError>>)
        ensures
            match self@.outcome() {
                None => r is None,
                Some(Ok(found)) => r matches Some(Ok(m)) && m@ == found,
                Some(Err(e)) => r matches Some(Err(x)) && x == e,
            },
    {
        match self.stage {
            AgentStage::Finished => match self.failure {
                Some(e) => Some(Err(e)),
                None => Some(Ok(self.found)),
            },
            _ => None,
        }
    }
}

/// A query that goes well gives the agent's identities by comment: after
/// connecting, listing, reading `ids` and disconnecting, the result is the
/// mapping that `ids` gives when read front to back.
pub proof fn law_query_collects(ids: Vec<crate::identity::Identity>, closing: Reply)
    ensures
        AgentQueryView::begin().next(Reply::Done).next(Reply::Done).next(Reply::Keys(ids)).next(
            closing,
        ).outcome() == Some(
            Ok::<Map<Seq<char>, Seq<u8>>, SshError>(collected(pairs_of(ids@))),
        ),
{
}

/// An agent that cannot be reached is unavailable, and nothing is
/// disconnected, since nothing was connected.
pub proof fn law_agent_unreachable(reply: Reply)
    requires
        !(reply is Done),
    ensures
        AgentQueryView::begin().next(reply).outcome() == Some(
            Err::<Map<Seq<char>, Seq<u8>>, SshError>(SshError::AgentUnavailable),
        ),
{
}

/// The connection to the agent does not outlive the query: a query connects
/// at most once, and disconnects exactly once from the agent that it
/// connected to, on whatever path it ends.
pub proof fn law_query_disconnects(replies: Seq<Reply>)
    ensures
        ({
            let course = AgentQueryView::begin().course(replies);
            &&& orderly(course)
            &&& opens(course) <= 1
            &&& closes(course) <= opens(course)
            &&& AgentQueryView::begin().run(replies).stage == AgentStage::Finished ==> closes(
                course,
            ) == opens(course)
        }),
{
    lemma_agent_course(AgentQueryView::begin(), replies);
    law_closed_exactly_once(AgentQueryView::begin().course(replies));
}

proof fn lemma_agent_course(at: AgentQueryView, replies: Seq<Reply>)
    ensures
        orderly(at.course(replies)),
        at.course(replies).len() == replies.len() + 1,
        at.course(replies)[0] == at.stage.hold(),
        at.course(replies).last() == at.run(replies).stage.hold(),
    decreases replies.len(),
{
    if replies.len() > 0 {
        let rest = at.next(replies[0]).course(replies.skip(1));
        let course = at.course(replies);
        lemma_agent_course(at.next(replies[0]), replies.skip(1));
        assert(course == seq![at.stage.hold()] + rest);
        assert forall|i: int| 0 <= i < course.len() - 1 implies (#[trigger] course[i]).may_lead_to(
            course[i + 1],
        ) by {
            if i == 0 {
                assert(course[1] == rest[0]);
            } else {
                assert(course[i] == rest[i - 1]);
                assert(course[i + 1] == rest[i]);
            }
        }
    }
}

} // verus!
