//! The discipline of a channel: every operation opens at most one, and closes
//! the one that it opened exactly once, on whatever path it ends.
//!
//! The same holds of the connection to an agent, which a query opens and
//! closes in the same way.

use vstd::prelude::*;

verus! {

/// What an operation has of its channel at one moment.
#[derive(Clone, Copy, Debug, PartialEq, Eq, Structural)]
pub enum Hold {
    /// No channel has been opened.
    Unopened,
    /// The channel is open and in use.
    Open,
    /// The channel is open, and closing it is what the operation does next.
    Closing,
    /// The operation has ended and holds no channel.
    Ended,
}

impl Hold {
    /// Whether one step can lead from `self` to `to`. An operation without a
    /// channel may go anywhere: it may wait, open one, or end without. With
    /// one open it can go on using it or turn to closing it. From closing it
    /// can only end, and once ended it stays so.
    pub open spec fn may_lead_to(self, to: Hold) -> bool {
        match self {
            Hold::Unopened => true,
            Hold::Open => to == Hold::Open || to == Hold::Closing,
            Hold::Closing => to == Hold::Ended,
            Hold::Ended => to == Hold::Ended,
        }
    }
}

/// Whether every step of the course is one that `may_lead_to` allows.
pub open spec fn orderly(course: Seq<Hold>) -> bool {
    forall|i: int| 0 <= i < course.len() - 1 ==> (#[trigger] course[i]).may_lead_to(course[i + 1])
}

/// How often a channel is opened in the course: the steps that lead from no
/// channel to one.
pub open spec fn opens(course: Seq<Hold>) -> nat
    decreases course.len(),
{
    if course.len() < 2 {
        0
    } else {
        let here: nat = if course[0] == Hold::Unopened && (course[1] == Hold::Open || course[1]
            == Hold::Closing) {
            1
        } else {
            0
        };
        here + opens(course.skip(1))
    }
}

/// How often a channel is closed in the course: the steps that are taken
/// from closing.
pub open spec fn closes(course: Seq<Hold>) -> nat
    decreases course.len(),
{
    if course.len() < 2 {
        0
    } else {
        let here: nat = if course[0] == Hold::Closing {
            1
        } else {
            0
        };
        here + closes(course.skip(1))
    }
}

/// In an orderly course that begins without a channel, a channel is opened
/// at most once and closed at most as often as opened; and when the course
/// has ended, the channel that was opened has been closed, exactly once.
pub proof fn law_closed_exactly_once(course: Seq<Hold>)
    requires
        orderly(course),
        course.len() > 0,
        course[0] == Hold::Unopened,
    ensures
        opens(course) <= 1,
        closes(course) <= opens(course),
        course.last() == Hold::Ended ==> closes(course) == opens(course),
{
    lemma_course(course);
}

proof fn lemma_course(course: Seq<Hold>)
    requires
        orderly(course),
        course.len() > 0,
    ensures
        match course[0] {
            Hold::Unopened => opens(course) <= 1 && closes(course) <= opens(course) && (
            course.last() == Hold::Ended ==> closes(course) == opens(course)),
            Hold::Open => opens(course) == 0 && closes(course) <= 1 && (course.last()
                == Hold::Ended ==> closes(course) == 1),
            Hold::Closing => opens(course) == 0 && closes(course) <= 1 && (course.last()
                == Hold::Ended ==> closes(course) == 1),
            Hold::Ended => opens(course) == 0 && closes(course) == 0,
        },
    decreases course.len(),
{
    if course.len() >= 2 {
        let rest = course.skip(1);
        assert(course[0].may_lead_to(course[1]));
        assert(rest[0] == course[1]);
        assert(rest.last() == course.last());
        assert(orderly(rest)) by {
            assert forall|i: int| 0 <= i < rest.len() - 1 implies (#[trigger] rest[i]).may_lead_to(
                rest[i + 1],
            ) by {
                assert(course[i + 1].may_lead_to(course[i + 2]));
            }
        }
        lemma_course(rest);
    }
}

} // verus!
