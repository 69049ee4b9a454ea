//! What a schedule is asked for with, and the conditions under which the
//! request is refused.

use vstd::prelude::*;
use crate::constants::SECONDS_PER_DAY;
use crate::timestamp::Timestamp;

verus! {

/// A request for a schedule.
#[derive(Clone, Debug)]
pub struct Args {
    /// The schedule's name.
    pub name: String,
    /// Free text about the schedule; empty for none.
    pub description: String,
    /// Who takes part, in the order of their turns.
    pub users: Vec<String>,
    /// The length of one turn, in days.
    pub length: u8,
    /// Where the first turn starts.
    pub start_date: Timestamp,
    /// Where the schedule ends.
    pub end_date: Timestamp,
}

/// Why a request is refused.
#[derive(Clone, Copy, Debug, PartialEq, Eq, Structural)]
pub enum UsageError {
    /// Nobody takes part.
    NoUsers,
    /// The schedule ends before it starts.
    EndBeforeStart,
    /// The schedule ends before the first turn does.
    EndBeforeFirstTurn,
}

impl Args {
    /// The length of one turn, in seconds.
    pub open spec fn period(&self) -> int {
        self.length * SECONDS_PER_DAY
    }

    /// Where the first turn ends.
    pub open spec fn min_end_date(&self) -> int {
        self.start_date@ + self.period()
    }

    /// The first reason there is to refuse the request, if there is one.
    pub open spec fn refusal(&self) -> Option<UsageError> {
        if self.users@.len() == 0 {
            Some(UsageError::NoUsers)
        } else if self.end_date@ < self.start_date@ {
            Some(UsageError::EndBeforeStart)
        } else if self.end_date@ < self.min_end_date() {
            Some(UsageError::EndBeforeFirstTurn)
        } else {
            None
        }
    }

    /// Whether the request is in order: somebody takes part, and the
    /// schedule ends no earlier than the first turn does.
    pub open spec fn is_valid(&self) -> bool {
        &&& self.users@.len() > 0
        &&& self.end_date@ >= self.min_end_date()
    }
}

/// A request is refused for exactly three reasons: nobody takes part, the
/// schedule ends before it starts, or it ends before the first turn does.
/// A request that is not refused is in order.
pub proof fn lemma_refused_exactly_when(args: &Args)
    ensures
        args.refusal() is Some <==> args.users@.len() == 0 || args.end_date@ < args.start_date@
            || args.end_date@ < args.start_date@ + args.length * SECONDS_PER_DAY,
        args.refusal() is None <==> args.is_valid(),
{
}

/// Checks a request, once, before anything is made of it.
pub fn validate_args(args: &Args) -> (out: Result<(), UsageError>)
    ensures
        out is Ok <==> args.refusal() is None,
        out matches Err(reason) ==> args.refusal() == Some(reason),
{
    let start: i64 = args.start_date.seconds();
    let end: i64 = args.end_date.seconds();
    if args.users.len() == 0 {
        return Err(UsageError::NoUsers);
    }
    if end < start {
        return Err(UsageError::EndBeforeStart);
    }
    let min_end: i64 = start + (args.length as i64) * SECONDS_PER_DAY;
    if min_end > end {
        return Err(UsageError::EndBeforeFirstTurn);
    }
    Ok(())
}

} // verus!
