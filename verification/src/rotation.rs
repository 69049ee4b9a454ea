//! The rotation: which turns a request gives, and whose each of them is.

use vstd::prelude::*;
use crate::cli::Args;
use crate::constants::{MAX_SECONDS, SECONDS_PER_DAY};
use crate::timestamp::Timestamp;

verus! {

/// One turn: who is on call, and from when to when.
#[derive(Clone, Debug)]
pub struct Assignment {
    /// Who is on call.
    pub user: String,
    /// Where the turn starts.
    pub from_date: Timestamp,
    /// Where the turn ends, and the next one starts.
    pub to_date: Timestamp,
}

impl Args {
    /// Where turn `i` starts, counting turns from zero.
    pub open spec fn turn_start(&self, i: int) -> int {
        self.start_date@ + i * self.period()
    }

    /// Where turn `i` ends.
    pub open spec fn turn_end(&self, i: int) -> int {
        self.start_date@ + (i + 1) * self.period()
    }

    /// Whose turn `i` is: the users take turns in order, and after the last
    /// comes the first again.
    pub open spec fn turn_user(&self, i: int) -> Seq<char> {
        self.users@[i % (self.users@.len() as int)]@
    }

    /// How many turns the schedule has: as many as end before the schedule does.
    pub open spec fn turn_count(&self) -> nat {
        if self.length == 0 || self.end_date@ <= self.start_date@ {
            0
        } else {
            ((self.end_date@ - self.start_date@ - 1) / self.period()) as nat
        }
    }
}

impl Assignment {
    /// Whether this is turn `i` of the schedule that `args` asks for.
    pub open spec fn is_turn(&self, args: &Args, i: int) -> bool {
        &&& self.user@ == args.turn_user(i)
        &&& self.from_date@ == args.turn_start(i)
        &&& self.to_date@ == args.turn_end(i)
    }
}

/// Turn `i` is one of the schedule's exactly when it ends before the
/// schedule does.
pub proof fn lemma_turn_is_counted(args: &Args, i: int)
    requires
        args.length > 0,
        0 <= i,
    ensures
        i < args.turn_count() <==> args.turn_end(i) < args.end_date@,
{
    let p = args.period();
    let d = args.end_date@ - args.start_date@;
    assert(p > 0);
    if d <= 0 {
        assert((i + 1) * p > 0) by (nonlinear_arith)
            requires
                i >= 0,
                p > 0,
        ;
    } else {
        assert(i < (d - 1) / p <==> (i + 1) * p < d) by (nonlinear_arith)
            requires
                i >= 0,
                p > 0,
                d >= 1,
        ;
    }
}

/// Every turn is one period long.
pub proof fn lemma_turn_length(args: &Args, i: int)
    ensures
        args.turn_end(i) - args.turn_start(i) == args.length * SECONDS_PER_DAY,
{
    assert((i + 1) * args.period() == i * args.period() + args.period()) by (nonlinear_arith);
}

/// Each turn starts where the one before it ends, and the first starts
/// where the schedule does.
pub proof fn lemma_turns_are_contiguous(args: &Args, i: int)
    ensures
        args.turn_start(0) == args.start_date@,
        args.turn_start(i + 1) == args.turn_end(i),
{
}

/// Where the period does not divide the time from start to end, the schedule
/// has as many turns as whole periods fit into that time.
pub proof fn lemma_turn_count_is_quotient(args: &Args)
    requires
        args.length > 0,
        args.start_date@ <= args.end_date@,
        (args.end_date@ - args.start_date@) % args.period() != 0,
    ensures
        args.turn_count() == (args.end_date@ - args.start_date@) / args.period(),
{
    let p = args.period();
    let d = args.end_date@ - args.start_date@;
    assert((d - 1) / p == d / p) by (nonlinear_arith)
        requires
            p > 0,
            d >= 0,
            d % p != 0,
    ;
}

/// Where the period divides the time from start to end, the turn that would
/// end with the schedule is left out: there is one turn less than periods.
pub proof fn lemma_turn_count_when_period_divides(args: &Args)
    requires
        args.length > 0,
        args.start_date@ < args.end_date@,
        (args.end_date@ - args.start_date@) % args.period() == 0,
    ensures
        args.turn_count() == (args.end_date@ - args.start_date@) / args.period() - 1,
{
    let p = args.period();
    let d = args.end_date@ - args.start_date@;
    assert((d - 1) / p == d / p - 1) by (nonlinear_arith)
        requires
            p > 0,
            d > 0,
            d % p == 0,
    ;
}

/// The users take turns in a cycle: the first turns go to the users in
/// their order, and a turn goes to whoever had the turn one round before.
pub proof fn lemma_users_take_turns_in_cycle(args: &Args, i: int)
    requires
        args.users@.len() > 0,
        0 <= i,
    ensures
        i < args.users@.len() ==> args.turn_user(i) == args.users@[i]@,
        args.turn_user(i + args.users@.len()) == args.turn_user(i),
{
    let n = args.users@.len() as int;
    assert((i + n) % n == i % n) by (nonlinear_arith)
        requires
            n > 0,
            i >= 0,
    ;
    if i < n {
        assert(i % n == i) by (nonlinear_arith)
            requires
                0 <= i < n,
        ;
    }
}

/// The turns of a schedule, in order.
pub fn assignments(args: &Args) -> (out: Vec<Assignment>)
    requires
        args.users@.len() > 0,
        args.length > 0,
    ensures
        out@.len() == args.turn_count(),
        forall|i: int| 0 <= i < out@.len() ==> (#[trigger] out@[i]).is_turn(args, i),
        forall|i: int| 0 <= i < out@.len() ==> (#[trigger] out@[i]).to_date@ < args.end_date@,
        args.turn_end(out@.len() as int) >= args.end_date@,
{
    let end: i64 = args.end_date.seconds();
    let mut out: Vec<Assignment> = Vec::new();
    let mut from_date: Timestamp = args.start_date;
    loop
        invariant
            args.users@.len() > 0,
            args.length > 0,
            end == args.end_date@,
            end <= MAX_SECONDS,
            from_date@ == args.turn_start(out@.len() as int),
            out@.len() <= args.turn_count(),
            forall|i: int| 0 <= i < out@.len() ==> (#[trigger] out@[i]).is_turn(args, i),
        ensures
            out@.len() == args.turn_count(),
        decreases end - from_date@,
    {
        let ghost n = out@.len() as int;
        proof {
            lemma_turn_is_counted(args, n);
            assert(args.turn_end(n) == args.turn_start(n) + args.length * SECONDS_PER_DAY)
                by (nonlinear_arith)
                requires
                    args.turn_end(n) == args.start_date@ + (n + 1) * args.period(),
                    args.turn_start(n) == args.start_date@ + n * args.period(),
                    args.period() == args.length * SECONDS_PER_DAY,
            ;
        }
        let to_date: Timestamp = match from_date.checked_add_days(args.length) {
            Some(t) => t,
            None => {
                break ;
            },
        };
        if to_date.seconds() >= end {
            break ;
        }
        let turn: usize = out.len() % args.users.len();
        let user: String = args.users[turn].clone();
        out.push(Assignment { user, from_date, to_date });
        from_date = to_date;
    }
    proof {
        lemma_turn_is_counted(args, out@.len() as int);
        assert forall|i: int| 0 <= i < out@.len() implies (#[trigger] out@[i]).to_date@
            < args.end_date@ by {
            lemma_turn_is_counted(args, i);
        }
    }
    out
}

/// Turn `index` of a schedule, if it has that many.
pub fn assignment_at(args: &Args, index: usize) -> (out: Option<Assignment>)
    requires
        args.users@.len() > 0,
        args.length > 0,
    ensures
        out is Some <==> index < args.turn_count(),
        out matches Some(a) ==> a.is_turn(args, index as int),
{
    let start: i64 = args.start_date.seconds();
    let end: i64 = args.end_date.seconds();
    if end <= start {
        return None;
    }
    let period: i64 = (args.length as i64) * SECONDS_PER_DAY;
    let count: i64 = (end - start - 1) / period;
    assert(period == args.period());
    assert(0 <= count == args.turn_count());
    if index as u64 >= count as u64 {
        return None;
    }
    proof {
        lemma_turn_is_counted(args, index as int);
        assert(0 <= index * period && (index + 1) * period == index * period + period)
            by (nonlinear_arith)
            requires
                index >= 0,
                period > 0,
        ;
    }
    let from_seconds: i64 = start + (index as i64) * period;
    let to_seconds: i64 = from_seconds + period;
    let turn: usize = index % args.users.len();
    match (Timestamp::from_seconds(from_seconds), Timestamp::from_seconds(to_seconds)) {
        (Some(from_date), Some(to_date)) => {
            let user: String = args.users[turn].clone();
            Some(Assignment { user, from_date, to_date })
        },
        _ => None,
    }
}

} // verus!
