//! The text of a schedule document: its header and its list items.

use vstd::prelude::*;
use vstd::string::StringExecFns;
use crate::calendar::is_minute_text;
use crate::cli::Args;
use crate::rotation::{assignments, Assignment};
use crate::timestamp::{date_text, in_plain_years, Timestamp};

verus! {

/// What every header starts with, up to and including the `name` key.
pub const HEADER_PREAMBLE: &'static str = "---
# This file was generated using https://github.com/juandspy/ic-updater

$schema: /app-sre/schedule-1.yml

labels: {}

name: ";

/// The key that introduces the description, on a line of its own.
pub const DESCRIPTION_KEY: &'static str = "\ndescription: ";

/// The key under which the turns are listed, on a line of its own.
pub const SCHEDULE_KEY: &'static str = "\nschedule:";

/// What a list item starts with, up to the quote that opens the start date.
pub const ITEM_START: &'static str = "- start: '";

/// What stands between the start date and the end date of a list item.
pub const ITEM_END: &'static str = "'\n  end: '";

/// What stands between the end date of a list item and the user.
pub const ITEM_USER: &'static str = "'\n  users:\n  - $ref: ";

/// What ends a line.
pub const NEWLINE: &'static str = "\n";

/// The header of a schedule called `name`: the preamble, the name, and a
/// description line only where there is a description.
pub open spec fn header_text(name: Seq<char>, description: Seq<char>) -> Seq<char> {
    if description.len() == 0 {
        HEADER_PREAMBLE@ + name
    } else {
        HEADER_PREAMBLE@ + name + DESCRIPTION_KEY@ + description
    }
}

/// A list item: a start and an end, each between quotes, and a list of one
/// reference to a user. All three stand in it as they are given.
pub open spec fn item_text(user: Seq<char>, start: Seq<char>, end: Seq<char>) -> Seq<char> {
    ITEM_START@ + start + ITEM_END@ + end + ITEM_USER@ + user
}

/// The list item of one turn: its two moments as dates, and its user.
pub open spec fn assignment_text(user: Seq<char>, from_date: int, to_date: int) -> Seq<char> {
    item_text(user, date_text(from_date), date_text(to_date))
}

/// The list item of turn `i` of the schedule that `args` asks for.
pub open spec fn turn_text(args: &Args, i: int) -> Seq<char> {
    assignment_text(args.turn_user(i), args.turn_start(i), args.turn_end(i))
}

/// The list items of the first `n` turns, in order, a newline after each.
pub open spec fn turns_text(args: &Args, n: nat) -> Seq<char>
    decreases n,
{
    if n == 0 {
        Seq::empty()
    } else {
        turns_text(args, (n - 1) as nat) + turn_text(args, n - 1) + NEWLINE@
    }
}

/// The whole document: the header, then every turn, a newline after each.
pub open spec fn schedule_text(args: &Args) -> Seq<char> {
    header_text(args.name@, args.description@) + NEWLINE@ + turns_text(args, args.turn_count())
}

/// A list item is its inputs' and nothing else's: the same user and the
/// same two moments give the same text, character for character.
pub proof fn lemma_equal_inputs_give_equal_items(
    user: Seq<char>,
    from_date: int,
    to_date: int,
    other_user: Seq<char>,
    other_from_date: int,
    other_to_date: int,
)
    requires
        user == other_user,
        from_date == other_from_date,
        to_date == other_to_date,
    ensures
        assignment_text(user, from_date, to_date) == assignment_text(
            other_user,
            other_from_date,
            other_to_date,
        ),
{
}

/// Renders the header of a schedule document. The result ends with the last
/// field, without a newline.
pub fn render_header(name: &str, description: &str) -> (out: String)
    ensures
        out@ == header_text(name@, description@),
{
    let mut out = String::new();
    out.append(HEADER_PREAMBLE);
    out.append(name);
    if !description.is_empty() {
        out.append(DESCRIPTION_KEY);
        out.append(description);
    }
    assert(out@ =~= header_text(name@, description@));
    out
}

/// Renders the header followed by the key under which the turns are listed,
/// for documents that nest the list.
pub fn render_header_with_schedule_key(name: &str, description: &str) -> (out: String)
    ensures
        out@ == header_text(name@, description@) + SCHEDULE_KEY@,
{
    let mut out = render_header(name, description);
    out.append(SCHEDULE_KEY);
    out
}

/// Renders a list item from a user and two dates that are text already,
/// without a newline at its end.
pub fn render_item(user: &str, start: &str, end: &str) -> (out: String)
    ensures
        out@ == item_text(user@, start@, end@),
{
    let mut out = String::new();
    out.append(ITEM_START);
    out.append(start);
    out.append(ITEM_END);
    out.append(end);
    out.append(ITEM_USER);
    out.append(user);
    assert(out@ =~= item_text(user@, start@, end@));
    out
}

/// Renders the list item of one turn, without a newline at its end. From
/// the year 0000 to the year 9999 both dates have the shape
/// `YYYY-MM-DD HH:MM`.
pub fn render_user_schedule(user: &str, from_date: Timestamp, to_date: Timestamp) -> (out: String)
    ensures
        out@ == assignment_text(user@, from_date@, to_date@),
        in_plain_years(from_date@) ==> is_minute_text(date_text(from_date@)),
        in_plain_years(to_date@) ==> is_minute_text(date_text(to_date@)),
{
    let start = from_date.render();
    let end = to_date.render();
    render_item(user, start.as_str(), end.as_str())
}

/// Renders the whole document of a schedule.
pub fn render_schedule(args: &Args) -> (out: String)
    requires
        args.users@.len() > 0,
        args.length > 0,
    ensures
        out@ == schedule_text(args),
{
    let turns: Vec<Assignment> = assignments(args);
    let mut out = render_header(args.name.as_str(), args.description.as_str());
    out.append(NEWLINE);
    let ghost head = out@;
    let mut i: usize = 0;
    assert(out@ =~= head + turns_text(args, 0));
    while i < turns.len()
        invariant
            i <= turns@.len(),
            turns@.len() == args.turn_count(),
            forall|k: int| 0 <= k < turns@.len() ==> (#[trigger] turns@[k]).is_turn(args, k),
            out@ == head + turns_text(args, i as nat),
        decreases turns@.len() - i,
    {
        let turn = &turns[i];
        let item = render_user_schedule(turn.user.as_str(), turn.from_date, turn.to_date);
        out.append(item.as_str());
        out.append(NEWLINE);
        assert(turns@[i as int].is_turn(args, i as int));
        assert(out@ =~= head + turns_text(args, (i + 1) as nat));
        i = i + 1;
    }
    out
}

} // verus!
