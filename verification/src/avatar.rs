//! The companion's expressions and what it says on each screen.

use vstd::prelude::*;

verus! {

/// The faces the companion can make.
#[derive(Debug, PartialEq, Eq, Structural, Clone, Copy)]
pub enum Expression {
    Idle,
    Happy,
    Excited,
    Sleepy,
    Searching,
    Watching,
    Thinking,
    Love,
    Surprised,
    Celebrate,
    Waving,
    Sad,
}

/// The greeting for an hour of the day (0..=23; other values count as night).
pub open spec fn greeting(hour: u32) -> (Expression, Seq<char>) {
    if 5 <= hour <= 8 {
        (Expression::Sleepy, "Early bird~ Let's find something cozy…"@)
    } else if 9 <= hour <= 11 {
        (Expression::Waving, "Good morning! Ready for a screening?"@)
    } else if 12 <= hour <= 14 {
        (Expression::Happy, "Afternoon vibes~ What's on the queue?"@)
    } else if 15 <= hour <= 17 {
        (Expression::Idle, "Golden hour — perfect for a marathon~"@)
    } else if 18 <= hour <= 20 {
        (Expression::Excited, "Prime time! The stage is set."@)
    } else if 21 <= hour <= 23 {
        (Expression::Happy, "Late night session? I'm right here~"@)
    } else {
        (Expression::Sleepy, "Up past midnight… one more episode?"@)
    }
}

/// The face and greeting for the given hour.
pub fn greeting_for_hour(hour: u32) -> (r: (Expression, &'static str))
    ensures
        r.0 == greeting(hour).0,
        r.1@ == greeting(hour).1,
{
    if 5 <= hour && hour <= 8 {
        (Expression::Sleepy, "Early bird~ Let's find something cozy…")
    } else if 9 <= hour && hour <= 11 {
        (Expression::Waving, "Good morning! Ready for a screening?")
    } else if 12 <= hour && hour <= 14 {
        (Expression::Happy, "Afternoon vibes~ What's on the queue?")
    } else if 15 <= hour && hour <= 17 {
        (Expression::Idle, "Golden hour — perfect for a marathon~")
    } else if 18 <= hour && hour <= 20 {
        (Expression::Excited, "Prime time! The stage is set.")
    } else if 21 <= hour && hour <= 23 {
        (Expression::Happy, "Late night session? I'm right here~")
    } else {
        (Expression::Sleepy, "Up past midnight… one more episode?")
    }
}

/// What the companion says on the search screen.
pub open spec fn search_message(has_results: bool, is_loading: bool, input_len: usize) -> (
    Expression,
    Seq<char>,
) {
    if is_loading {
        (Expression::Searching, "Sniffing out titles…"@)
    } else if has_results {
        (Expression::Excited, "Found some good ones!"@)
    } else if input_len >= 2 {
        (Expression::Sad, "Hmm, couldn't find that one…"@)
    } else {
        (Expression::Happy, "Type a title and I'll find it~"@)
    }
}

/// The face and line for the search screen: loading wins, then results,
/// then a query long enough to have found nothing.
pub fn message_for_search_state(has_results: bool, is_loading: bool, input_len: usize) -> (r: (
    Expression,
    &'static str,
))
    ensures
        r.0 == search_message(has_results, is_loading, input_len).0,
        r.1@ == search_message(has_results, is_loading, input_len).1,
{
    if is_loading {
        (Expression::Searching, "Sniffing out titles…")
    } else if has_results {
        (Expression::Excited, "Found some good ones!")
    } else if input_len >= 2 {
        (Expression::Sad, "Hmm, couldn't find that one…")
    } else {
        (Expression::Happy, "Type a title and I'll find it~")
    }
}

/// What the companion says on the detail screen.
pub open spec fn detail_message(loading: bool, has_eps: bool) -> (Expression, Seq<char>) {
    if loading {
        (Expression::Searching, "Fetching episodes…"@)
    } else if !has_eps {
        (Expression::Thinking, "No episodes — strange."@)
    } else {
        (Expression::Happy, "Pick an episode!"@)
    }
}

/// The face and line for the detail screen.
pub fn message_for_detail(loading: bool, has_eps: bool) -> (r: (Expression, &'static str))
    ensures
        r.0 == detail_message(loading, has_eps).0,
        r.1@ == detail_message(loading, has_eps).1,
{
    if loading {
        (Expression::Searching, "Fetching episodes…")
    } else if !has_eps {
        (Expression::Thinking, "No episodes — strange.")
    } else {
        (Expression::Happy, "Pick an episode!")
    }
}

/// The face and line while a stream plays.
pub fn message_for_playing() -> (r: (Expression, &'static str))
    ensures
        r.0 == Expression::Watching,
        r.1@ == "Enjoy the show~"@,
{
    (Expression::Watching, "Enjoy the show~")
}

/// What the companion says on the history screen.
pub open spec fn history_message(empty: bool) -> (Expression, Seq<char>) {
    if empty {
        (Expression::Thinking, "No history yet — let's fix that!"@)
    } else {
        (Expression::Happy, "Everything you've screened~"@)
    }
}

/// The face and line for the history screen.
pub fn message_for_history(empty: bool) -> (r: (Expression, &'static str))
    ensures
        r.0 == history_message(empty).0,
        r.1@ == history_message(empty).1,
{
    if empty {
        (Expression::Thinking, "No history yet — let's fix that!")
    } else {
        (Expression::Happy, "Everything you've screened~")
    }
}

/// The face and line for the help screen.
pub fn message_for_help() -> (r: (Expression, &'static str))
    ensures
        r.0 == Expression::Waving,
        r.1@ == "Here's everything I know!"@,
{
    (Expression::Waving, "Here's everything I know!")
}

} // verus!
