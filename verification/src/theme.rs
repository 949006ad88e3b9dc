//! Text layout helpers for the terminal UI: truncation, padding, spinner
//! frames and the wall-clock label.

use vstd::prelude::*;

use crate::text::{chars_of, extend_range, string_of};

verus! {

/// `s` cut to at most `max` characters, ending in `…` when cut.
pub open spec fn truncated(s: Seq<char>, max: nat) -> Seq<char> {
    if s.len() <= max {
        s
    } else if max <= 1 {
        seq!['…']
    } else {
        s.take(max - 1).push('…')
    }
}

/// Cuts `s` to at most `max` characters, marking a cut with `…`.
pub fn truncate(s: &str, max: usize) -> (r: String)
    ensures
        r@ == truncated(s@, max as nat),
{
    let cs = chars_of(s);
    if cs.len() <= max {
        return string_of(cs.as_slice());
    }
    if max <= 1 {
        let v = vec!['…'];
        assert(v@ =~= seq!['…']);
        return string_of(v.as_slice());
    }
    let mut out: Vec<char> = Vec::new();
    extend_range(&mut out, &cs, 0, max - 1);
    out.push('…');
    assert(out@ =~= cs@.take(max - 1).push('…'));
    string_of(out.as_slice())
}

/// `s` filled with spaces to `width` characters, or cut to it.
pub open spec fn padded_right(s: Seq<char>, width: nat) -> Seq<char> {
    if s.len() >= width {
        truncated(s, width)
    } else {
        s + Seq::new((width - s.len()) as nat, |i: int| ' ')
    }
}

/// Pads `s` with spaces to exactly `width` characters (cutting it when longer).
pub fn pad_right(s: &str, width: usize) -> (r: String)
    ensures
        r@ == padded_right(s@, width as nat),
{
    let cs = chars_of(s);
    let len = cs.len();
    if len >= width {
        return truncate(s, width);
    }
    let mut out = cs;
    let mut k: usize = len;
    while k < width
        invariant
            len <= k <= width,
            len == s@.len(),
            out@ == s@ + Seq::new((k - len) as nat, |i: int| ' '),
        decreases width - k,
    {
        out.push(' ');
        k += 1;
        assert(out@ =~= s@ + Seq::new((k - len) as nat, |i: int| ' '));
    }
    string_of(out.as_slice())
}

/// The spinner frames, in order.
pub open spec fn spinner_frames() -> Seq<Seq<char>> {
    seq!["⠋"@, "⠙"@, "⠹"@, "⠸"@, "⠼"@, "⠴"@, "⠦"@, "⠧"@, "⠇"@, "⠏"@]
}

/// The spinner frame for a tick (the frames cycle).
pub fn spinner_frame(tick: usize) -> (r: &'static str)
    ensures
        r@ == spinner_frames()[(tick % 10) as int],
{
    match tick % 10 {
        0 => "⠋",
        1 => "⠙",
        2 => "⠹",
        3 => "⠸",
        4 => "⠼",
        5 => "⠴",
        6 => "⠦",
        7 => "⠧",
        8 => "⠇",
        _ => "⠏",
    }
}

/// Two decimal digits of a number below 100.
pub open spec fn two_digits(n: nat) -> Seq<char> {
    seq![((n / 10) + '0' as nat) as char, ((n % 10) + '0' as nat) as char]
}

/// The `HH:MM` (UTC) label for a time in seconds since the Unix epoch.
pub open spec fn clock_label(secs: nat) -> Seq<char> {
    two_digits((secs / 3600) % 24) + seq![':'] + two_digits((secs / 60) % 60)
}

/// The `HH:MM` label of a Unix time (seconds), in UTC.
pub fn now_clock(secs: u64) -> (r: String)
    ensures
        r@ == clock_label(secs as nat),
{
    let h = (secs / 3600) % 24;
    let m = (secs / 60) % 60;
    let v = vec![
        ((h / 10) as u8 + 48u8) as char,
        ((h % 10) as u8 + 48u8) as char,
        ':',
        ((m / 10) as u8 + 48u8) as char,
        ((m % 10) as u8 + 48u8) as char,
    ];
    assert(v@ =~= clock_label(secs as nat));
    string_of(v.as_slice())
}

} // verus!
