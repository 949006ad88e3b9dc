//! The wordmark reveal and the mascot's animation frames.

use vstd::prelude::*;

verus! {

/// Number of rows of the wordmark banner.
pub const WORDMARK_ROWS: usize = 7;

/// The mascot's moods.
#[derive(Debug, PartialEq, Eq, Structural, Clone, Copy)]
pub enum Mood {
    Idle,
    Happy,
    Watching,
    Sleepy,
    Thinking,
}

/// Whether the mascot blinks on a tick: two ticks in every fifty.
pub open spec fn blinks(tick: nat) -> bool {
    tick % 50 < 2
}

/// The face row (second row) of each frame; the other rows never change.
pub open spec fn face_row(mood: Mood, tick: nat) -> Seq<char> {
    if blinks(tick) {
        " (- ˕ -7 "@
    } else {
        match mood {
            Mood::Idle => " (˚ˎ 。7 "@,
            Mood::Happy => " (^ ω ^7 "@,
            Mood::Watching => " (◕ᴗ◕7  "@,
            Mood::Sleepy => " (─ ˕ ─7 "@,
            Mood::Thinking => " (・_・7  "@,
        }
    }
}

/// The four rows of the frame shown for `mood` at `tick`.
pub open spec fn mochi_frame(mood: Mood, tick: nat) -> Seq<Seq<char>> {
    seq!["  ╱|、   "@, face_row(mood, tick), "  |、˜〵 "@, " じしˍ,)ノ"@]
}

fn face_for(mood: Mood, blink: bool) -> (r: &'static str)
    ensures
        r@ == (if blink {
            " (- ˕ -7 "@
        } else {
            match mood {
                Mood::Idle => " (˚ˎ 。7 "@,
                Mood::Happy => " (^ ω ^7 "@,
                Mood::Watching => " (◕ᴗ◕7  "@,
                Mood::Sleepy => " (─ ˕ ─7 "@,
                Mood::Thinking => " (・_・7  "@,
            }
        }),
{
    if blink {
        " (- ˕ -7 "
    } else {
        match mood {
            Mood::Idle => " (˚ˎ 。7 ",
            Mood::Happy => " (^ ω ^7 ",
            Mood::Watching => " (◕ᴗ◕7  ",
            Mood::Sleepy => " (─ ˕ ─7 ",
            Mood::Thinking => " (・_・7  ",
        }
    }
}

/// The frame to draw for `mood` at animation tick `tick`; the mascot blinks
/// (whatever its mood) on two ticks in every fifty.
pub fn mochi_for_tick(mood: Mood, tick: usize) -> (r: [&'static str; 4])
    ensures
        r@.len() == 4,
        forall|i: int| 0 <= i < 4 ==> #[trigger] r@[i]@ == mochi_frame(mood, tick as nat)[i],
{
    let blink = (tick % 50) < 2;
    let face = face_for(mood, blink);
    let r = ["  ╱|、   ", face, "  |、˜〵 ", " じしˍ,)ノ"];
    assert forall|i: int| 0 <= i < 4 implies #[trigger] r@[i]@ == mochi_frame(
        mood,
        tick as nat,
    )[i] by {
        if i == 1 {
            assert(r@[1] == face);
        }
    }
    r
}

/// The mood on the home screen: thinking for a hundred ticks in every eight
/// hundred, otherwise happy on the first queue entry and idle elsewhere.
pub open spec fn home_mood(sel: nat, tick: nat) -> Mood {
    if (tick / 100) % 8 == 0 {
        Mood::Thinking
    } else if sel == 0 {
        Mood::Happy
    } else {
        Mood::Idle
    }
}

/// The mascot's mood for the home screen's selection and tick.
pub fn mochi_mood(sel: usize, tick: usize) -> (r: Mood)
    ensures
        r == home_mood(sel as nat, tick as nat),
{
    if (tick / 100) % 8 == 0 {
        Mood::Thinking
    } else if sel == 0 {
        Mood::Happy
    } else {
        Mood::Idle
    }
}

/// How many wordmark rows are shown after `splash_tick` ticks: the banner is
/// revealed two rows at a time, a step every second tick, up to the whole
/// banner.
pub open spec fn rows_revealed(splash_tick: nat) -> nat {
    if 2 * (splash_tick / 2 + 1) <= WORDMARK_ROWS {
        2 * (splash_tick / 2 + 1)
    } else {
        WORDMARK_ROWS as nat
    }
}

/// The number of wordmark rows to draw at `splash_tick`.
pub fn wordmark_rows_revealed(splash_tick: usize) -> (r: usize)
    ensures
        r == rows_revealed(splash_tick as nat),
        2 <= r <= WORDMARK_ROWS,
{
    let step = splash_tick / 2;
    if step < WORDMARK_ROWS / 2 {
        2 * (step + 1)
    } else {
        WORDMARK_ROWS
    }
}

} // verus!
