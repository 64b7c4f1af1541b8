//! Playback modes and the time-sampling rule: which point of the animation
//! is shown at a requested time.
use vstd::prelude::*;

use crate::ratio::Ratio;
use crate::text::same_text;

verus! {

/// The direction in which an animation is played.
#[derive(Clone, Copy, Debug, PartialEq, Eq, Structural)]
pub enum Mode {
    Forward,
    Reverse,
    Bounce,
    ReverseBounce,
}

/// The point of an animation of length `d` shown at time `t` (`t >= 0`).
pub open spec fn position(mode: Mode, t: int, d: int, looped: bool) -> int {
    if d <= 0 {
        0
    } else {
        match mode {
            Mode::Forward => if looped {
                t % d
            } else if t <= d {
                t
            } else {
                d
            },
            Mode::Reverse => if looped {
                d - t % d
            } else if d - t >= 0 {
                d - t
            } else {
                0
            },
            Mode::Bounce => if looped {
                let c = t % (2 * d);
                if c <= d {
                    c
                } else {
                    2 * d - c
                }
            } else if t <= d {
                t
            } else if t <= 2 * d {
                2 * d - t
            } else {
                0
            },
            Mode::ReverseBounce => if looped {
                let c = t % (2 * d);
                if c <= d {
                    d - c
                } else {
                    c - d
                }
            } else if t <= d {
                d - t
            } else if t <= 2 * d {
                t - d
            } else {
                d
            },
        }
    }
}

impl Mode {
    /// The point of an animation of length `duration` to show at `time`.
    /// A non-positive duration always gives 0.
    pub fn next_frame(&self, time: i64, duration: i64, loop_animation: bool) -> (r: i64)
        requires
            time >= 0,
        ensures
            r == position(*self, time as int, duration as int, loop_animation),
            duration <= 0 ==> r == 0,
            duration > 0 ==> 0 <= r <= duration,
    {
        if duration <= 0 {
            return 0;
        }
        match self {
            Mode::Forward => {
                if loop_animation {
                    time % duration
                } else if time <= duration {
                    time
                } else {
                    duration
                }
            },
            Mode::Reverse => {
                if loop_animation {
                    duration - time % duration
                } else if time <= duration {
                    duration - time
                } else {
                    0
                }
            },
            Mode::Bounce => {
                let cycle: i128 = 2 * (duration as i128);
                let t: i128 = time as i128;
                if loop_animation {
                    let c: i128 = t % cycle;
                    if c <= duration as i128 {
                        c as i64
                    } else {
                        (cycle - c) as i64
                    }
                } else if t <= duration as i128 {
                    time
                } else if t <= cycle {
                    (cycle - t) as i64
                } else {
                    0
                }
            },
            Mode::ReverseBounce => {
                let cycle: i128 = 2 * (duration as i128);
                let t: i128 = time as i128;
                if loop_animation {
                    let c: i128 = t % cycle;
                    if c <= duration as i128 {
                        (duration as i128 - c) as i64
                    } else {
                        (c - duration as i128) as i64
                    }
                } else if t <= duration as i128 {
                    duration - time
                } else if t <= cycle {
                    (t - duration as i128) as i64
                } else {
                    duration
                }
            },
        }
    }
}

/// The frame shown at point `t` of an animation of length `d` with `total`
/// frames: `t / d * total`, or frame 0 when the animation has no length.
pub open spec fn frame_of(t: int, d: int, total: int) -> Ratio {
    if d > 0 {
        Ratio { num: (t * total) as i128, den: d as i128 }
    } else {
        Ratio { num: 0, den: 1 }
    }
}

/// The frame to show at point `animation_time` of an animation that lasts
/// `duration` and has `total_frames` frames.
pub fn frame_number(animation_time: i64, duration: i64, total_frames: i64) -> (r: Ratio)
    ensures
        r == frame_of(animation_time as int, duration as int, total_frames as int),
        r.wf(),
        duration > 0 ==> r.has_value(animation_time * total_frames, duration as int),
{
    if duration > 0 {
        let t: i128 = animation_time as i128;
        let n: i128 = total_frames as i128;
        let ghost m: int = 0x8000_0000_0000_0000;
        assert(-(m * m) <= t * n <= m * m) by (nonlinear_arith)
            requires
                -m <= t <= m,
                -m <= n <= m,
        ;
        Ratio { num: t * n, den: duration as i128 }
    } else {
        Ratio { num: 0, den: 1 }
    }
}

/// Forward playback without looping ends exactly at the end of the
/// animation, and with looping it repeats with the animation's length.
pub proof fn lemma_forward_end_and_period(t: int, d: int)
    requires
        d > 0,
        t >= 0,
    ensures
        position(Mode::Forward, d, d, false) == d,
        position(Mode::Forward, t, d, true) == position(Mode::Forward, t + d, d, true),
{
    vstd::arithmetic::div_mod::lemma_mod_add_multiples_vanish(t, d);
}

/// Whatever the mode and the loop flag, an animation without positive
/// length is always shown at its start.
pub proof fn lemma_empty_duration(mode: Mode, t: int, d: int, looped: bool)
    requires
        d <= 0,
    ensures
        position(mode, t, d, looped) == 0,
{
}

/// Without looping, bouncing playback is symmetric over its cycle: times
/// `t` and `2d - t` show the same point.
pub proof fn lemma_bounce_symmetry(t: int, d: int)
    requires
        0 <= t <= 2 * d,
    ensures
        position(Mode::Bounce, t, d, false) == position(Mode::Bounce, 2 * d - t, d, false),
{
}

/// Reverse bouncing shows the mirror image of bouncing: the two positions
/// always add up to the animation's length.
pub proof fn lemma_reverse_bounce_mirrors_bounce(t: int, d: int, looped: bool)
    requires
        t >= 0,
        d >= 0,
    ensures
        position(Mode::ReverseBounce, t, d, looped) == d - position(Mode::Bounce, t, d, looped),
{
}

/// Configuration name of [`Mode::Forward`].
pub const MODE_FORWARD: &'static str = "forward";

/// Configuration name of [`Mode::Reverse`].
pub const MODE_REVERSE: &'static str = "reverse";

/// Configuration name of [`Mode::Bounce`].
pub const MODE_BOUNCE: &'static str = "bounce";

/// Configuration name of [`Mode::ReverseBounce`].
pub const MODE_REVERSE_BOUNCE: &'static str = "reverse-bounce";

/// The mode that a configuration name selects; an unknown name selects
/// forward playback.
pub open spec fn mode_named(name: Seq<char>) -> Mode {
    if name == MODE_FORWARD@ {
        Mode::Forward
    } else if name == MODE_REVERSE@ {
        Mode::Reverse
    } else if name == MODE_BOUNCE@ {
        Mode::Bounce
    } else if name == MODE_REVERSE_BOUNCE@ {
        Mode::ReverseBounce
    } else {
        Mode::Forward
    }
}

/// The configuration name of a mode.
pub open spec fn mode_name(mode: Mode) -> &'static str {
    match mode {
        Mode::Forward => MODE_FORWARD,
        Mode::Reverse => MODE_REVERSE,
        Mode::Bounce => MODE_BOUNCE,
        Mode::ReverseBounce => MODE_REVERSE_BOUNCE,
    }
}

impl<'a> From<&'a str> for Mode {
    fn from(value: &'a str) -> (r: Mode)
        ensures
            r == mode_named(value@),
    {
        if same_text(value, MODE_FORWARD) {
            Mode::Forward
        } else if same_text(value, MODE_REVERSE) {
            Mode::Reverse
        } else if same_text(value, MODE_BOUNCE) {
            Mode::Bounce
        } else if same_text(value, MODE_REVERSE_BOUNCE) {
            Mode::ReverseBounce
        } else {
            Mode::Forward
        }
    }
}

impl<'a> vstd::std_specs::convert::FromSpecImpl<&'a str> for Mode {
    open spec fn obeys_from_spec() -> bool {
        true
    }

    open spec fn from_spec(v: &'a str) -> Mode {
        mode_named(v@)
    }
}

impl From<Mode> for &'static str {
    fn from(mode: Mode) -> (r: &'static str)
        ensures
            r == mode_name(mode),
    {
        match mode {
            Mode::Forward => MODE_FORWARD,
            Mode::Reverse => MODE_REVERSE,
            Mode::Bounce => MODE_BOUNCE,
            Mode::ReverseBounce => MODE_REVERSE_BOUNCE,
        }
    }
}

impl vstd::std_specs::convert::FromSpecImpl<Mode> for &'static str {
    open spec fn obeys_from_spec() -> bool {
        true
    }

    open spec fn from_spec(v: Mode) -> &'static str {
        mode_name(v)
    }
}

/// Reading back the name of a mode gives the same mode.
pub proof fn lemma_mode_name_round_trip(mode: Mode)
    ensures
        mode_named(mode_name(mode)@) == mode,
{
    reveal_strlit("forward");
    reveal_strlit("reverse");
    reveal_strlit("bounce");
    reveal_strlit("reverse-bounce");
    assert(MODE_REVERSE@[0] != MODE_FORWARD@[0]);
    assert(MODE_BOUNCE@.len() != MODE_FORWARD@.len());
    assert(MODE_BOUNCE@ != MODE_REVERSE@);
    assert(MODE_REVERSE_BOUNCE@.len() != MODE_FORWARD@.len());
    assert(MODE_REVERSE_BOUNCE@.len() != MODE_BOUNCE@.len());
}

} // verus!
