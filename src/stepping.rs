//! The frame-stepping rule: playback advanced by a fixed step on each
//! output tick, with an explicit direction.
use vstd::prelude::*;

use crate::mode::Mode;

verus! {

/// The way the current frame moves on the next tick.
#[derive(Clone, Copy, Debug, PartialEq, Eq, Structural)]
pub enum Direction {
    Forward,
    Reverse,
}

/// Where stepped playback stands: the current frame and the direction in
/// which it moves.
#[derive(Clone, Copy, Debug, PartialEq, Eq, Structural)]
pub struct PlaybackState {
    pub current_frame: i64,
    pub direction: Direction,
}

/// The frame that one step in the state's direction reaches.
pub open spec fn stepped(s: PlaybackState, step: int) -> int {
    match s.direction {
        Direction::Forward => s.current_frame + step,
        Direction::Reverse => s.current_frame - step,
    }
}

/// A state at `frame`, moving in `direction`.
pub open spec fn at(frame: int, direction: Direction) -> PlaybackState {
    PlaybackState { current_frame: frame as i64, direction }
}

/// The state after one tick of `mode` over the frames `start..=end`.
pub open spec fn next_state(
    s: PlaybackState,
    mode: Mode,
    step: int,
    start: int,
    end: int,
    looped: bool,
) -> PlaybackState {
    let n = stepped(s, step);
    match mode {
        Mode::Forward => if n >= end {
            if looped {
                at(start, Direction::Forward)
            } else {
                at(end, Direction::Forward)
            }
        } else {
            at(n, Direction::Forward)
        },
        Mode::Reverse => if n <= start {
            if looped {
                at(end, Direction::Reverse)
            } else {
                at(start, Direction::Reverse)
            }
        } else {
            at(n, Direction::Reverse)
        },
        Mode::Bounce => if s.direction == Direction::Forward && n >= end {
            at(end, Direction::Reverse)
        } else if s.direction == Direction::Reverse && n <= start {
            if looped {
                at(start, Direction::Forward)
            } else {
                at(start, Direction::Reverse)
            }
        } else {
            at(n, s.direction)
        },
        Mode::ReverseBounce => if s.direction == Direction::Reverse && n <= start {
            at(start, Direction::Forward)
        } else if s.direction == Direction::Forward && n >= end {
            if looped {
                at(end, Direction::Reverse)
            } else {
                at(end, Direction::Forward)
            }
        } else {
            at(n, s.direction)
        },
    }
}

impl PlaybackState {
    /// The state in which stepped playback begins: at `start_frame`,
    /// moving forward.
    pub fn new(start_frame: i64) -> (r: PlaybackState)
        ensures
            r == at(start_frame as int, Direction::Forward),
    {
        PlaybackState { current_frame: start_frame, direction: Direction::Forward }
    }

    /// The state after one tick that moves `frame_step` frames in the
    /// current direction, turning, wrapping or stopping at the ends of
    /// `start_frame..=end_frame` as `mode` and `loop_animation` say.
    pub fn advance(
        &self,
        mode: Mode,
        frame_step: i64,
        start_frame: i64,
        end_frame: i64,
        loop_animation: bool,
    ) -> (r: PlaybackState)
        requires
            start_frame <= end_frame,
            i64::MIN <= self.current_frame + frame_step <= i64::MAX,
            i64::MIN <= self.current_frame - frame_step <= i64::MAX,
        ensures
            r == next_state(
                *self,
                mode,
                frame_step as int,
                start_frame as int,
                end_frame as int,
                loop_animation,
            ),
    {
        let next = match self.direction {
            Direction::Forward => self.current_frame + frame_step,
            Direction::Reverse => self.current_frame - frame_step,
        };
        let forward = match self.direction {
            Direction::Forward => true,
            Direction::Reverse => false,
        };
        match mode {
            Mode::Forward => {
                if next >= end_frame {
                    if loop_animation {
                        PlaybackState::new(start_frame)
                    } else {
                        PlaybackState { current_frame: end_frame, direction: Direction::Forward }
                    }
                } else {
                    PlaybackState { current_frame: next, direction: Direction::Forward }
                }
            },
            Mode::Reverse => {
                if next <= start_frame {
                    if loop_animation {
                        PlaybackState { current_frame: end_frame, direction: Direction::Reverse }
                    } else {
                        PlaybackState { current_frame: start_frame, direction: Direction::Reverse }
                    }
                } else {
                    PlaybackState { current_frame: next, direction: Direction::Reverse }
                }
            },
            Mode::Bounce => {
                if forward && next >= end_frame {
                    PlaybackState { current_frame: end_frame, direction: Direction::Reverse }
                } else if !forward && next <= start_frame {
                    if loop_animation {
                        PlaybackState::new(start_frame)
                    } else {
                        PlaybackState { current_frame: start_frame, direction: Direction::Reverse }
                    }
                } else {
                    PlaybackState { current_frame: next, direction: self.direction }
                }
            },
            Mode::ReverseBounce => {
                if !forward && next <= start_frame {
                    PlaybackState::new(start_frame)
                } else if forward && next >= end_frame {
                    if loop_animation {
                        PlaybackState { current_frame: end_frame, direction: Direction::Reverse }
                    } else {
                        PlaybackState { current_frame: end_frame, direction: Direction::Forward }
                    }
                } else {
                    PlaybackState { current_frame: next, direction: self.direction }
                }
            },
        }
    }
}

/// Forward stepping without looping moves towards the last frame, never
/// past it, and once there it stays there.
pub proof fn lemma_forward_steps_to_end(s: PlaybackState, step: i64, start: i64, end: i64)
    requires
        s.direction == Direction::Forward,
        step >= 0,
        start <= end,
        s.current_frame <= end,
    ensures
        ({
            let r = next_state(s, Mode::Forward, step as int, start as int, end as int, false);
            &&& s.current_frame <= r.current_frame <= end
            &&& r.direction == Direction::Forward
            &&& step > 0 && s.current_frame < end ==> s.current_frame < r.current_frame
            &&& s.current_frame == end ==> r == s
        }),
{
}

/// Bouncing always turns back at the last frame, looped or not; only at
/// the first frame does the loop flag matter: looping turns forward again,
/// otherwise playback stays there.
pub proof fn lemma_bounce_turns_at_end(s: PlaybackState, step: i64, start: i64, end: i64)
    requires
        start <= end,
    ensures
        ({
            let looped = next_state(s, Mode::Bounce, step as int, start as int, end as int, true);
            let once = next_state(s, Mode::Bounce, step as int, start as int, end as int, false);
            &&& s.direction == Direction::Forward && stepped(s, step as int) >= end ==> {
                &&& looped == at(end as int, Direction::Reverse)
                &&& once == at(end as int, Direction::Reverse)
            }
            &&& s.direction == Direction::Reverse && stepped(s, step as int) <= start ==> {
                &&& looped == at(start as int, Direction::Forward)
                &&& once == at(start as int, Direction::Reverse)
            }
        }),
{
}

} // verus!
