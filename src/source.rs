//! The decisions of a frame source between ticks: when to load the
//! animation, when to recompute the layout, and which frame to show.
use vstd::prelude::*;

use crate::fit::{layout_of, Anchor, Fit, Layout, LayoutResult};
use crate::mode::{frame_number, frame_of, position, Mode};
use crate::ratio::Ratio;

verus! {

/// What a tick has to do, once the output frame is bound.
#[derive(Clone, Copy, Debug, PartialEq, Eq, Structural)]
pub enum Action {
    /// Load the animation; report the outcome with
    /// [`SourceState::finish_initialize`].
    Initialize,
    /// Produce nothing: loading failed earlier.
    Skip,
    /// Draw a frame; first recompute the layout if
    /// [`SourceState::needs_layout`] says so.
    Render,
}

/// The settings of a frame source and where it stands in its life.
#[derive(Clone, Copy, Debug, PartialEq, Eq, Structural)]
pub struct SourceState {
    pub mode: Mode,
    pub loop_animation: bool,
    pub layout: Layout,
    /// The layout changed since the transform was last applied.
    pub recompute_layout: bool,
    /// Loading has been tried.
    pub initialized: bool,
    /// Loading succeeded.
    pub loaded: bool,
}

impl SourceState {
    /// The anchor lies in the unit square.
    pub open spec fn wf(self) -> bool {
        self.layout.anchor.wf()
    }

    /// The action that a tick performs in this state.
    pub open spec fn action_of(self) -> Action {
        if !self.initialized {
            Action::Initialize
        } else if !self.loaded {
            Action::Skip
        } else {
            Action::Render
        }
    }

    /// A source that has loaded nothing yet: forward playback without
    /// looping, contained and centred.
    pub fn new() -> (r: SourceState)
        ensures
            r.wf(),
            r.mode == Mode::Forward,
            !r.loop_animation,
            r.layout == (Layout { fit: Fit::Contain, anchor: Anchor { x: 1, y: 1, den: 2 } }),
            r.recompute_layout,
            !r.initialized,
            !r.loaded,
    {
        SourceState {
            mode: Mode::Forward,
            loop_animation: false,
            layout: Layout::new(),
            recompute_layout: true,
            initialized: false,
            loaded: false,
        }
    }

    /// What the next tick does: load the animation if that was never
    /// tried, nothing if it failed, and draw otherwise.
    pub fn next_action(&self) -> (r: Action)
        ensures
            r == self.action_of(),
    {
        if !self.initialized {
            Action::Initialize
        } else if !self.loaded {
            Action::Skip
        } else {
            Action::Render
        }
    }

    /// Records the outcome of loading the animation. Loading is tried
    /// once: after a failure every later tick is skipped.
    pub fn finish_initialize(&mut self, loaded: bool)
        ensures
            *final(self) == (SourceState { initialized: true, loaded, ..*old(self) }),
            final(self).action_of() == if loaded {
                Action::Render
            } else {
                Action::Skip
            },
    {
        self.initialized = true;
        self.loaded = loaded;
    }

    /// Selects another fit policy; the layout is recomputed before the
    /// next frame is drawn.
    pub fn set_fit(&mut self, fit: Fit)
        ensures
            *final(self) == (SourceState {
                layout: Layout { fit, ..old(self).layout },
                recompute_layout: true,
                ..*old(self)
            }),
    {
        self.layout.fit = fit;
        self.recompute_layout = true;
    }

    /// Selects another anchor; the layout is recomputed before the next
    /// frame is drawn.
    pub fn set_anchor(&mut self, anchor: Anchor)
        requires
            anchor.wf(),
        ensures
            *final(self) == (SourceState {
                layout: Layout { anchor, ..old(self).layout },
                recompute_layout: true,
                ..*old(self)
            }),
    {
        self.layout.anchor = anchor;
        self.recompute_layout = true;
    }

    /// Whether the layout has to be recomputed before the next frame.
    pub fn needs_layout(&self) -> (r: bool)
        ensures
            r == self.recompute_layout,
    {
        self.recompute_layout
    }

    /// The transform of the current layout for content of size
    /// `content_w × content_h` in an output frame of size
    /// `width × height`; `None` when the content has no area.
    pub fn layout_for(&self, width: u32, height: u32, content_w: u32, content_h: u32) -> (r:
        Option<LayoutResult>)
        requires
            self.wf(),
        ensures
            r == if content_w == 0 || content_h == 0 {
                None
            } else {
                Some(layout_of(self.layout, width, height, content_w, content_h))
            },
    {
        self.layout.compute(width, height, content_w, content_h)
    }

    /// Records that the transform of the current layout has been applied.
    pub fn layout_applied(&mut self)
        ensures
            *final(self) == (SourceState { recompute_layout: false, ..*old(self) }),
    {
        self.recompute_layout = false;
    }

    /// The frame to show at `time` for an animation that lasts `duration`
    /// and has `total_frames` frames, under the current mode and loop flag.
    pub fn frame_at(&self, time: i64, duration: i64, total_frames: i64) -> (r: Ratio)
        requires
            time >= 0,
        ensures
            r == frame_of(
                position(self.mode, time as int, duration as int, self.loop_animation),
                duration as int,
                total_frames as int,
            ),
    {
        let point = self.mode.next_frame(time, duration, self.loop_animation);
        frame_number(point, duration, total_frames)
    }
}

} // verus!
