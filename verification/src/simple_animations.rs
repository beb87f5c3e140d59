//! Frame-index animation: a repeating timer advances a cursor through a
//! list of sprite-sheet frame indices, wrapping at the end.  The render
//! collaborator reads the current frame index; the core only keeps it.

use vstd::prelude::*;
use crate::math::DT_LIMIT;
use crate::timer::{Timer, TimerMode};

verus! {

/// Default delay between animation frames, in milliseconds.
pub const ANIMATION_RATE: u64 = 100;

/// A looping frame sequence and its cadence timer.
#[derive(Debug, PartialEq, Eq)]
pub struct SimpleAnimation {
    pub animation_timer: Timer,
    pub current_frame_index: usize,
    pub frames: Vec<usize>,
}

impl SimpleAnimation {
    pub open spec fn wf(self) -> bool {
        &&& self.animation_timer.wf()
        &&& self.animation_timer.mode == TimerMode::Repeating
        &&& if self.frames@.len() == 0 {
            self.current_frame_index == 0
        } else {
            self.current_frame_index < self.frames@.len()
        }
    }

    /// An animation over `frames` at the default cadence, starting at the
    /// first frame.
    pub fn new(frames: Vec<usize>) -> (r: SimpleAnimation)
        ensures
            r.animation_timer == Timer::spec_fresh(ANIMATION_RATE, TimerMode::Repeating),
            r.current_frame_index == 0,
            r.frames@ == frames@,
            r.wf(),
    {
        SimpleAnimation {
            animation_timer: Timer::from_millis(ANIMATION_RATE, TimerMode::Repeating),
            current_frame_index: 0,
            frames,
        }
    }

    /// Replace the frame list and rewind to its start.
    pub fn set_frames(&mut self, frames: Vec<usize>)
        requires
            old(self).wf(),
        ensures
            final(self).wf(),
            final(self).frames@ == frames@,
            final(self).current_frame_index == 0,
            final(self).animation_timer == (Timer {
                elapsed: 0,
                fired: 0,
                ..old(self).animation_timer
            }),
    {
        self.animation_timer.reset();
        self.current_frame_index = 0;
        self.frames = frames;
    }

    /// One animation tick: each time the cadence timer finishes, the cursor
    /// advances one frame and wraps past the end.
    pub fn animate(&mut self, dt: u64)
        requires
            old(self).wf(),
            dt <= DT_LIMIT,
        ensures
            final(self).wf(),
            final(self).frames@ == old(self).frames@,
            final(self).animation_timer == old(self).animation_timer.spec_tick(dt as int),
            final(self).current_frame_index == if final(self).animation_timer.fired >= 1
                && old(self).frames@.len() > 0 {
                ((old(self).current_frame_index + 1) as int % old(self).frames@.len() as int)
                    as usize
            } else {
                old(self).current_frame_index
            },
    {
        self.animation_timer.tick(dt);
        if self.animation_timer.just_finished() && self.frames.len() > 0 {
            let next: usize = self.current_frame_index + 1;
            self.current_frame_index = if next >= self.frames.len() {
                0
            } else {
                next
            };
            proof {
                if next < self.frames@.len() {
                    vstd::arithmetic::div_mod::lemma_small_mod(next as nat,
                        self.frames@.len() as nat);
                } else {
                    vstd::arithmetic::div_mod::lemma_mod_self_0(self.frames@.len() as int);
                }
            }
        }
    }

    /// The sprite-sheet index the render collaborator should draw now.
    pub fn current_frame(&self) -> (r: usize)
        requires
            self.wf(),
            self.frames@.len() > 0,
        ensures
            r == self.frames@[self.current_frame_index as int],
    {
        self.frames[self.current_frame_index]
    }
}

} // verus!
