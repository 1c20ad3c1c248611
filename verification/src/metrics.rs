//! Frame-scoped rendering counters.

use vstd::prelude::*;

verus! {

/// Counts draw calls and sprites drawn or skipped during the current frame,
/// plus a tick counter that paces periodic reporting.
pub struct Metrics {
    draw_calls: usize,
    sprites_drawn: usize,
    sprites_skipped: usize,
    ticks: usize,
}

impl Metrics {
    /// Draw calls issued this frame.
    pub closed spec fn spec_draw_calls(self) -> int {
        self.draw_calls as int
    }

    /// Sprites drawn this frame.
    pub closed spec fn spec_sprites_drawn(self) -> int {
        self.sprites_drawn as int
    }

    /// Sprites skipped this frame because their image was not ready.
    pub closed spec fn spec_sprites_skipped(self) -> int {
        self.sprites_skipped as int
    }

    /// Ticks counted since the last periodic report.
    pub closed spec fn spec_ticks(self) -> int {
        self.ticks as int
    }

    /// Creates a fresh set of counters. The tick counter starts one short
    /// of the reporting period, so the first tick already reports.
    pub fn new() -> (m: Metrics)
        ensures
            m.spec_draw_calls() == 0,
            m.spec_sprites_drawn() == 0,
            m.spec_sprites_skipped() == 0,
            m.spec_ticks() == 99,
    {
        Metrics { draw_calls: 0, sprites_drawn: 0, sprites_skipped: 0, ticks: 99 }
    }

    /// Resets the per-frame counters; the tick counter keeps running.
    pub fn reset(&mut self)
        ensures
            final(self).spec_draw_calls() == 0,
            final(self).spec_sprites_drawn() == 0,
            final(self).spec_sprites_skipped() == 0,
            final(self).spec_ticks() == old(self).spec_ticks(),
    {
        self.draw_calls = 0;
        self.sprites_drawn = 0;
        self.sprites_skipped = 0;
    }

    /// Adds to the draw-call count.
    pub fn add_draw_calls(&mut self, draw_calls: usize)
        requires
            old(self).spec_draw_calls() + draw_calls <= usize::MAX,
        ensures
            final(self).spec_draw_calls() == old(self).spec_draw_calls() + draw_calls,
            final(self).spec_sprites_drawn() == old(self).spec_sprites_drawn(),
            final(self).spec_sprites_skipped() == old(self).spec_sprites_skipped(),
            final(self).spec_ticks() == old(self).spec_ticks(),
    {
        self.draw_calls = self.draw_calls + draw_calls;
    }

    /// Adds to the count of sprites drawn.
    pub fn add_sprites_drawn(&mut self, sprites_drawn: usize)
        requires
            old(self).spec_sprites_drawn() + sprites_drawn <= usize::MAX,
        ensures
            final(self).spec_sprites_drawn() == old(self).spec_sprites_drawn() + sprites_drawn,
            final(self).spec_draw_calls() == old(self).spec_draw_calls(),
            final(self).spec_sprites_skipped() == old(self).spec_sprites_skipped(),
            final(self).spec_ticks() == old(self).spec_ticks(),
    {
        self.sprites_drawn = self.sprites_drawn + sprites_drawn;
    }

    /// Adds to the count of sprites skipped.
    pub fn add_sprites_skipped(&mut self, sprites_skipped: usize)
        requires
            old(self).spec_sprites_skipped() + sprites_skipped <= usize::MAX,
        ensures
            final(self).spec_sprites_skipped()
                == old(self).spec_sprites_skipped() + sprites_skipped,
            final(self).spec_draw_calls() == old(self).spec_draw_calls(),
            final(self).spec_sprites_drawn() == old(self).spec_sprites_drawn(),
            final(self).spec_ticks() == old(self).spec_ticks(),
    {
        self.sprites_skipped = self.sprites_skipped + sprites_skipped;
    }

    /// Advances the tick counter and reports whether a periodic summary is
    /// due: every hundredth tick the counter wraps to zero and the caller
    /// should emit its report.
    pub fn tick(&mut self) -> (report: bool)
        ensures
            old(self).spec_ticks() >= 98 ==> report && final(self).spec_ticks() == 0,
            old(self).spec_ticks() < 98 ==> !report
                && final(self).spec_ticks() == old(self).spec_ticks() + 1,
            final(self).spec_draw_calls() == old(self).spec_draw_calls(),
            final(self).spec_sprites_drawn() == old(self).spec_sprites_drawn(),
            final(self).spec_sprites_skipped() == old(self).spec_sprites_skipped(),
    {
        if self.ticks >= 98 {
            self.ticks = 0;
            true
        } else {
            self.ticks = self.ticks + 1;
            false
        }
    }

    /// Draw calls issued this frame.
    pub fn draw_calls(&self) -> (n: usize)
        ensures
            n == self.spec_draw_calls(),
    {
        self.draw_calls
    }

    /// Sprites drawn this frame.
    pub fn sprites_drawn(&self) -> (n: usize)
        ensures
            n == self.spec_sprites_drawn(),
    {
        self.sprites_drawn
    }

    /// Sprites skipped this frame.
    pub fn sprites_skipped(&self) -> (n: usize)
        ensures
            n == self.spec_sprites_skipped(),
    {
        self.sprites_skipped
    }
}

} // verus!
