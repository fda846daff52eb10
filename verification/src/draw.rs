//! The refresh scheduler: which refresh of the panel each update calls for.
//!
//! The scheduler never touches the panel. Each of its operations changes the
//! scheduler's own state and returns the refreshes that the caller is to carry
//! out, in order.

use vstd::prelude::*;
use crate::dirty::{absorbed, absorbed_all, push_to_dirty_rect_list};
use crate::geom::Rectangle;

verus! {

/// Number of region-local frames after which the next one refreshes in full.
pub const MAX_DIRTY_REFRESHES: usize = 500;

/// A region is refreshed in fast monochrome only where its width and its
/// height are both below this.
pub const FAST_MONO_LIMIT: u32 = 100;

/// Time without a draw, in milliseconds, after which the regions drawn since
/// the last full refresh are refreshed in full.
pub const QUIET_PERIOD_MS: u64 = 3000;

/// How the panel refreshes a region.
#[derive(Clone, Copy, Debug, PartialEq, Eq, Structural)]
pub enum UpdateMode {
    /// Slow, clears ghosting.
    Full,
    /// Local to the region.
    Partial,
    /// Local to the region, faster and of lower fidelity.
    FastMono,
}

/// One refresh of the panel: the region and the mode.
#[derive(Clone, Copy, Debug, PartialEq, Eq, Structural)]
pub struct Commit {
    pub rect: Rectangle,
    pub mode: UpdateMode,
}

/// The region-local mode for a rectangle.
pub open spec fn mode_for(rect: Rectangle) -> UpdateMode {
    if rect.spec_height() < FAST_MONO_LIMIT && rect.spec_width() < FAST_MONO_LIMIT {
        UpdateMode::FastMono
    } else {
        UpdateMode::Partial
    }
}

/// A full refresh of each rectangle, in order.
pub open spec fn full_commits(rects: Seq<Rectangle>) -> Seq<Commit> {
    Seq::new(rects.len(), |i: int| Commit { rect: rects[i], mode: UpdateMode::Full })
}

/// A region-local refresh of each rectangle, in order.
pub open spec fn region_commits(rects: Seq<Rectangle>) -> Seq<Commit> {
    Seq::new(rects.len(), |i: int| Commit { rect: rects[i], mode: mode_for(rects[i]) })
}

/// The frame that ends after `count` region-local frames goes over the
/// ceiling.
pub open spec fn ceiling_reached(count: int) -> bool {
    count + 1 > MAX_DIRTY_REFRESHES
}

/// The counter after `frames` frames have ended, starting from `count`, with
/// no update of the whole panel in between.
pub open spec fn count_after_frames(count: int, frames: nat) -> int
    decreases frames,
{
    if frames == 0 {
        count
    } else {
        let before = count_after_frames(count, (frames - 1) as nat);
        if ceiling_reached(before) {
            0
        } else {
            before + 1
        }
    }
}

/// Chooses fast monochrome for a region that is small on both axes, and a
/// partial refresh for any other.
pub fn region_mode(rect: &Rectangle) -> (mode: UpdateMode)
    ensures
        mode == mode_for(*rect),
        mode != UpdateMode::Full,
{
    if rect.height() < FAST_MONO_LIMIT && rect.width() < FAST_MONO_LIMIT {
        UpdateMode::FastMono
    } else {
        UpdateMode::Partial
    }
}

/// State of the scheduler.
pub struct Draw {
    /// Regions updated in the current frame, not drawn yet.
    pub dirty_rects: Vec<Rectangle>,
    /// Regions drawn region-locally since the last full refresh.
    pub dirty_rects_since_refresh: Vec<Rectangle>,
    /// Whether anything has been painted yet.
    pub has_drawn_once: bool,
    /// Frames ended since the last full refresh.
    pub dirty_update_count: usize,
    /// Clock reading of the last region-local draw, in milliseconds.
    pub time_at_last_draw: u64,
}

/// The scheduler's state as plain values.
pub struct DrawView {
    pub dirty_rects: Seq<Rectangle>,
    pub dirty_rects_since_refresh: Seq<Rectangle>,
    pub has_drawn_once: bool,
    pub dirty_update_count: int,
    pub time_at_last_draw: u64,
}

impl View for Draw {
    type V = DrawView;

    open spec fn view(&self) -> DrawView {
        DrawView {
            dirty_rects: self.dirty_rects@,
            dirty_rects_since_refresh: self.dirty_rects_since_refresh@,
            has_drawn_once: self.has_drawn_once,
            dirty_update_count: self.dirty_update_count as int,
            time_at_last_draw: self.time_at_last_draw,
        }
    }
}

impl DrawView {
    /// The state of a scheduler that has painted nothing.
    pub open spec fn initial(now: u64) -> DrawView {
        DrawView {
            dirty_rects: Seq::empty(),
            dirty_rects_since_refresh: Seq::empty(),
            has_drawn_once: false,
            dirty_update_count: 0,
            time_at_last_draw: now,
        }
    }

    /// An update of the whole panel refreshes it in full: nothing has been
    /// painted yet, or the counter is over the ceiling.
    pub open spec fn update_is_full(self) -> bool {
        !self.has_drawn_once || self.dirty_update_count > MAX_DIRTY_REFRESHES
    }

    /// The refresh that an update of the whole panel `fb_rect` calls for.
    pub open spec fn update_commit(self, fb_rect: Rectangle) -> Commit {
        Commit {
            rect: fb_rect,
            mode: if self.update_is_full() {
                UpdateMode::Full
            } else {
                UpdateMode::Partial
            },
        }
    }

    /// The state after an update of the whole panel.
    pub open spec fn updated(self) -> DrawView {
        DrawView {
            dirty_rects: Seq::empty(),
            dirty_rects_since_refresh: Seq::empty(),
            has_drawn_once: true,
            dirty_update_count: if self.update_is_full() {
                0
            } else {
                self.dirty_update_count
            },
            time_at_last_draw: self.time_at_last_draw,
        }
    }

    /// The state after `rect` has been merged into the regions of the
    /// current frame.
    pub open spec fn marked(self, rect: Rectangle) -> DrawView {
        DrawView { dirty_rects: absorbed(self.dirty_rects, rect), ..self }
    }

    /// The state after the regions drawn since the last full refresh have
    /// been refreshed in full.
    pub open spec fn refreshed(self) -> DrawView {
        DrawView { dirty_rects_since_refresh: Seq::empty(), dirty_update_count: 0, ..self }
    }

    /// The refreshes that the end of a frame calls for.
    pub open spec fn frame_commits(self) -> Seq<Commit> {
        if ceiling_reached(self.dirty_update_count) {
            full_commits(self.dirty_rects_since_refresh)
        } else {
            region_commits(self.dirty_rects)
        }
    }

    /// The state after a frame has ended at clock reading `now`.
    pub open spec fn frame_ended(self, now: u64) -> DrawView {
        let painted = self.has_drawn_once || self.dirty_rects.len() > 0;
        if ceiling_reached(self.dirty_update_count) {
            DrawView {
                dirty_rects: Seq::empty(),
                dirty_rects_since_refresh: Seq::empty(),
                has_drawn_once: painted,
                dirty_update_count: 0,
                time_at_last_draw: self.time_at_last_draw,
            }
        } else {
            DrawView {
                dirty_rects: Seq::empty(),
                dirty_rects_since_refresh: absorbed_all(
                    self.dirty_rects_since_refresh,
                    self.dirty_rects,
                ),
                has_drawn_once: painted,
                dirty_update_count: self.dirty_update_count + 1,
                time_at_last_draw: now,
            }
        }
    }

    /// The regions drawn since the last full refresh are due for one: there
    /// are some, and more than the quiet period has passed since the last
    /// draw.
    pub open spec fn idle_refresh_due(self, now: u64) -> bool {
        self.dirty_rects_since_refresh.len() > 0 && now - self.time_at_last_draw
            > QUIET_PERIOD_MS
    }

    /// The refreshes that an idle panel calls for at clock reading `now`.
    pub open spec fn idle_commits(self, now: u64) -> Seq<Commit> {
        if self.idle_refresh_due(now) {
            full_commits(self.dirty_rects_since_refresh)
        } else {
            Seq::empty()
        }
    }

    /// The state after the idle panel has been looked after.
    pub open spec fn idle_refreshed(self, now: u64) -> DrawView {
        if self.idle_refresh_due(now) {
            self.refreshed()
        } else {
            self
        }
    }
}

/// Some refresh in the list is a full one.
pub open spec fn has_full(commits: Seq<Commit>) -> bool {
    exists|i: int| 0 <= i < commits.len() && (#[trigger] commits[i]).mode == UpdateMode::Full
}

impl Draw {
    /// A scheduler that has painted nothing, created at clock reading `now`.
    pub fn new(now: u64) -> (draw: Draw)
        ensures
            draw@ == DrawView::initial(now),
    {
        Draw {
            dirty_rects: Vec::new(),
            dirty_rects_since_refresh: Vec::new(),
            has_drawn_once: false,
            dirty_update_count: 0,
            time_at_last_draw: now,
        }
    }

    /// An update has covered the whole panel `fb_rect`. Both lists are
    /// cleared. The panel is refreshed in full on the first paint and once the
    /// counter is over the ceiling, which resets the counter; else partially.
    pub fn update(&mut self, fb_rect: Rectangle) -> (commit: Commit)
        ensures
            commit == old(self)@.update_commit(fb_rect),
            final(self)@ == old(self)@.updated(),
            commit.mode == UpdateMode::Full ==> final(self).dirty_update_count == 0,
            final(self).has_drawn_once,
    {
        self.dirty_rects.clear();
        self.dirty_rects_since_refresh.clear();
        if !self.has_drawn_once || self.dirty_update_count > MAX_DIRTY_REFRESHES {
            self.dirty_update_count = 0;
            self.has_drawn_once = true;
            Commit { rect: fb_rect, mode: UpdateMode::Full }
        } else {
            Commit { rect: fb_rect, mode: UpdateMode::Partial }
        }
    }

    /// Refreshes in full every region drawn since the last full refresh,
    /// resets the counter and forgets those regions.
    pub fn refresh(&mut self) -> (commits: Vec<Commit>)
        ensures
            commits@ == full_commits(old(self)@.dirty_rects_since_refresh),
            final(self)@ == old(self)@.refreshed(),
            final(self).dirty_update_count == 0,
    {
        let mut commits: Vec<Commit> = Vec::new();
        let n = self.dirty_rects_since_refresh.len();
        let mut i: usize = 0;
        while i < n
            invariant
                *self == *old(self),
                n == self.dirty_rects_since_refresh@.len(),
                i <= n,
                commits@.len() == i,
                forall|j: int|
                    0 <= j < i ==> commits@[j] == (Commit {
                        rect: self.dirty_rects_since_refresh@[j],
                        mode: UpdateMode::Full,
                    }),
            decreases n - i,
        {
            let dr = self.dirty_rects_since_refresh[i];
            commits.push(Commit { rect: dr, mode: UpdateMode::Full });
            i += 1;
        }
        assert(commits@ =~= full_commits(old(self)@.dirty_rects_since_refresh));
        self.dirty_update_count = 0;
        self.dirty_rects_since_refresh.clear();
        commits
    }

    /// A frame has ended at clock reading `now`. The counter goes up by one.
    /// Over the ceiling, the regions drawn since the last full refresh are
    /// refreshed in full and the counter starts again at zero. Else each
    /// region of the frame is refreshed region-locally and merged into the
    /// regions drawn since the last full refresh, and `now` is recorded as the
    /// time of the last draw. Either way the frame's regions are forgotten.
    pub fn draw_end(&mut self, now: u64) -> (commits: Vec<Commit>)
        ensures
            commits@ == old(self)@.frame_commits(),
            final(self)@ == old(self)@.frame_ended(now),
            final(self).dirty_update_count == count_after_frames(
                old(self).dirty_update_count as int,
                1,
            ),
            has_full(commits@) ==> final(self).dirty_update_count == 0,
            final(self).dirty_update_count <= MAX_DIRTY_REFRESHES,
    {
        if !self.has_drawn_once {
            self.has_drawn_once = self.dirty_rects.len() > 0;
        }
        assert(count_after_frames(old(self).dirty_update_count as int, 1) == if ceiling_reached(
            old(self).dirty_update_count as int,
        ) {
            0
        } else {
            old(self).dirty_update_count + 1
        }) by {
            reveal_with_fuel(count_after_frames, 2);
        }
        let mut commits: Vec<Commit>;
        if self.dirty_update_count >= MAX_DIRTY_REFRESHES {
            commits = self.refresh();
        } else {
            self.dirty_update_count += 1;
            commits = Vec::new();
            let n = self.dirty_rects.len();
            let mut i: usize = 0;
            while i < n
                invariant
                    self.dirty_rects@ == old(self).dirty_rects@,
                    self.has_drawn_once == (old(self).has_drawn_once || old(
                        self,
                    ).dirty_rects@.len() > 0),
                    self.dirty_update_count == old(self).dirty_update_count + 1,
                    self.time_at_last_draw == old(self).time_at_last_draw,
                    n == self.dirty_rects@.len(),
                    i <= n,
                    self.dirty_rects_since_refresh@ == absorbed_all(
                        old(self).dirty_rects_since_refresh@,
                        old(self).dirty_rects@.take(i as int),
                    ),
                    commits@.len() == i,
                    forall|j: int|
                        0 <= j < i ==> commits@[j] == (Commit {
                            rect: self.dirty_rects@[j],
                            mode: mode_for(self.dirty_rects@[j]),
                        }),
                decreases n - i,
            {
                let dr = self.dirty_rects[i];
                let mode = region_mode(&dr);
                commits.push(Commit { rect: dr, mode });
                push_to_dirty_rect_list(&mut self.dirty_rects_since_refresh, dr);
                proof {
                    let rects = old(self).dirty_rects@;
                    assert(rects.take(i + 1).drop_last() =~= rects.take(i as int));
                    assert(rects.take(i + 1).last() == rects[i as int]);
                }
                i += 1;
            }
            proof {
                let rects = old(self).dirty_rects@;
                assert(rects.take(n as int) =~= rects);
                assert(commits@ =~= region_commits(rects));
            }
            self.time_at_last_draw = now;
        }
        self.dirty_rects.clear();
        commits
    }

    /// Refreshes in full the regions drawn since the last full refresh where
    /// that is due at clock reading `now`, and does nothing where it is not.
    pub fn idle_refresh(&mut self, now: u64) -> (commits: Vec<Commit>)
        ensures
            commits@ == old(self)@.idle_commits(now),
            final(self)@ == old(self)@.idle_refreshed(now),
            has_full(commits@) ==> final(self).dirty_update_count == 0,
    {
        if self.dirty_rects_since_refresh.len() > 0 && now > self.time_at_last_draw && now
            - self.time_at_last_draw > QUIET_PERIOD_MS {
            self.refresh()
        } else {
            Vec::new()
        }
    }
}

/// The counter goes back to zero only where the panel, or the regions drawn
/// since the last full refresh, are refreshed in full.
pub proof fn lemma_counter_resets_only_with_full_refresh(draw: DrawView, now: u64)
    requires
        draw.dirty_update_count > 0,
    ensures
        draw.updated().dirty_update_count == 0 <==> draw.update_is_full(),
        draw.frame_ended(now).dirty_update_count == 0 <==> ceiling_reached(
            draw.dirty_update_count,
        ),
        draw.idle_refreshed(now).dirty_update_count == 0 <==> draw.idle_refresh_due(now),
        draw.refreshed().dirty_update_count == 0,
{
}

/// Starting after a full refresh, each of the first frames up to the ceiling
/// raises the counter by one, and the frame after them resets it: that frame
/// refreshes in full.
pub proof fn lemma_ceiling_bounds_region_frames(frames: nat)
    requires
        frames <= MAX_DIRTY_REFRESHES,
    ensures
        count_after_frames(0, frames) == frames,
        frames < MAX_DIRTY_REFRESHES ==> !ceiling_reached(count_after_frames(0, frames)),
        frames == MAX_DIRTY_REFRESHES ==> ceiling_reached(count_after_frames(0, frames))
            && count_after_frames(0, frames + 1) == 0,
    decreases frames,
{
    if frames > 0 {
        lemma_ceiling_bounds_region_frames((frames - 1) as nat);
    }
    reveal_with_fuel(count_after_frames, 2);
}

} // verus!
