//! One session of the client: what each event of the protocol, each touch
//! sample and each tick of the frame clock calls for.
//!
//! The session holds the scheduler and the remap table. The caller polls the
//! protocol and the input device, hands each event in, and carries out what
//! comes back: pixels to set, refreshes of the panel, pointer events.

use vstd::prelude::*;
use crate::draw::{Commit, Draw, DrawView, UpdateMode, has_full};
use crate::dirty::push_to_dirty_rect_list;
use crate::geom::{Point, Rectangle};
use crate::pixmap::{
    PixelWrite,
    is_pixel_writes,
    set_pixel_map_ro,
    spec_delta_rect,
    to_delta_map,
    to_delta_rect,
    to_map,
};
use crate::processing::{
    PostProcBin,
    PostProcConfig,
    lut_value,
    streamline_pixel_color,
    streamlined,
};
use crate::touch::{
    MOUSE_UNKNOWN,
    PointerAction,
    Touch,
    TouchError,
    TouchMessage,
    mouse_btn_to_vnc,
    spec_mouse_btn_to_vnc,
    spec_touch_vnc,
    touch_vnc,
};
use crate::vnc::Rect;

verus! {

/// The time that one tick of the frame clock may take, in milliseconds.
pub const FRAME_MS: u64 = 33;

/// An event of the protocol, decoded.
#[derive(Debug)]
pub enum Event {
    /// The server is gone, with the reason if there is one.
    Disconnected(Option<String>),
    /// New pixel data for a region.
    PutPixels(Rect, Vec<u8>),
    /// A region was copied to another place.
    CopyPixels { src: Rect, dst: Rect },
    /// The server has sent all of a frame.
    EndOfFrame,
    /// An event that the client passes over.
    Other,
}

/// What an event calls for.
#[derive(Debug)]
pub struct Reaction {
    /// Pixels to set on the panel, in order.
    pub writes: Vec<PixelWrite>,
    /// Refreshes of the panel, in order, after the pixels have been set.
    pub commits: Vec<Commit>,
    /// The session is over.
    pub disconnected: bool,
}

/// What the frame clock calls for at the end of a tick.
#[derive(Debug, Clone, Copy, PartialEq, Eq, Structural)]
pub enum Pacing {
    /// The tick was within its time: sleep for the rest of it, in
    /// milliseconds.
    Sleep(u64),
    /// The tick took its whole time or more: go on at once. The excess is in
    /// milliseconds.
    Overrun(u64),
}

/// State of a session.
pub struct Session {
    pub draw: Draw,
    pub post_proc_bin: PostProcBin,
    /// Width of the remote frame buffer and of the panel.
    pub width: u16,
    /// Height of the remote frame buffer and of the panel.
    pub height: u16,
    /// Number of colour channels of the panel.
    pub color_samples: usize,
    /// The button mask that was last sent or is to be sent.
    pub last_button: u8,
    /// Touch input is off: by configuration, or since its reader gave up.
    pub view_only: bool,
}

/// The rectangle of a panel of the given size.
pub open spec fn panel_rect(width: u16, height: u16) -> Rectangle {
    Rectangle { min: Point { x: 0, y: 0 }, max: Point { x: width as i32, y: height as i32 } }
}

/// The scheduler's state after an event, on a panel `panel`, at clock reading
/// `now`.
pub open spec fn draw_after(draw: DrawView, event: &Event, panel: Rectangle, now: u64) -> DrawView {
    match event {
        Event::PutPixels(rect, _) => if spec_delta_rect(*rect) == panel {
            draw.updated()
        } else {
            draw.marked(spec_delta_rect(*rect))
        },
        Event::CopyPixels { src, dst } => draw.marked(spec_delta_rect(*dst)),
        Event::EndOfFrame => draw.frame_ended(now),
        Event::Disconnected(_) => draw,
        Event::Other => draw,
    }
}

/// The refreshes that an event calls for.
pub open spec fn commits_for(draw: DrawView, event: &Event, panel: Rectangle) -> Seq<Commit> {
    match event {
        Event::PutPixels(rect, _) => if spec_delta_rect(*rect) == panel {
            seq![draw.update_commit(panel)]
        } else {
            Seq::empty()
        },
        Event::EndOfFrame => draw.frame_commits(),
        _ => Seq::empty(),
    }
}

/// `writes` is what an event calls for: every pixel of new pixel data, taken
/// from the source stream and remapped through `lut`; nothing for any other
/// event.
pub open spec fn is_writes_for(
    writes: Seq<PixelWrite>,
    event: &Event,
    lut: Seq<u8>,
    color_samples: usize,
) -> bool {
    match event {
        Event::PutPixels(rect, pixels) => is_pixel_writes(
            writes,
            streamlined(pixels@, lut, color_samples),
            rect.width as u32,
            rect.height as u32,
            if color_samples == 1 {
                1usize
            } else {
                4usize
            },
            rect.left as u32,
            rect.top as u32,
        ),
        _ => writes.len() == 0,
    }
}

/// What the frame clock calls for when a tick has taken `elapsed_ms`.
pub fn pace_frame(elapsed_ms: u64) -> (pacing: Pacing)
    ensures
        pacing == if elapsed_ms < FRAME_MS {
            Pacing::Sleep((FRAME_MS - elapsed_ms) as u64)
        } else {
            Pacing::Overrun((elapsed_ms - FRAME_MS) as u64)
        },
{
    if FRAME_MS > elapsed_ms {
        Pacing::Sleep(FRAME_MS - elapsed_ms)
    } else {
        Pacing::Overrun(elapsed_ms - FRAME_MS)
    }
}

impl Session {
    /// The rectangle of the whole panel.
    pub open spec fn spec_panel(&self) -> Rectangle {
        panel_rect(self.width, self.height)
    }

    /// Everything but the scheduler and the last button is as in `other`.
    pub open spec fn same_setup(&self, other: &Session) -> bool {
        &&& self.post_proc_bin.data@ == other.post_proc_bin.data@
        &&& self.width == other.width
        &&& self.height == other.height
        &&& self.color_samples == other.color_samples
    }

    /// What a message of the touch reader calls for: nothing while touch
    /// input is off; the pointer event for a sample, or the reason why it
    /// cannot be sent; the reader's failure.
    pub open spec fn spec_touch_reply(&self, message: &TouchMessage) -> Option<
        Result<PointerAction, TouchError>,
    > {
        if self.view_only {
            None
        } else {
            match message {
                TouchMessage::Sample(touch) => Some(
                    spec_touch_vnc(
                        touch,
                        match spec_mouse_btn_to_vnc(touch.button) {
                            Some(mask) => mask,
                            None => self.last_button,
                        },
                    ),
                ),
                TouchMessage::PipelineFailed(error) => Some(Err(*error)),
            }
        }
    }

    /// A session on a frame buffer of the given width and height, for a panel
    /// with `color_samples` colour channels, started at clock reading `now`.
    pub fn new(
        size: (u16, u16),
        config: &PostProcConfig,
        color_samples: usize,
        view_only: bool,
        now: u64,
    ) -> (session: Session)
        ensures
            session.draw@ == DrawView::initial(now),
            forall|i: int|
                0 <= i < 256 ==> #[trigger] session.post_proc_bin.data@[i] == lut_value(
                    *config,
                    i,
                ),
            session.width == size.0,
            session.height == size.1,
            session.color_samples == color_samples,
            session.last_button == MOUSE_UNKNOWN,
            session.view_only == view_only,
    {
        Session {
            draw: Draw::new(now),
            post_proc_bin: PostProcBin::new(config),
            width: size.0,
            height: size.1,
            color_samples,
            last_button: MOUSE_UNKNOWN,
            view_only,
        }
    }

    /// The rectangle of the whole panel.
    pub fn panel(&self) -> (rect: Rectangle)
        ensures
            rect == self.spec_panel(),
    {
        Rectangle::new(0, 0, self.width as i32, self.height as i32)
    }

    /// Takes a touch sample: a button code in it becomes the last known
    /// button mask, and the pointer event to send comes back.
    pub fn handle_touch(&mut self, touch: &Touch) -> (action: Result<PointerAction, TouchError>)
        ensures
            final(self).last_button == match spec_mouse_btn_to_vnc(touch.button) {
                Some(mask) => mask,
                None => old(self).last_button,
            },
            action == spec_touch_vnc(touch, final(self).last_button),
            final(self).draw@ == old(self).draw@,
            final(self).same_setup(old(self)),
            final(self).view_only == old(self).view_only,
    {
        match mouse_btn_to_vnc(touch.button) {
            Some(mask) => {
                self.last_button = mask;
            },
            None => {},
        }
        touch_vnc(touch, self.last_button)
    }

    /// Takes a message of the touch reader.
    ///
    /// While touch input is off every message is passed over. A sample is
    /// taken as by `handle_touch`. When the reader has given up, touch input
    /// goes off for the rest of the session, which goes on showing the remote
    /// frame buffer.
    pub fn handle_touch_message(&mut self, message: &TouchMessage) -> (reply: Option<
        Result<PointerAction, TouchError>,
    >)
        ensures
            reply == old(self).spec_touch_reply(message),
            final(self).view_only == (old(self).view_only || message is PipelineFailed),
            final(self).last_button == if old(self).view_only {
                old(self).last_button
            } else {
                match message {
                    TouchMessage::Sample(touch) => match spec_mouse_btn_to_vnc(touch.button) {
                        Some(mask) => mask,
                        None => old(self).last_button,
                    },
                    TouchMessage::PipelineFailed(_) => old(self).last_button,
                }
            },
            final(self).draw@ == old(self).draw@,
            final(self).same_setup(old(self)),
    {
        if self.view_only {
            return None;
        }
        match message {
            TouchMessage::Sample(touch) => Some(self.handle_touch(touch)),
            TouchMessage::PipelineFailed(error) => {
                self.view_only = true;
                Some(Err(*error))
            },
        }
    }

    /// Takes an event of the protocol at clock reading `now`.
    ///
    /// New pixel data is remapped and set on the panel. Where it covers the
    /// whole panel, the panel is refreshed at once; any other region, and the
    /// target of a copy, is kept for the end of the frame. The end of a frame
    /// refreshes what the frame has changed. The first update of the whole
    /// panel refreshes it in full.
    pub fn handle_event(&mut self, event: &Event, now: u64) -> (reaction: Reaction)
        ensures
            reaction.disconnected == (event is Disconnected),
            is_writes_for(
                reaction.writes@,
                event,
                old(self).post_proc_bin.data@,
                old(self).color_samples,
            ),
            reaction.commits@ == commits_for(old(self).draw@, event, old(self).spec_panel()),
            final(self).draw@ == draw_after(old(self).draw@, event, old(self).spec_panel(), now),
            final(self).same_setup(old(self)),
            final(self).last_button == old(self).last_button,
            final(self).view_only == old(self).view_only,
            has_full(reaction.commits@) ==> final(self).draw.dirty_update_count == 0,
            event matches Event::PutPixels(rect, _) && spec_delta_rect(*rect) == old(
                self,
            ).spec_panel() && !old(self).draw.has_drawn_once ==> {
                &&& reaction.commits@ == seq![
                    (Commit { rect: old(self).spec_panel(), mode: UpdateMode::Full }),
                ]
                &&& final(self).draw.has_drawn_once
                &&& final(self).draw.dirty_update_count == 0
            },
    {
        match event {
            Event::Disconnected(_) => Reaction {
                writes: Vec::new(),
                commits: Vec::new(),
                disconnected: true,
            },
            Event::PutPixels(vnc_rect, pixels) => {
                let post_process = streamline_pixel_color(
                    pixels,
                    &self.post_proc_bin,
                    self.color_samples,
                );
                let map = to_map(vnc_rect, &post_process, self.color_samples);
                let delta = to_delta_map(vnc_rect);
                let writes = set_pixel_map_ro(&delta, &map);
                let delta_rect = to_delta_rect(vnc_rect);
                let fb_rect = self.panel();
                let mut commits: Vec<Commit> = Vec::new();
                if delta_rect == fb_rect {
                    let commit = self.draw.update(fb_rect);
                    commits.push(commit);
                    proof {
                        assert(commits@ =~= seq![commit]);
                        if commit.mode != UpdateMode::Full {
                            assert(!has_full(commits@));
                        }
                    }
                } else {
                    push_to_dirty_rect_list(&mut self.draw.dirty_rects, delta_rect);
                    assert(!has_full(commits@));
                }
                Reaction { writes, commits, disconnected: false }
            },
            Event::CopyPixels { src, dst } => {
                let delta_rect = to_delta_rect(dst);
                push_to_dirty_rect_list(&mut self.draw.dirty_rects, delta_rect);
                Reaction { writes: Vec::new(), commits: Vec::new(), disconnected: false }
            },
            Event::EndOfFrame => {
                let commits = self.draw.draw_end(now);
                Reaction { writes: Vec::new(), commits, disconnected: false }
            },
            Event::Other => Reaction {
                writes: Vec::new(),
                commits: Vec::new(),
                disconnected: false,
            },
        }
    }

    /// Looks after an idle panel at the end of a tick, at clock reading
    /// `now`: where more than the quiet period has passed since the last
    /// draw, the regions drawn since the last full refresh are refreshed in
    /// full. How long the tick has taken makes no difference.
    pub fn idle_flush(&mut self, now: u64) -> (commits: Vec<Commit>)
        ensures
            commits@ == old(self).draw@.idle_commits(now),
            final(self).draw@ == old(self).draw@.idle_refreshed(now),
            final(self).same_setup(old(self)),
            final(self).last_button == old(self).last_button,
            final(self).view_only == old(self).view_only,
            has_full(commits@) ==> final(self).draw.dirty_update_count == 0,
    {
        self.draw.idle_refresh(now)
    }
}

} // verus!
