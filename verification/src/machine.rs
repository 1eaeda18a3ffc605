//! The per-window presentation state machine: it owns the palette and the
//! current quad, reacts to window events, plans each frame's uploads, and
//! decides how surface-acquisition failures are handled.

use vstd::prelude::*;
use crate::geometry::Quad;
use crate::geometry::compute_quad;
use crate::palette::Palette;
use crate::palette::Rgba;
use crate::palette::default_entry;
use crate::palette::spec_payload;
use crate::stats::FrameStats;
use crate::stats::FrameSummary;
use crate::stats::spec_record;
use crate::upload::pad_rows;
use crate::upload::padded_rows_ok;
use crate::upload::padded_stride;
use crate::upload::spec_padded_stride;

verus! {

/// Where a window's surface stands in its lifecycle.
#[derive(Clone, Copy, Debug, PartialEq, Eq, Structural)]
pub enum Phase {
    /// No surface has been configured yet.
    Uninitialized,
    /// The surface is configured and frames can be rendered.
    Configured,
    /// The window is closed; every event is dropped silently.
    Closed,
}

/// The live surface dimensions; a zero-sized configuration is never applied.
#[derive(Clone, Copy, Debug, PartialEq, Eq, Structural)]
pub struct SurfaceConfig {
    pub width: u32,
    pub height: u32,
}

impl SurfaceConfig {
    /// A surface configuration never has a zero side.
    pub open spec fn wf(self) -> bool {
        self.width > 0 && self.height > 0
    }
}

/// A window-system event, as far as the presenter reacts to it.
#[derive(Clone, Copy, Debug, PartialEq, Eq, Structural)]
pub enum Event {
    /// The window was resized to the given physical size.
    Resized { width: u32, height: u32 },
    /// The user asked to close the window.
    CloseRequested,
    /// The window should render a frame now.
    RedrawRequested,
    /// Any event the presenter does not react to.
    Other,
}

/// What the caller must do after handing the presenter an event.
#[derive(Clone, Copy, Debug, PartialEq, Eq, Structural)]
pub enum Action {
    /// Nothing: the event was a no-op for this window.
    Ignore,
    /// Reconfigure the surface to the new size and upload the fresh vertices.
    Reconfigure,
    /// Render one frame.
    Render,
    /// Release the window's resources; it is closed.
    Close,
}

/// How a failed surface-image acquisition is handled.
#[derive(Clone, Copy, Debug, PartialEq, Eq, Structural)]
pub enum AcquireError {
    /// Acquisition timed out; the surface may become available again.
    Timeout,
    /// The surface no longer matches the window and must be reconfigured.
    Outdated,
    /// The surface was lost and must be reconfigured.
    Lost,
    /// The backend ran out of memory.
    OutOfMemory,
    /// Any other backend failure.
    Other,
}

/// The presenter's answer to a failed acquisition.
#[derive(Clone, Copy, Debug, PartialEq, Eq, Structural)]
pub enum AcquireRecovery {
    /// Skip this frame, reconfigure the surface, and continue next tick.
    SkipAndReconfigure,
    /// The failure is fatal for this window: close it.
    CloseWindow,
}

/// Whether an acquisition failure is transient: the surface can be
/// reconfigured and rendering resumed on the next tick.
pub open spec fn transient_failure(err: AcquireError) -> bool {
    err is Timeout || err is Outdated || err is Lost
}

/// Everything one frame hands to the GPU backend, computed before any
/// backend call: the palette payload first, then the bitmap rows, as the
/// uploads are ordered within the frame.
pub struct FramePlan {
    /// The timing summary to report, if the sample window just closed.
    pub summary: Option<FrameSummary>,
    /// The 1024-byte palette payload for the lookup-texture upload.
    pub palette_bytes: Vec<u8>,
    /// The stride-padded pixel rows for the bitmap-texture upload.
    pub pixel_rows: Vec<u8>,
    /// The padded stride of `pixel_rows`, in bytes per row.
    pub bytes_per_row: u32,
}

/// The per-window presentation state machine.
pub struct Presenter {
    /// The bitmap's width in pixels; fixed for the window's lifetime.
    pub bitmap_width: u32,
    /// The bitmap's height in pixels; fixed for the window's lifetime.
    pub bitmap_height: u32,
    /// Where the surface stands in its lifecycle.
    pub phase: Phase,
    /// The current surface size; meaningful once configured.
    pub config: SurfaceConfig,
    /// The quad computed for the current surface size.
    pub quad: Quad,
    /// The rolling frame-timing counters.
    pub stats: FrameStats,
    /// The palette uploaded at the start of every frame.
    pub palette: Palette,
    /// How many frames have been rendered, wrapping on overflow.
    pub frame: u32,
}

impl Presenter {
    /// The presenter's invariant: positive bitmap, sound counters, a full
    /// palette, and, once configured, a positive surface whose quad is the
    /// one computed for it.
    pub open spec fn wf(self) -> bool {
        &&& self.bitmap_width > 0
        &&& self.bitmap_height > 0
        &&& self.stats.wf()
        &&& self.palette.wf()
        &&& self.phase is Configured ==> self.config.wf() && self.quad.within_window()
            && self.quad == Quad::spec_of(
            self.bitmap_width as int,
            self.bitmap_height as int,
            self.config.width as int,
            self.config.height as int,
        )
    }

    /// A new presenter for a bitmap: unconfigured, default palette, zero
    /// counters. A bitmap with a zero side is rejected before the render
    /// loop is ever entered.
    pub fn new(bitmap_width: u32, bitmap_height: u32) -> (p: Presenter)
        requires
            bitmap_width > 0,
            bitmap_height > 0,
        ensures
            p.wf(),
            p.phase is Uninitialized,
            p.bitmap_width == bitmap_width,
            p.bitmap_height == bitmap_height,
            p.stats == (FrameStats { sum_nanos: 0, count: 0 }),
            p.frame == 0,
            forall|i: int| 0 <= i < 256 ==> p.palette@[i] == default_entry(i),
    {
        Presenter {
            bitmap_width,
            bitmap_height,
            phase: Phase::Uninitialized,
            config: SurfaceConfig { width: 1, height: 1 },
            quad: compute_quad(bitmap_width, bitmap_height, 1, 1),
            stats: FrameStats::new(),
            palette: Palette::new(),
            frame: 0,
        }
    }

    /// First successful surface acquisition: establish the configuration
    /// from the current window size and compute the quad for it.
    pub fn configure(&mut self, window_width: u32, window_height: u32)
        requires
            old(self).wf(),
            old(self).phase is Uninitialized,
            window_width > 0,
            window_height > 0,
        ensures
            final(self).wf(),
            final(self).phase is Configured,
            final(self).config == (SurfaceConfig { width: window_width, height: window_height }),
            final(self).quad == Quad::spec_of(
                old(self).bitmap_width as int,
                old(self).bitmap_height as int,
                window_width as int,
                window_height as int,
            ),
            final(self).bitmap_width == old(self).bitmap_width,
            final(self).bitmap_height == old(self).bitmap_height,
            final(self).palette == old(self).palette,
            final(self).stats == old(self).stats,
            final(self).frame == old(self).frame,
    {
        self.config = SurfaceConfig { width: window_width, height: window_height };
        self.quad = compute_quad(self.bitmap_width, self.bitmap_height, window_width, window_height);
        self.phase = Phase::Configured;
    }

    /// React to one window event.
    ///
    /// A resize with a zero side is a no-op: the previous configuration is
    /// retained. A close request closes the window in any phase. Events for
    /// a closed window are dropped silently. A valid resize replaces the
    /// configuration and regenerates the quad before the next render.
    pub fn handle_event(&mut self, event: Event) -> (action: Action)
        requires
            old(self).wf(),
        ensures
            final(self).wf(),
            final(self).bitmap_width == old(self).bitmap_width,
            final(self).bitmap_height == old(self).bitmap_height,
            final(self).palette == old(self).palette,
            final(self).stats == old(self).stats,
            final(self).frame == old(self).frame,
            old(self).phase is Closed ==> action is Ignore && *final(self) == *old(self),
            event is CloseRequested && !(old(self).phase is Closed) ==> action is Close
                && final(self).phase is Closed,
            event is RedrawRequested && !(old(self).phase is Closed) ==> *final(self) == *old(self)
                && (action is Render <==> old(self).phase is Configured),
            event is Other ==> action is Ignore && *final(self) == *old(self),
            event is Resized && !(old(self).phase is Closed) ==> if old(self).phase is Configured
                && event->width > 0 && event->height > 0 {
                &&& action is Reconfigure
                &&& final(self).phase is Configured
                &&& final(self).config == (SurfaceConfig {
                    width: event->width,
                    height: event->height,
                })
                &&& final(self).quad == Quad::spec_of(
                    old(self).bitmap_width as int,
                    old(self).bitmap_height as int,
                    event->width as int,
                    event->height as int,
                )
            } else {
                action is Ignore && *final(self) == *old(self)
            },
    {
        match self.phase {
            Phase::Closed => Action::Ignore,
            Phase::Uninitialized => {
                match event {
                    Event::CloseRequested => {
                        self.phase = Phase::Closed;
                        Action::Close
                    },
                    _ => Action::Ignore,
                }
            },
            Phase::Configured => {
                match event {
                    Event::Resized { width, height } => {
                        if width > 0 && height > 0 {
                            self.config = SurfaceConfig { width, height };
                            self.quad = compute_quad(
                                self.bitmap_width,
                                self.bitmap_height,
                                width,
                                height,
                            );
                            Action::Reconfigure
                        } else {
                            Action::Ignore
                        }
                    },
                    Event::CloseRequested => {
                        self.phase = Phase::Closed;
                        Action::Close
                    },
                    Event::RedrawRequested => Action::Render,
                    Event::Other => Action::Ignore,
                }
            },
        }
    }

    /// Plan one frame: record the inter-frame duration, bump the frame
    /// counter, and compute both upload payloads — the palette bytes first,
    /// then the stride-padded bitmap rows, in the order the uploads are
    /// issued.
    pub fn render_frame(&mut self, pixels: &Vec<u8>, frame_nanos: u64) -> (plan: FramePlan)
        requires
            old(self).wf(),
            old(self).phase is Configured,
            pixels@.len() == old(self).bitmap_width * old(self).bitmap_height,
            old(self).bitmap_width * old(self).bitmap_height <= usize::MAX,
            old(self).bitmap_width + 255 <= u32::MAX,
            spec_padded_stride(old(self).bitmap_width as int) * old(self).bitmap_height
                <= usize::MAX,
        ensures
            final(self).wf(),
            (final(self).stats, plan.summary) == spec_record(old(self).stats, frame_nanos),
            final(self).frame == vstd::wrapping::u32_specs::wrapping_add(old(self).frame, 1),
            final(self).phase == old(self).phase,
            final(self).config == old(self).config,
            final(self).quad == old(self).quad,
            final(self).palette == old(self).palette,
            final(self).bitmap_width == old(self).bitmap_width,
            final(self).bitmap_height == old(self).bitmap_height,
            plan.palette_bytes@ == spec_payload(old(self).palette@),
            plan.bytes_per_row == spec_padded_stride(old(self).bitmap_width as int),
            padded_rows_ok(
                pixels@,
                old(self).bitmap_width as int,
                old(self).bitmap_height as int,
                plan.bytes_per_row as int,
                plan.pixel_rows@,
            ),
    {
        let summary = self.stats.record(frame_nanos);
        self.frame = self.frame.wrapping_add(1);
        let palette_bytes = self.palette.payload();
        let bytes_per_row = padded_stride(self.bitmap_width);
        let pixel_rows = pad_rows(pixels, self.bitmap_width, self.bitmap_height);
        FramePlan { summary, palette_bytes, pixel_rows, bytes_per_row }
    }

    /// Decide how a failed surface-image acquisition is handled: a transient
    /// failure skips the frame and reconfigures; resource exhaustion or an
    /// unknown failure is fatal and closes the window.
    pub fn on_acquire_error(&mut self, err: AcquireError) -> (r: AcquireRecovery)
        requires
            old(self).wf(),
            old(self).phase is Configured,
        ensures
            final(self).wf(),
            transient_failure(err) ==> r is SkipAndReconfigure && *final(self) == *old(self),
            !transient_failure(err) ==> r is CloseWindow && *final(self) == (Presenter {
                phase: Phase::Closed,
                ..*old(self)
            }),
    {
        match err {
            AcquireError::Timeout | AcquireError::Outdated | AcquireError::Lost => {
                AcquireRecovery::SkipAndReconfigure
            },
            AcquireError::OutOfMemory | AcquireError::Other => {
                self.phase = Phase::Closed;
                AcquireRecovery::CloseWindow
            },
        }
    }

    /// Replace the palette wholesale with exactly 256 entries.
    pub fn set_palette(&mut self, entries: Vec<Rgba>)
        requires
            old(self).wf(),
            entries@.len() == 256,
        ensures
            final(self).wf(),
            final(self).palette@ == entries@,
            *final(self) == (Presenter { palette: final(self).palette, ..*old(self) }),
    {
        self.palette.set(entries);
    }

    /// Replace the palette from a source of up to 256 entries, padding the
    /// rest with transparent black.
    pub fn set_palette_partial(&mut self, entries: &Vec<Rgba>)
        requires
            old(self).wf(),
            entries@.len() <= 256,
        ensures
            final(self).wf(),
            forall|i: int| 0 <= i < entries@.len() ==> final(self).palette@[i] == entries@[i],
            forall|i: int|
                entries@.len() <= i < 256 ==> final(self).palette@[i] == Rgba(0, 0, 0, 0),
            *final(self) == (Presenter { palette: final(self).palette, ..*old(self) }),
    {
        self.palette.set_partial(entries);
    }
}

} // verus!
