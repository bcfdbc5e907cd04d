//! Renderer state machine: the two mutually exclusive states, `PlayMode`
//! and `PauseMode`, behind the shared capability set the worker drives each
//! iteration (read, apply live updates, compute the output frame, sync and
//! feed the display, persist, advance, report progress).
//!
//! Playing decodes a fresh frame every iteration and recomputes everything.
//! Paused freezes the last decoded frame, never consumes the source while it
//! holds one, and recomputes only the aspects a live update marked dirty.
use vstd::prelude::*;

verus! {

use crate::channels::AsyncChannels;
use crate::channels::latest_of;
use crate::channels::unchanged_but_progression;
use crate::geometry::FrameSizeManager;
use crate::geometry::RotateFlags;
use crate::geometry::spec_apply_updates;
use crate::media::FrameData;
use crate::media::HighGuiWindow;
use crate::media::ProgressValue;
use crate::media::SourceHandle;
use crate::media::VideoError;
use crate::media::VideoWriter;

/// The playing state: every iteration decodes a fresh frame, so every
/// derived buffer is recomputed unconditionally.
#[derive(Debug)]
pub struct PlayMode {
    pub counter: u64,
    pub frame_count: u64,
    pub frame: FrameData,
    pub result_frame: FrameData,
    pub preview_frame: FrameData,
    pub frame_sizes: FrameSizeManager,
}

impl PlayMode {
    pub fn new(counter: u64, frame_count: u64, frame_sizes: FrameSizeManager) -> (r: Self)
        ensures
            r.counter == counter,
            r.frame_count == frame_count,
            r.frame_sizes == frame_sizes,
            r.frame == FrameData::spec_empty(),
            r.result_frame == FrameData::spec_empty(),
            r.preview_frame == FrameData::spec_empty(),
    {
        PlayMode {
            counter,
            frame_count,
            frame: FrameData::empty(),
            result_frame: FrameData::empty(),
            preview_frame: FrameData::empty(),
            frame_sizes,
        }
    }
}

/// The paused state: the view is frozen on a cached frame, and the dirty
/// flags record which aspects a live update changed while paused, so that
/// only those are recomputed.
#[derive(Debug)]
pub struct PauseMode {
    pub counter: u64,
    pub frame_count: u64,
    pub frame: Option<FrameData>,
    pub result_frame: FrameData,
    pub preview_frame: FrameData,
    pub frame_sizes: FrameSizeManager,
    pub should_rotate_frame: bool,
    pub should_rescale_frame: bool,
    pub should_rescale_gui: bool,
    pub should_update_window: bool,
}

impl PauseMode {
    /// Entering pause marks every aspect dirty, forcing one full recompute
    /// on the first paused iteration.
    pub fn new(counter: u64, frame_count: u64, frame_sizes: FrameSizeManager, frame: Option<FrameData>) -> (r: Self)
        ensures
            r.counter == counter,
            r.frame_count == frame_count,
            r.frame_sizes == frame_sizes,
            r.frame == frame,
            r.result_frame == FrameData::spec_empty(),
            r.preview_frame == FrameData::spec_empty(),
            r.should_rotate_frame,
            r.should_rescale_frame,
            r.should_rescale_gui,
            r.should_update_window,
    {
        PauseMode {
            counter,
            frame_count,
            frame,
            result_frame: FrameData::empty(),
            preview_frame: FrameData::empty(),
            frame_sizes,
            should_rotate_frame: true,
            should_rescale_frame: true,
            should_rescale_gui: true,
            should_update_window: true,
        }
    }

    /// A paused renderer reads the source only while it holds no cached
    /// frame.
    pub open spec fn spec_read(self, capture: SourceHandle) -> (PauseMode, SourceHandle) {
        if self.frame.is_some() {
            (self, capture)
        } else {
            (
                PauseMode {
                    frame: Option::Some(capture.spec_frame_after_read(FrameData::spec_empty())),
                    ..self
                },
                capture.spec_after_read(),
            )
        }
    }
}

/// Applying a paused read always leaves a cached frame behind, so every
/// paused read after the first leaves the source untouched: however many
/// consecutive paused reads happen, the source is read at most once.
pub proof fn lemma_paused_reads_at_most_one_fetch(p: PauseMode, capture: SourceHandle, n: nat)
    ensures
        spec_paused_read_n(p, capture, n).1.position <= capture.position + 1,
        n >= 1 ==> spec_paused_read_n(p, capture, n) == spec_paused_read_n(p, capture, 1),
    decreases n,
{
    if n == 1 {
        assert(spec_paused_read_n(p, capture, 0) == (p, capture));
        assert(spec_paused_read_n(p, capture, 1) == p.spec_read(capture));
    } else if n > 1 {
        lemma_paused_reads_at_most_one_fetch(p, capture, (n - 1) as nat);
        let once = spec_paused_read_n(p, capture, 1);
        assert(once.0.frame.is_some());
        assert(spec_paused_read_n(p, capture, n) == once.0.spec_read(once.1));
    }
}

/// `n` consecutive paused reads, applied oldest first.
pub open spec fn spec_paused_read_n(p: PauseMode, capture: SourceHandle, n: nat) -> (PauseMode, SourceHandle)
    decreases n,
{
    if n == 0 {
        (p, capture)
    } else {
        let prev = spec_paused_read_n(p, capture, (n - 1) as nat);
        prev.0.spec_read(prev.1)
    }
}

/// The closed sum of the two renderer states. Transitions replace the whole
/// value; the capability set dispatches on the current state.
#[derive(Debug)]
pub enum VideoRenderer {
    Play(PlayMode),
    Pause(PauseMode),
}

/// The renderer, source and result of one `read_capture` call: playing
/// always decodes, paused decodes only into an empty cache.
pub open spec fn spec_read_transition(r: VideoRenderer, capture: SourceHandle) -> (VideoRenderer, SourceHandle, Result<bool, VideoError>) {
    match r {
        VideoRenderer::Play(p) => (
            VideoRenderer::Play(PlayMode { frame: capture.spec_frame_after_read(p.frame), ..p }),
            capture.spec_after_read(),
            capture.spec_read_result(),
        ),
        VideoRenderer::Pause(p) => {
            let (p2, c2) = p.spec_read(capture);
            (
                VideoRenderer::Pause(p2),
                c2,
                if p.frame.is_some() {
                    Result::<bool, VideoError>::Ok(true)
                } else {
                    capture.spec_read_result()
                },
            )
        },
    }
}

/// The renderer after one `update_frame_data` call, given the latest value
/// observed on each parameter channel. Both states apply every pending
/// aspect (rotation, then gui scale, then rescale); paused additionally
/// marks the matching dirty flags.
pub open spec fn spec_update_frame_data(
    r: VideoRenderer,
    flip_update: Option<Option<RotateFlags>>,
    gui_update: Option<u32>,
    rescale_update: Option<u32>,
) -> VideoRenderer {
    match r {
        VideoRenderer::Play(p) => VideoRenderer::Play(PlayMode {
            frame_sizes: spec_apply_updates(p.frame_sizes, flip_update, gui_update, rescale_update),
            ..p
        }),
        VideoRenderer::Pause(p) => {
            let rotate_dirty = p.should_rotate_frame || flip_update.is_some();
            let gui_dirty = p.should_rescale_gui || gui_update.is_some();
            let rescale_dirty = p.should_rescale_frame || rescale_update.is_some();
            VideoRenderer::Pause(PauseMode {
                frame_sizes: spec_apply_updates(p.frame_sizes, flip_update, gui_update, rescale_update),
                should_rotate_frame: rotate_dirty,
                should_rescale_gui: gui_dirty,
                should_rescale_frame: rescale_dirty,
                should_update_window: rotate_dirty || gui_dirty || rescale_dirty,
                ..p
            })
        },
    }
}

/// The renderer after one `update_frame` call: playing recomputes the
/// output and preview buffers unconditionally, paused only when a dirty
/// flag is set, clearing the dirty flags it consumed.
pub open spec fn spec_update_frame(r: VideoRenderer) -> VideoRenderer {
    match r {
        VideoRenderer::Play(p) => VideoRenderer::Play(PlayMode {
            result_frame: FrameData {
                size: p.frame_sizes.rotated_rescaled_frame_size,
                source_index: p.frame.source_index,
            },
            preview_frame: FrameData {
                size: p.frame_sizes.preview_frame_size,
                source_index: p.frame.source_index,
            },
            ..p
        }),
        VideoRenderer::Pause(p) => {
            if p.should_rotate_frame || p.should_rescale_gui || p.should_rescale_frame {
                VideoRenderer::Pause(PauseMode {
                    result_frame: FrameData {
                        size: p.frame_sizes.rotated_rescaled_frame_size,
                        source_index: p.frame.unwrap().source_index,
                    },
                    preview_frame: FrameData {
                        size: p.frame_sizes.preview_frame_size,
                        source_index: p.frame.unwrap().source_index,
                    },
                    should_rotate_frame: false,
                    should_rescale_gui: false,
                    should_rescale_frame: false,
                    ..p
                })
            } else {
                r
            }
        },
    }
}

/// The renderer after one `update_frame_counter` call: playing counts the
/// processed frame, paused does not.
pub open spec fn spec_advance_counter(r: VideoRenderer) -> VideoRenderer {
    match r {
        VideoRenderer::Play(p) => VideoRenderer::Play(PlayMode {
            counter: (p.counter + 1) as u64,
            ..p
        }),
        VideoRenderer::Pause(_) => r,
    }
}

/// Pausing carries counter, total, geometry and the most recently decoded
/// frame into the paused state (so the paused view is frozen, not blank)
/// and marks every aspect dirty; pausing a paused renderer changes nothing.
pub open spec fn spec_pause(r: VideoRenderer) -> VideoRenderer {
    match r {
        VideoRenderer::Play(p) => VideoRenderer::Pause(PauseMode {
            counter: p.counter,
            frame_count: p.frame_count,
            frame: Option::Some(p.frame),
            result_frame: FrameData::spec_empty(),
            preview_frame: FrameData::spec_empty(),
            frame_sizes: p.frame_sizes,
            should_rotate_frame: true,
            should_rescale_frame: true,
            should_rescale_gui: true,
            should_update_window: true,
        }),
        VideoRenderer::Pause(_) => r,
    }
}

/// Resuming discards the cached frame (playing decodes fresh every
/// iteration) and keeps counter, total and geometry; resuming a playing
/// renderer changes nothing.
pub open spec fn spec_play(r: VideoRenderer) -> VideoRenderer {
    match r {
        VideoRenderer::Play(_) => r,
        VideoRenderer::Pause(p) => VideoRenderer::Play(PlayMode {
            counter: p.counter,
            frame_count: p.frame_count,
            frame: FrameData::spec_empty(),
            result_frame: FrameData::spec_empty(),
            preview_frame: FrameData::spec_empty(),
            frame_sizes: p.frame_sizes,
        }),
    }
}

/// A `pause()` immediately followed by a `play()` preserves the frame
/// counter and the whole geometry state, whatever state the renderer was
/// in: the round trip neither loses nor double-counts a frame.
pub proof fn lemma_pause_play_round_trip(r: VideoRenderer)
    ensures
        spec_play(spec_pause(r)).spec_counter() == r.spec_counter(),
        spec_play(spec_pause(r)).spec_frame_count() == r.spec_frame_count(),
        spec_play(spec_pause(r)).spec_frame_sizes() == r.spec_frame_sizes(),
{
}

impl VideoRenderer {
    pub open spec fn spec_counter(self) -> u64 {
        match self {
            VideoRenderer::Play(p) => p.counter,
            VideoRenderer::Pause(p) => p.counter,
        }
    }

    pub open spec fn spec_frame_count(self) -> u64 {
        match self {
            VideoRenderer::Play(p) => p.frame_count,
            VideoRenderer::Pause(p) => p.frame_count,
        }
    }

    pub open spec fn spec_frame_sizes(self) -> FrameSizeManager {
        match self {
            VideoRenderer::Play(p) => p.frame_sizes,
            VideoRenderer::Pause(p) => p.frame_sizes,
        }
    }

    pub open spec fn is_playing(self) -> bool {
        match self {
            VideoRenderer::Play(_) => true,
            VideoRenderer::Pause(_) => false,
        }
    }

    /// The renderer's contribution to the worker invariant: well-formed
    /// geometry, and a paused renderer entered through `pause()` always
    /// holds a cached frame.
    pub open spec fn wf(self) -> bool {
        &&& self.spec_frame_sizes().wf()
        &&& match self {
            VideoRenderer::Play(_) => true,
            VideoRenderer::Pause(p) => p.frame.is_some(),
        }
    }

    /// Replaces the state by its paused counterpart.
    pub fn pause(self) -> (r: Self)
        ensures
            r == spec_pause(self),
    {
        match self {
            VideoRenderer::Play(p) => {
                let cached = p.frame;
                VideoRenderer::Pause(PauseMode::new(p.counter, p.frame_count, p.frame_sizes, Option::Some(cached)))
            },
            VideoRenderer::Pause(_) => self,
        }
    }

    /// Replaces the state by its playing counterpart.
    pub fn play(self) -> (r: Self)
        ensures
            r == spec_play(self),
    {
        match self {
            VideoRenderer::Play(_) => self,
            VideoRenderer::Pause(p) => {
                VideoRenderer::Play(PlayMode::new(p.counter, p.frame_count, p.frame_sizes))
            },
        }
    }

    /// Reads the next frame. Playing always decodes fresh; paused decodes
    /// only when no frame is cached yet, so a paused renderer never starves
    /// or advances the stream. Returns whether a frame is available.
    pub fn read_capture(&mut self, capture: &mut SourceHandle) -> (r: Result<bool, VideoError>)
        requires
            old(capture).wf(),
        ensures
            final(capture).wf(),
            (*final(self), *final(capture), r) == spec_read_transition(*old(self), *old(capture)),
    {
        match self {
            VideoRenderer::Play(p) => capture.read(&mut p.frame),
            VideoRenderer::Pause(p) => {
                if p.frame.is_none() {
                    let mut frame = FrameData::empty();
                    let result = capture.read(&mut frame);
                    p.frame = Option::Some(frame);
                    result
                } else {
                    Result::Ok(true)
                }
            },
        }
    }

    /// Pulls the latest live parameter updates: every pending aspect is
    /// applied and all three queues are drained. Playing recomputes the
    /// next frame regardless; paused additionally marks the matching dirty
    /// flags, deferring the recompute to `update_frame`.
    pub fn update_frame_data(&mut self, worker_channels: &mut AsyncChannels)
        requires
            old(self).spec_frame_sizes().wf(),
            old(worker_channels).scales_in_range(),
        ensures
            final(self).spec_frame_sizes().wf(),
            final(worker_channels).scales_in_range(),
            final(worker_channels).progression == old(worker_channels).progression,
            final(worker_channels).abort == old(worker_channels).abort,
            final(worker_channels).video_mode == old(worker_channels).video_mode,
            final(worker_channels).worker_listening == old(worker_channels).worker_listening,
            *final(self) == spec_update_frame_data(
                *old(self),
                latest_of(old(worker_channels).flip.buffered@),
                latest_of(old(worker_channels).gui_size.buffered@),
                latest_of(old(worker_channels).rescale.buffered@),
            ),
            final(worker_channels).flip.buffered@.len() == 0,
            final(worker_channels).gui_size.buffered@.len() == 0,
            final(worker_channels).rescale.buffered@.len() == 0,
    {
        match self {
            VideoRenderer::Play(p) => {
                p.frame_sizes.update_from_main(worker_channels);
            },
            VideoRenderer::Pause(p) => {
                if p.frame_sizes.update_flip(worker_channels) {
                    p.should_rotate_frame = true;
                }
                if p.frame_sizes.update_gui_size(worker_channels) {
                    p.should_rescale_gui = true;
                }
                if p.frame_sizes.update_rescale(worker_channels) {
                    p.should_rescale_frame = true;
                }
                p.should_update_window = p.should_rescale_frame || p.should_rescale_gui
                    || p.should_rotate_frame;
            },
        }
    }

    /// Computes the output frame: the decoded frame rotated and rescaled to
    /// the edit size, and the preview buffer at the preview size. Playing
    /// recomputes unconditionally; paused recomputes only when a dirty flag
    /// is set, then clears the dirty flags.
    pub fn update_frame(&mut self)
        requires
            match *old(self) {
                VideoRenderer::Play(_) => true,
                VideoRenderer::Pause(p) => (p.should_rotate_frame || p.should_rescale_gui
                    || p.should_rescale_frame) ==> p.frame.is_some(),
            },
        ensures
            *final(self) == spec_update_frame(*old(self)),
    {
        match self {
            VideoRenderer::Play(p) => {
                p.result_frame = FrameData {
                    size: p.frame_sizes.get_edit(),
                    source_index: p.frame.source_index,
                };
                p.preview_frame = FrameData {
                    size: p.frame_sizes.get_preview(),
                    source_index: p.frame.source_index,
                };
            },
            VideoRenderer::Pause(p) => {
                if p.should_rotate_frame || p.should_rescale_gui || p.should_rescale_frame {
                    let cached = match &p.frame {
                        Option::Some(frame) => *frame,
                        Option::None => FrameData::empty(),
                    };
                    p.result_frame = FrameData {
                        size: p.frame_sizes.get_edit(),
                        source_index: cached.source_index,
                    };
                    p.preview_frame = FrameData {
                        size: p.frame_sizes.get_preview(),
                        source_index: cached.source_index,
                    };
                    p.should_rescale_gui = false;
                    p.should_rescale_frame = false;
                    p.should_rotate_frame = false;
                }
            },
        }
    }

    /// Syncs the display surface to the current preview size: playing does
    /// it every iteration, paused only when a dirty flag forced a recompute.
    pub fn update_window(&self, window: &mut HighGuiWindow)
        ensures
            match *self {
                VideoRenderer::Play(p) => *final(window) == (HighGuiWindow {
                    size: Option::Some(p.frame_sizes.preview_frame_size),
                    ..*old(window)
                }),
                VideoRenderer::Pause(p) => {
                    if p.should_update_window {
                        *final(window) == (HighGuiWindow {
                            size: Option::Some(p.frame_sizes.preview_frame_size),
                            ..*old(window)
                        })
                    } else {
                        *final(window) == *old(window)
                    }
                },
            },
    {
        match self {
            VideoRenderer::Play(p) => {
                window.resize(p.frame_sizes.get_preview());
            },
            VideoRenderer::Pause(p) => {
                if p.should_update_window {
                    window.resize(p.frame_sizes.get_preview());
                }
            },
        }
    }

    /// Pushes the current preview frame to the display.
    pub fn render(&self, window: &mut HighGuiWindow)
        ensures
            *final(window) == (HighGuiWindow {
                shown: Option::Some(self.spec_preview_frame()),
                ..*old(window)
            }),
    {
        match self {
            VideoRenderer::Play(p) => window.show(p.preview_frame),
            VideoRenderer::Pause(p) => window.show(p.preview_frame),
        }
    }

    pub open spec fn spec_preview_frame(self) -> FrameData {
        match self {
            VideoRenderer::Play(p) => p.preview_frame,
            VideoRenderer::Pause(p) => p.preview_frame,
        }
    }

    pub open spec fn spec_result_frame(self) -> FrameData {
        match self {
            VideoRenderer::Play(p) => p.result_frame,
            VideoRenderer::Pause(p) => p.result_frame,
        }
    }

    /// Appends the output frame to the sink when one is configured: playing
    /// writes, paused never writes, so pausing neither duplicates nor skips
    /// persisted frames.
    pub fn write(&self, video_writer: &mut Option<VideoWriter>) -> (r: Result<(), VideoError>)
        ensures
            match *self {
                VideoRenderer::Play(p) => match *old(video_writer) {
                    Option::Some(w) => {
                        &&& final(video_writer).is_some()
                        &&& {
                            let w2 = final(video_writer).unwrap();
                            &&& w2.path == w.path
                            &&& w2.fourcc == w.fourcc
                            &&& w2.fps == w.fps
                            &&& w2.frame_size == w.frame_size
                            &&& w2.opened == w.opened
                            &&& w2.fail_write_at == w.fail_write_at
                            &&& (if w.fail_write_at == Option::Some(w.frames@.len() as usize) {
                                r == Result::<(), VideoError>::Err(VideoError::EncodeFailure)
                                && w2 == w
                            } else {
                                r == Result::<(), VideoError>::Ok(())
                                && w2.frames@ == w.frames@.push(p.result_frame)
                            })
                        }
                    },
                    Option::None => r == Result::<(), VideoError>::Ok(())
                        && *final(video_writer) == *old(video_writer),
                },
                VideoRenderer::Pause(_) => r == Result::<(), VideoError>::Ok(())
                    && *final(video_writer) == *old(video_writer),
            },
    {
        match self {
            VideoRenderer::Play(p) => {
                match video_writer {
                    Option::Some(writer) => writer.write(p.result_frame),
                    Option::None => Result::Ok(()),
                }
            },
            VideoRenderer::Pause(_) => Result::Ok(()),
        }
    }

    /// Advances the frame counter: playing counts the processed frame,
    /// paused does not.
    pub fn update_frame_counter(&mut self)
        requires
            old(self).spec_counter() < 0xFFFF_FFFF_FFFF_FFFF,
        ensures
            *final(self) == spec_advance_counter(*old(self)),
    {
        match self {
            VideoRenderer::Play(p) => {
                p.counter = p.counter + 1;
            },
            VideoRenderer::Pause(_) => {},
        }
    }

    /// The progress value both states report: frames processed over total.
    pub fn get_progression(&self) -> (r: ProgressValue)
        ensures
            r == (ProgressValue { counter: self.spec_counter(), total: self.spec_frame_count() }),
    {
        match self {
            VideoRenderer::Play(p) => ProgressValue { counter: p.counter, total: p.frame_count },
            VideoRenderer::Pause(p) => ProgressValue { counter: p.counter, total: p.frame_count },
        }
    }

    /// Emits the current progress on the progress path, unconditionally.
    pub fn send_progression(&self, worker_channels: &mut AsyncChannels)
        ensures
            final(worker_channels).progression.buffered@
                == old(worker_channels).progression.buffered@.push(ProgressValue {
                    counter: self.spec_counter(),
                    total: self.spec_frame_count(),
                }),
            unchanged_but_progression(*old(worker_channels), *final(worker_channels)),
    {
        let progression = self.get_progression();
        worker_channels.send_progression(progression);
    }
}

} // verus!
