//! Worker orchestrator: owns the moved-in source handle and drives the
//! renderer state machine one loop iteration at a time until an abort
//! message arrives, the display surface is closed, a key is pressed, the
//! stream ends, or a collaborator fails. On exit it releases the display
//! and the sink and hands the source back with the outcome.
//!
//! In the running system each iteration is one pass of the worker thread's
//! loop; the embedding drives `step` in its place, handing in the one
//! external observation the loop makes (whether a key was pressed).
use vstd::prelude::*;

verus! {

use crate::channels::AsyncChannels;
use crate::channels::VideoModes;
use crate::channels::latest_of;
use crate::geometry::FrameDimensions;
use crate::geometry::FrameSizeManager;
use crate::geometry::SCALE_UNIT;
use crate::media::FrameData;
use crate::media::HighGuiWindow;
use crate::media::ProgressValue;
use crate::media::WINDOW_AUTOSIZE;
use crate::media::SourceHandle;
use crate::media::VideoError;
use crate::media::VideoWriter;
use crate::options::ProcessOptions;
use crate::options::VideoInfo;
use crate::renderer::PlayMode;
use crate::renderer::VideoRenderer;
use crate::renderer::spec_advance_counter;
use crate::renderer::spec_pause;
use crate::renderer::spec_play;
use crate::renderer::spec_read_transition;
use crate::renderer::spec_update_frame;
use crate::renderer::spec_update_frame_data;

/// The live part of a worker: the owned source, the optional sink, the
/// display surface and the renderer state machine.
#[derive(Debug)]
pub struct RunningWorker {
    pub capture: SourceHandle,
    pub video_writer: Option<VideoWriter>,
    pub window: HighGuiWindow,
    pub video_renderer: VideoRenderer,
}

/// What a terminated worker leaves behind: the returned source (or the
/// first collaborator failure, in which case the source is lost), the
/// flushed and released sink, and the released display surface.
#[derive(Debug)]
pub struct WorkerOutcome {
    pub outcome: Result<SourceHandle, VideoError>,
    pub video_writer: Option<VideoWriter>,
    pub window: HighGuiWindow,
}

/// A worker is either still iterating or has terminated with an outcome.
#[derive(Debug)]
pub enum WorkerRun {
    Running(RunningWorker),
    Done(WorkerOutcome),
}

/// The worker thread as the controller sees it: the six channel endpoints
/// and the run state.
#[derive(Debug)]
pub struct VideoWorker {
    pub worker_channels: AsyncChannels,
    pub run: WorkerRun,
}

/// The writer with its native encoder released.
pub open spec fn spec_release_writer(w: Option<VideoWriter>) -> Option<VideoWriter> {
    match w {
        Option::Some(wr) => Option::Some(VideoWriter { opened: false, ..wr }),
        Option::None => Option::None,
    }
}

/// The window with its native surface released.
pub open spec fn spec_close_window(w: HighGuiWindow) -> HighGuiWindow {
    HighGuiWindow { open: false, ..w }
}

/// The renderer after the iteration's mode poll: a pending mode change
/// replaces the state through `pause`/`play`, no message leaves it alone.
pub open spec fn spec_after_mode_change(r: VideoRenderer, update: Option<VideoModes>) -> VideoRenderer {
    match update {
        Option::Some(VideoModes::Pause) => spec_pause(r),
        Option::Some(VideoModes::Play) => spec_play(r),
        Option::None => r,
    }
}

impl RunningWorker {
    /// The worker invariant: the owned source is well formed, the renderer
    /// is well formed and mirrors the source (same total, and a counter
    /// equal to the frames read), and a configured sink is still open.
    pub open spec fn wf(self) -> bool {
        &&& self.capture.wf()
        &&& self.video_renderer.wf()
        &&& self.video_renderer.spec_frame_count() == self.capture.frame_count
        &&& self.video_renderer.spec_counter() == self.capture.position
        &&& match self.video_writer {
            Option::Some(w) => w.opened,
            Option::None => true,
        }
    }
}

impl VideoWorker {
    pub open spec fn is_finished(self) -> bool {
        match self.run {
            WorkerRun::Running(_) => false,
            WorkerRun::Done(_) => true,
        }
    }

    /// While running, the channel invariants hold and the worker-side
    /// endpoints are alive; once done, they are dropped.
    pub open spec fn wf(self) -> bool {
        &&& self.worker_channels.scales_in_range()
        &&& match self.run {
            WorkerRun::Running(rw) => rw.wf() && self.worker_channels.worker_listening,
            WorkerRun::Done(d) => !self.worker_channels.worker_listening && match d.outcome {
                Result::Ok(capture) => capture.wf(),
                Result::Err(_) => true,
            },
        }
    }

    /// Drives one iteration of the worker loop; a terminated worker stays
    /// as it is. `key_pressed` is the one external observation an iteration
    /// makes: whether a key arrived on the display surface, which ends the
    /// run like the end of the stream does.
    #[verifier::rlimit(100)]
    pub fn step(&mut self, key_pressed: bool)
        requires
            old(self).wf(),
        ensures
            final(self).wf(),
            spec_step_rel(*old(self), *final(self), key_pressed),
    {
        let mut run = WorkerRun::Done(WorkerOutcome {
            outcome: Result::Err(VideoError::DecodeFailure),
            video_writer: Option::None,
            window: HighGuiWindow {
                winname: String::new(),
                mode: 0,
                open: false,
                size: Option::None,
                shown: Option::None,
            },
        });
        core::mem::swap(&mut self.run, &mut run);
        match run {
            WorkerRun::Done(done) => {
                self.run = WorkerRun::Done(done);
            },
            WorkerRun::Running(mut rw) => {
                let not_aborted = self.worker_channels.is_not_aborted();
                if !not_aborted || !rw.window.is_open() {
                    // terminate before this iteration's work: flush the
                    // sink, release the surface, hand the source back
                    match &mut rw.video_writer {
                        Option::Some(writer) => writer.release(),
                        Option::None => {},
                    }
                    rw.window.close();
                    self.worker_channels.worker_listening = false;
                    self.run = WorkerRun::Done(WorkerOutcome {
                        outcome: Result::Ok(rw.capture),
                        video_writer: rw.video_writer,
                        window: rw.window,
                    });
                } else {
                    if let Option::Some(new_mode) = self.worker_channels.get_updated_video_mode() {
                        rw.video_renderer = match new_mode {
                            VideoModes::Pause => rw.video_renderer.pause(),
                            VideoModes::Play => rw.video_renderer.play(),
                        };
                    }
                    let read_result = rw.video_renderer.read_capture(&mut rw.capture);
                    match read_result {
                        Result::Err(read_error) => {
                            // mid-stream decode failure: the source is lost
                            // with the worker; sink and surface are still
                            // released
                            match &mut rw.video_writer {
                                Option::Some(writer) => writer.release(),
                                Option::None => {},
                            }
                            rw.window.close();
                            self.worker_channels.worker_listening = false;
                            self.run = WorkerRun::Done(WorkerOutcome {
                                outcome: Result::Err(read_error),
                                video_writer: rw.video_writer,
                                window: rw.window,
                            });
                        },
                        Result::Ok(frame_available) => {
                            if !frame_available || key_pressed {
                                // end of stream, or a key ended the run
                                match &mut rw.video_writer {
                                    Option::Some(writer) => writer.release(),
                                    Option::None => {},
                                }
                                rw.window.close();
                                self.worker_channels.worker_listening = false;
                                self.run = WorkerRun::Done(WorkerOutcome {
                                    outcome: Result::Ok(rw.capture),
                                    video_writer: rw.video_writer,
                                    window: rw.window,
                                });
                            } else {
                                rw.video_renderer.update_frame_data(&mut self.worker_channels);
                                rw.video_renderer.update_frame();
                                rw.video_renderer.update_window(&mut rw.window);
                                rw.video_renderer.render(&mut rw.window);
                                match rw.video_renderer.write(&mut rw.video_writer) {
                                    Result::Err(write_error) => {
                                        // encode failure: like a decode
                                        // failure, but after the display work
                                        match &mut rw.video_writer {
                                            Option::Some(writer) => writer.release(),
                                            Option::None => {},
                                        }
                                        rw.window.close();
                                        self.worker_channels.worker_listening = false;
                                        self.run = WorkerRun::Done(WorkerOutcome {
                                            outcome: Result::Err(write_error),
                                            video_writer: rw.video_writer,
                                            window: rw.window,
                                        });
                                    },
                                    Result::Ok(_) => {
                                        rw.video_renderer.update_frame_counter();
                                        rw.video_renderer.send_progression(&mut self.worker_channels);
                                        self.run = WorkerRun::Running(rw);
                                    },
                                }
                            }
                        },
                    }
                }
            },
        }
    }
}

/// Whether the renderer will sync the display surface this iteration:
/// playing always does, paused only when a recompute was forced.
pub open spec fn spec_should_sync_window(r: VideoRenderer) -> bool {
    match r {
        VideoRenderer::Play(_) => true,
        VideoRenderer::Pause(p) => p.should_update_window,
    }
}

/// How one `step` call relates the worker state before and after, given
/// whether a key was observed. A terminated worker is left untouched;
/// otherwise the relation follows the loop: consume one pending abort
/// message, stop when one arrived or the surface is gone; apply a pending
/// mode change; read; stop at end of stream or on a key; apply live
/// updates, recompute, sync and feed the display, persist, count, report.
pub open spec fn spec_step_rel(w: VideoWorker, w2: VideoWorker, key_pressed: bool) -> bool {
    match w.run {
        WorkerRun::Done(_) => w2 == w,
        WorkerRun::Running(rw) => {
            let ch = w.worker_channels;
            let ch2 = w2.worker_channels;
            let aborted = ch.abort.buffered@.len() > 0;
            let abort_after = if aborted {
                ch.abort.buffered@.drop_first()
            } else {
                ch.abort.buffered@
            };
            if aborted || !rw.window.open {
                &&& w2.run == WorkerRun::Done(WorkerOutcome {
                    outcome: Result::Ok(rw.capture),
                    video_writer: spec_release_writer(rw.video_writer),
                    window: spec_close_window(rw.window),
                })
                &&& ch2.abort.buffered@ == abort_after
                &&& ch2.progression == ch.progression
                &&& ch2.video_mode == ch.video_mode
                &&& ch2.flip == ch.flip
                &&& ch2.rescale == ch.rescale
                &&& ch2.gui_size == ch.gui_size
                &&& !ch2.worker_listening
            } else {
                let mode_update = latest_of(ch.video_mode.buffered@);
                let r1 = spec_after_mode_change(rw.video_renderer, mode_update);
                let (r2, capture2, read_result) = spec_read_transition(r1, rw.capture);
                &&& ch2.abort.buffered@ == abort_after
                &&& ch2.video_mode.buffered@.len() == 0
                &&& match read_result {
                    Result::Err(read_error) => {
                        &&& w2.run == WorkerRun::Done(WorkerOutcome {
                            outcome: Result::Err(read_error),
                            video_writer: spec_release_writer(rw.video_writer),
                            window: spec_close_window(rw.window),
                        })
                        &&& ch2.progression == ch.progression
                        &&& ch2.flip == ch.flip
                        &&& ch2.rescale == ch.rescale
                        &&& ch2.gui_size == ch.gui_size
                        &&& !ch2.worker_listening
                    },
                    Result::Ok(frame_available) => {
                        if !frame_available || key_pressed {
                            &&& w2.run == WorkerRun::Done(WorkerOutcome {
                                outcome: Result::Ok(capture2),
                                video_writer: spec_release_writer(rw.video_writer),
                                window: spec_close_window(rw.window),
                            })
                            &&& ch2.progression == ch.progression
                            &&& ch2.flip == ch.flip
                            &&& ch2.rescale == ch.rescale
                            &&& ch2.gui_size == ch.gui_size
                            &&& !ch2.worker_listening
                        } else {
                            let flip_update = latest_of(ch.flip.buffered@);
                            let gui_update = latest_of(ch.gui_size.buffered@);
                            let rescale_update = latest_of(ch.rescale.buffered@);
                            let r3 = spec_update_frame_data(r2, flip_update, gui_update, rescale_update);
                            let r4 = spec_update_frame(r3);
                            let window_synced = if spec_should_sync_window(r4) {
                                HighGuiWindow {
                                    size: Option::Some(r4.spec_frame_sizes().preview_frame_size),
                                    ..rw.window
                                }
                            } else {
                                rw.window
                            };
                            let window_rendered = HighGuiWindow {
                                shown: Option::Some(r4.spec_preview_frame()),
                                ..window_synced
                            };
                            let write_fails = r4.is_playing() && match rw.video_writer {
                                Option::Some(writer) => writer.fail_write_at
                                    == Option::Some(writer.frames@.len() as usize),
                                Option::None => false,
                            };
                            &&& ch2.flip.buffered@.len() == 0
                            &&& ch2.gui_size.buffered@.len() == 0
                            &&& ch2.rescale.buffered@.len() == 0
                            &&& if write_fails {
                                &&& w2.run == WorkerRun::Done(WorkerOutcome {
                                    outcome: Result::Err(VideoError::EncodeFailure),
                                    video_writer: spec_release_writer(rw.video_writer),
                                    window: spec_close_window(window_rendered),
                                })
                                &&& ch2.progression == ch.progression
                                &&& !ch2.worker_listening
                            } else {
                                let r5 = spec_advance_counter(r4);
                                &&& match w2.run {
                                    WorkerRun::Running(rw2) => {
                                        &&& rw2.capture == capture2
                                        &&& rw2.video_renderer == r5
                                        &&& rw2.window == window_rendered
                                        &&& match (rw.video_writer, rw2.video_writer) {
                                            (Option::Some(writer), Option::Some(writer2)) => {
                                                if r4.is_playing() {
                                                    &&& writer2.path == writer.path
                                                    &&& writer2.fourcc == writer.fourcc
                                                    &&& writer2.fps == writer.fps
                                                    &&& writer2.frame_size == writer.frame_size
                                                    &&& writer2.opened == writer.opened
                                                    &&& writer2.fail_write_at == writer.fail_write_at
                                                    &&& writer2.frames@ == writer.frames@.push(r4.spec_result_frame())
                                                } else {
                                                    writer2 == writer
                                                }
                                            },
                                            (Option::None, Option::None) => true,
                                            _ => false,
                                        }
                                    },
                                    WorkerRun::Done(_) => false,
                                }
                                &&& ch2.progression.buffered@ == ch.progression.buffered@.push(ProgressValue {
                                    counter: r5.spec_counter(),
                                    total: r5.spec_frame_count(),
                                })
                                &&& ch2.worker_listening
                            }
                        }
                    },
                }
            }
        },
    }
}

/// What a freshly spawned worker looks like, as a function of the source it
/// was handed and the options snapshot: empty channels, a playing renderer
/// at counter zero with the geometry the options describe, a sink exactly
/// when persisting was requested, and a fresh open surface.
pub open spec fn spec_fresh_worker(r: VideoWorker, capture: SourceHandle, options: ProcessOptions) -> bool {
    &&& r.worker_channels.all_empty()
    &&& !r.is_finished()
    &&& match r.run {
        WorkerRun::Running(rw) => {
            &&& rw.capture == capture
            &&& match rw.video_renderer {
                VideoRenderer::Play(p) => {
                    &&& p.counter == 0
                    &&& p.frame_count == capture.frame_count
                    &&& p.frame == FrameData::spec_empty()
                    &&& p.result_frame == FrameData::spec_empty()
                    &&& p.preview_frame == FrameData::spec_empty()
                    &&& p.frame_sizes.wf()
                    &&& p.frame_sizes.frame_size == capture.frame_size
                    &&& p.frame_sizes.rotation == options.flip
                    &&& p.frame_sizes.gui_scale == options.gui_scale
                    &&& p.frame_sizes.re_scale == (match options.re_scale {
                        Option::Some(s) => s,
                        Option::None => SCALE_UNIT,
                    })
                },
                VideoRenderer::Pause(_) => false,
            }
            &&& match rw.video_writer {
                Option::Some(w) => {
                    &&& options.should_process
                    &&& w.path@ == options.spec_edit_path()
                    &&& w.fourcc == ('m', 'p', '4', 'v')
                    &&& w.fps == capture.fps
                    &&& w.frame_size
                        == rw.video_renderer.spec_frame_sizes().rotated_rescaled_frame_size
                    &&& w.frames@.len() == 0
                    &&& w.opened
                    &&& w.fail_write_at.is_none()
                },
                Option::None => !options.should_process,
            }
            &&& rw.window.open
            &&& rw.window.winname@ == options.spec_video_name("Video Capture Edit"@)
            &&& rw.window.size.is_none()
            &&& rw.window.shown.is_none()
        },
        WorkerRun::Done(_) => false,
    }
}

/// Moves the source into a fresh worker, performing the setup the spawned
/// thread does before its first iteration: read the stream metadata, derive
/// the initial geometry from the options, create the display surface, open
/// the sink when persisting was requested, and start in the playing state.
pub fn process_video_thread(capture: SourceHandle, options: &ProcessOptions) -> (r: VideoWorker)
    requires
        capture.wf(),
        capture.position == 0,
        options.scales_in_range(),
    ensures
        r.wf(),
        spec_fresh_worker(r, capture, *options),
{
    let video_info = match VideoInfo::new(&capture) {
        Result::Ok(info) => info,
        Result::Err(_) => {
            // unreachable: metadata of a well-formed handle always reads
            VideoInfo {
                frame_size: capture.frame_size,
                frame_count: capture.frame_count,
                fourcc_codec: (' ', ' ', ' ', ' '),
                fps: capture.fps,
            }
        },
    };
    let total_frame_count = video_info.frame_count;
    let re_scale = match options.re_scale {
        Option::Some(s) => s,
        Option::None => SCALE_UNIT,
    };
    let frame_sizes = FrameSizeManager::new(video_info.frame_size, options.flip, options.gui_scale, re_scale);
    let winname = options.get_video_name("Video Capture Edit");
    let path_str = options.get_edit_path_str();
    let window = HighGuiWindow::build(winname, WINDOW_AUTOSIZE);

    let mut video_writer: Option<VideoWriter> = Option::None;
    if options.should_process {
        let fourcc = ('m', 'p', '4', 'v');
        let writer = VideoWriter::new(path_str, fourcc, video_info.fps, frame_sizes.get_edit());
        video_writer = Option::Some(writer);
    }

    let counter: u64 = 0;
    let video_renderer = VideoRenderer::Play(PlayMode::new(counter, total_frame_count, frame_sizes));

    VideoWorker {
        worker_channels: AsyncChannels::new(),
        run: WorkerRun::Running(RunningWorker { capture, video_writer, window, video_renderer }),
    }
}

/// A worker that observes a pending abort message terminates within that
/// very step: the source is handed back, the sink is flushed, and the
/// frames already persisted are exactly the frames it ends with.
pub proof fn lemma_abort_stops_within_one_step(w: VideoWorker, w2: VideoWorker, key_pressed: bool)
    requires
        w.wf(),
        !w.is_finished(),
        w.worker_channels.abort.buffered@.len() > 0,
        spec_step_rel(w, w2, key_pressed),
    ensures
        w2.is_finished(),
        match (w.run, w2.run) {
            (WorkerRun::Running(rw), WorkerRun::Done(d)) => {
                &&& d.outcome == Result::<SourceHandle, VideoError>::Ok(rw.capture)
                &&& d.video_writer == spec_release_writer(rw.video_writer)
                &&& match (rw.video_writer, d.video_writer) {
                    (Option::Some(w0), Option::Some(w1)) => w1.frames@ == w0.frames@,
                    (Option::None, Option::None) => true,
                    _ => false,
                }
            },
            _ => false,
        },
{
}

/// One quiet playing step persists exactly one frame: with frames left in
/// the stream, no pending control traffic, no key, an open surface and a
/// healthy sink, a step advances the stream position and the counter by
/// one, appends to the sink exactly the newly decoded frame at the edit
/// size, and emits the new progress value.
pub proof fn lemma_playing_step_persists_one_frame(w: VideoWorker, w2: VideoWorker)
    requires
        w.wf(),
        spec_step_rel(w, w2, false),
        match w.run {
            WorkerRun::Running(rw) => {
                &&& rw.video_renderer.is_playing()
                &&& rw.window.open
                &&& rw.capture.position < rw.capture.frame_count
                &&& rw.capture.fail_read_at != Option::Some(rw.capture.position)
                &&& match rw.video_writer {
                    Option::Some(wr) => wr.fail_write_at.is_none(),
                    Option::None => false,
                }
            },
            WorkerRun::Done(_) => false,
        },
        w.worker_channels.abort.buffered@.len() == 0,
        w.worker_channels.video_mode.buffered@.len() == 0,
        w.worker_channels.flip.buffered@.len() == 0,
        w.worker_channels.gui_size.buffered@.len() == 0,
        w.worker_channels.rescale.buffered@.len() == 0,
    ensures
        !w2.is_finished(),
        match (w.run, w2.run) {
            (WorkerRun::Running(rw), WorkerRun::Running(rw2)) => {
                &&& rw2.capture.position == rw.capture.position + 1
                &&& rw2.video_renderer.spec_counter() == rw.video_renderer.spec_counter() + 1
                &&& match (rw.video_writer, rw2.video_writer) {
                    (Option::Some(w0), Option::Some(w1)) => {
                        &&& w1.frames@.len() == w0.frames@.len() + 1
                        &&& w1.frames@.last() == (FrameData {
                            size: rw.video_renderer.spec_frame_sizes().rotated_rescaled_frame_size,
                            source_index: Option::Some((rw.capture.position + 1) as u64),
                        })
                    },
                    _ => false,
                }
                &&& w2.worker_channels.progression.buffered@
                    == w.worker_channels.progression.buffered@.push(ProgressValue {
                        counter: (rw.video_renderer.spec_counter() + 1) as u64,
                        total: rw.capture.frame_count,
                    })
            },
            _ => false,
        },
{
}

/// A worker mid-way through a quiet persisting run: playing, surface open,
/// no control message pending, no failure injected anywhere, and the sink
/// holding exactly the first `processed` stream frames in order, each at
/// the edit size `edit`.
pub open spec fn quiet_persisting_run(w: VideoWorker, total: u64, processed: u64, edit: FrameDimensions) -> bool {
    &&& w.wf()
    &&& match w.run {
        WorkerRun::Running(rw) => {
            &&& rw.video_renderer.is_playing()
            &&& rw.video_renderer.spec_frame_sizes().rotated_rescaled_frame_size == edit
            &&& rw.window.open
            &&& rw.capture.frame_count == total
            &&& rw.capture.position == processed
            &&& rw.capture.fail_read_at.is_none()
            &&& match rw.video_writer {
                Option::Some(wr) => {
                    &&& wr.fail_write_at.is_none()
                    &&& wr.frames@.len() == processed
                    &&& forall|i: int| 0 <= i < processed ==> wr.frames@[i] == (FrameData {
                        size: edit,
                        source_index: Option::Some((i + 1) as u64),
                    })
                },
                Option::None => false,
            }
        },
        WorkerRun::Done(_) => false,
    }
    &&& w.worker_channels.abort.buffered@.len() == 0
    &&& w.worker_channels.video_mode.buffered@.len() == 0
    &&& w.worker_channels.flip.buffered@.len() == 0
    &&& w.worker_channels.gui_size.buffered@.len() == 0
    &&& w.worker_channels.rescale.buffered@.len() == 0
}

/// One step of a quiet persisting run with frames remaining stays a quiet
/// persisting run and persists exactly the next stream frame.
pub proof fn lemma_quiet_step_advances(w: VideoWorker, w2: VideoWorker, total: u64, processed: u64, edit: FrameDimensions)
    requires
        quiet_persisting_run(w, total, processed, edit),
        processed < total,
        spec_step_rel(w, w2, false),
        w2.wf(),
    ensures
        quiet_persisting_run(w2, total, (processed + 1) as u64, edit),
{
}

/// The step after the last stream frame of a quiet persisting run
/// terminates the worker: the source comes back fully read, and the
/// released sink holds exactly the whole stream.
pub proof fn lemma_quiet_run_completes(w: VideoWorker, w2: VideoWorker, total: u64, edit: FrameDimensions)
    requires
        quiet_persisting_run(w, total, total, edit),
        spec_step_rel(w, w2, false),
    ensures
        w2.is_finished(),
        match w2.run {
            WorkerRun::Done(d) => {
                &&& match d.outcome {
                    Result::Ok(capture) => capture.frame_count == total
                        && capture.position == total,
                    Result::Err(_) => false,
                }
                &&& match d.video_writer {
                    Option::Some(wr) => {
                        &&& !wr.opened
                        &&& wr.frames@.len() == total
                        &&& forall|i: int| 0 <= i < total ==> wr.frames@[i] == (FrameData {
                            size: edit,
                            source_index: Option::Some((i + 1) as u64),
                        })
                    },
                    Option::None => false,
                }
            },
            WorkerRun::Running(_) => false,
        },
{
}

/// A dispatched persisting run that receives no control message and no key
/// press processes its whole stream and then stops: after one step per
/// stream frame and one closing step, the worker has terminated, the
/// source comes back fully read, and the flushed sink holds exactly the
/// stream's frames, in order, each at the edit size.
pub proof fn lemma_quiet_run_persists_whole_stream(states: Seq<VideoWorker>, total: u64, edit: FrameDimensions)
    requires
        states.len() == total + 2,
        quiet_persisting_run(states[0], total, 0, edit),
        forall|i: int| 0 <= i < total + 1 ==> spec_step_rel(#[trigger] states[i], states[i + 1], false),
        forall|i: int| 0 <= i < total + 2 ==> (#[trigger] states[i]).wf(),
    ensures
        states[total + 1].is_finished(),
        match states[total + 1].run {
            WorkerRun::Done(d) => {
                &&& match d.outcome {
                    Result::Ok(capture) => capture.frame_count == total
                        && capture.position == total,
                    Result::Err(_) => false,
                }
                &&& match d.video_writer {
                    Option::Some(wr) => {
                        &&& !wr.opened
                        &&& wr.frames@.len() == total
                        &&& forall|i: int| 0 <= i < total ==> wr.frames@[i] == (FrameData {
                            size: edit,
                            source_index: Option::Some((i + 1) as u64),
                        })
                    },
                    Option::None => false,
                }
            },
            WorkerRun::Running(_) => false,
        },
{
    lemma_quiet_prefix(states, total, total, edit);
    lemma_quiet_run_completes(states[total as int], states[total + 1], total, edit);
}

/// After `k` quiet steps, the worker has persisted exactly the first `k`
/// stream frames.
proof fn lemma_quiet_prefix(states: Seq<VideoWorker>, total: u64, k: u64, edit: FrameDimensions)
    requires
        states.len() == total + 2,
        quiet_persisting_run(states[0], total, 0, edit),
        forall|i: int| 0 <= i < total + 1 ==> spec_step_rel(#[trigger] states[i], states[i + 1], false),
        forall|i: int| 0 <= i < total + 2 ==> (#[trigger] states[i]).wf(),
        k <= total,
    ensures
        quiet_persisting_run(states[k as int], total, k, edit),
    decreases k,
{
    if k > 0 {
        lemma_quiet_prefix(states, total, (k - 1) as u64, edit);
        lemma_quiet_step_advances(states[k - 1], states[k as int], total, (k - 1) as u64, edit);
    }
}


} // verus!
