//! A verified model of a two-thread video processing pipeline: a controller
//! facade owns an exclusive source handle, dispatches a worker that streams
//! frames through live-adjustable transforms, and coordinates with it over
//! coalescing control channels until the worker hands the source back.
//!
//! The facade holds the source handle exactly while no worker is
//! outstanding: dispatch moves it into the worker, join retrieves it. The
//! controller never blocks on a channel; every control send is
//! fire-and-forget, every poll non-blocking, and a send to a worker that
//! already exited is a silent no-op.
use vstd::prelude::*;

pub mod channels;
pub mod geometry;
pub mod media;
pub mod options;
pub mod renderer;
pub mod text;
pub mod ui;
pub mod worker;

verus! {

use crate::channels::VideoModes;
use crate::channels::latest_of;
use crate::channels::unchanged_but_abort;
use crate::channels::unchanged_but_flip;
use crate::channels::unchanged_but_gui_size;
use crate::channels::unchanged_but_progression;
use crate::channels::unchanged_but_rescale;
use crate::channels::unchanged_but_video_mode;
use crate::geometry::MAX_SCALE_MILLI;
use crate::geometry::RotateFlags;
use crate::geometry::SCALE_UNIT;
use crate::media::ProgressValue;
use crate::media::SourceHandle;
use crate::media::VideoError;
use crate::options::ProcessOptions;
use crate::options::VideoInfo;
use crate::options::spec_info_of;
use crate::worker::VideoWorker;
use crate::worker::WorkerRun;
use crate::worker::process_video_thread;
use crate::worker::spec_fresh_worker;
use crate::worker::spec_step_rel;

/// The controller-side facade: owns the source handle while idle, mirrors
/// the adjustable parameters, and holds the worker with its channel
/// endpoints while a run is outstanding.
#[derive(Debug)]
pub struct VideoProcessor {
    pub high_gui_scale: u32,
    pub re_scale: u32,
    pub file_name: String,
    pub worker: Option<VideoWorker>,
    pub my_video: Option<SourceHandle>,
    pub my_flip: Option<RotateFlags>,
    pub video_mode: Option<VideoModes>,
    pub video_info: Option<VideoInfo>,
}

impl VideoProcessor {
    /// The facade invariant: the mirrored scales are in range; the handle
    /// is held by the facade (at the start of its stream) or by the
    /// worker, never both; a mirrored mode exists exactly while a worker
    /// does.
    pub open spec fn wf(self) -> bool {
        &&& 1 <= self.high_gui_scale <= MAX_SCALE_MILLI
        &&& 1 <= self.re_scale <= MAX_SCALE_MILLI
        &&& match self.worker {
            Option::Some(w) => w.wf() && self.my_video.is_none() && self.video_mode.is_some(),
            Option::None => self.video_mode.is_none(),
        }
        &&& match self.my_video {
            Option::Some(v) => v.wf() && v.position == 0,
            Option::None => true,
        }
    }

    pub open spec fn spec_has_launched_process(self) -> bool {
        self.worker.is_some()
    }

    /// Whether a worker is outstanding. True from dispatch until join, even
    /// after the worker terminated.
    pub fn has_launched_process(&self) -> (r: bool)
        ensures
            r == self.spec_has_launched_process(),
    {
        self.worker.is_some()
    }

    /// Whether the facade holds a source, directly or through an
    /// outstanding worker.
    pub fn has_video(&self) -> (r: bool)
        ensures
            r == (self.my_video.is_some() || self.spec_has_launched_process()),
    {
        self.my_video.is_some() || self.has_launched_process()
    }

    /// The metadata of the held source, when the facade holds one.
    pub fn get_current_info(&self) -> (r: Option<VideoInfo>)
        requires
            self.wf(),
        ensures
            r == (match self.my_video {
                Option::Some(v) => Option::Some(spec_info_of(v)),
                Option::None => Option::<VideoInfo>::None,
            }),
    {
        match &self.my_video {
            Option::Some(capture) => {
                match VideoInfo::new(capture) {
                    Result::Ok(info) => Option::Some(info),
                    Result::Err(_) => Option::None,
                }
            },
            Option::None => Option::None,
        }
    }

    /// Releases the held source. Reports whether there was one to release;
    /// the stale metadata is cleared only in that case.
    pub fn unload_video(&mut self) -> (r: Result<bool, VideoError>)
        ensures
            final(self).my_video.is_none(),
            r == Result::<bool, VideoError>::Ok(old(self).my_video.is_some()),
            old(self).my_video.is_some() ==> *final(self) == (VideoProcessor {
                my_video: Option::None,
                video_info: Option::None,
                ..*old(self)
            }),
            old(self).my_video.is_none() ==> *final(self) == *old(self),
    {
        if let Option::Some(_video) = self.my_video.take() {
            self.video_info = Option::None;
            return Result::Ok(true);
        }
        Result::Ok(false)
    }

    /// Installs a new preview window scale: the mirror always updates, and
    /// a control message goes out only when a worker is outstanding and the
    /// value actually changed.
    pub fn set_gui_scale(&mut self, scale: u32)
        requires
            old(self).wf(),
            1 <= scale <= MAX_SCALE_MILLI,
        ensures
            final(self).wf(),
            final(self).high_gui_scale == scale,
            final(self).re_scale == old(self).re_scale,
            final(self).file_name == old(self).file_name,
            final(self).my_video == old(self).my_video,
            final(self).my_flip == old(self).my_flip,
            final(self).video_mode == old(self).video_mode,
            final(self).video_info == old(self).video_info,
            match (old(self).worker, final(self).worker) {
                (Option::Some(w), Option::Some(w2)) => {
                    &&& w2.run == w.run
                    &&& (if old(self).high_gui_scale != scale && w.worker_channels.worker_listening {
                        w2.worker_channels.gui_size.buffered@
                            == w.worker_channels.gui_size.buffered@.push(scale)
                        && unchanged_but_gui_size(w.worker_channels, w2.worker_channels)
                    } else {
                        w2.worker_channels == w.worker_channels
                    })
                },
                (Option::None, Option::None) => true,
                _ => false,
            },
    {
        if self.high_gui_scale != scale {
            match &mut self.worker {
                Option::Some(w) => {
                    w.worker_channels.send_new_gui_size(scale);
                },
                Option::None => {},
            }
        }
        self.high_gui_scale = scale;
    }

    /// Installs a new rescale factor, with the same change-only
    /// propagation as the gui scale.
    pub fn set_rescale(&mut self, rescale: u32)
        requires
            old(self).wf(),
            1 <= rescale <= MAX_SCALE_MILLI,
        ensures
            final(self).wf(),
            final(self).re_scale == rescale,
            final(self).high_gui_scale == old(self).high_gui_scale,
            final(self).file_name == old(self).file_name,
            final(self).my_video == old(self).my_video,
            final(self).my_flip == old(self).my_flip,
            final(self).video_mode == old(self).video_mode,
            final(self).video_info == old(self).video_info,
            match (old(self).worker, final(self).worker) {
                (Option::Some(w), Option::Some(w2)) => {
                    &&& w2.run == w.run
                    &&& (if old(self).re_scale != rescale && w.worker_channels.worker_listening {
                        w2.worker_channels.rescale.buffered@
                            == w.worker_channels.rescale.buffered@.push(rescale)
                        && unchanged_but_rescale(w.worker_channels, w2.worker_channels)
                    } else {
                        w2.worker_channels == w.worker_channels
                    })
                },
                (Option::None, Option::None) => true,
                _ => false,
            },
    {
        if self.re_scale != rescale {
            match &mut self.worker {
                Option::Some(w) => {
                    w.worker_channels.send_new_rescale(rescale);
                },
                Option::None => {},
            }
        }
        self.re_scale = rescale;
    }

    /// Installs a new rotation choice, with the same change-only
    /// propagation as the scales.
    pub fn set_flip(&mut self, flip: Option<RotateFlags>)
        requires
            old(self).wf(),
        ensures
            final(self).wf(),
            final(self).my_flip == flip,
            final(self).high_gui_scale == old(self).high_gui_scale,
            final(self).re_scale == old(self).re_scale,
            final(self).file_name == old(self).file_name,
            final(self).my_video == old(self).my_video,
            final(self).video_mode == old(self).video_mode,
            final(self).video_info == old(self).video_info,
            match (old(self).worker, final(self).worker) {
                (Option::Some(w), Option::Some(w2)) => {
                    &&& w2.run == w.run
                    &&& (if old(self).my_flip != flip && w.worker_channels.worker_listening {
                        w2.worker_channels.flip.buffered@
                            == w.worker_channels.flip.buffered@.push(flip)
                        && unchanged_but_flip(w.worker_channels, w2.worker_channels)
                    } else {
                        w2.worker_channels == w.worker_channels
                    })
                },
                (Option::None, Option::None) => true,
                _ => false,
            },
    {
        let changed = match (&self.my_flip, &flip) {
            (Option::Some(a), Option::Some(b)) => *a != *b,
            (Option::None, Option::None) => false,
            _ => true,
        };
        if changed {
            match &mut self.worker {
                Option::Some(w) => {
                    w.worker_channels.send_new_flip(flip);
                },
                Option::None => {},
            }
        }
        self.my_flip = flip;
    }

    /// Asks an outstanding playing worker to pause: valid only along the
    /// matching mirrored-mode edge, a no-op otherwise.
    pub fn pause_video(&mut self)
        requires
            old(self).wf(),
        ensures
            final(self).wf(),
            ({
                let eligible = old(self).spec_has_launched_process()
                    && old(self).video_mode == Option::Some(VideoModes::Play);
                if eligible {
                    &&& final(self).video_mode == Option::Some(VideoModes::Pause)
                    &&& match (old(self).worker, final(self).worker) {
                        (Option::Some(w), Option::Some(w2)) => {
                            &&& w2.run == w.run
                            &&& (if w.worker_channels.worker_listening {
                                w2.worker_channels.video_mode.buffered@
                                    == w.worker_channels.video_mode.buffered@.push(VideoModes::Pause)
                                && unchanged_but_video_mode(w.worker_channels, w2.worker_channels)
                            } else {
                                w2.worker_channels == w.worker_channels
                            })
                        },
                        _ => false,
                    }
                    &&& final(self).high_gui_scale == old(self).high_gui_scale
                    &&& final(self).re_scale == old(self).re_scale
                    &&& final(self).file_name == old(self).file_name
                    &&& final(self).my_video == old(self).my_video
                    &&& final(self).my_flip == old(self).my_flip
                    &&& final(self).video_info == old(self).video_info
                } else {
                    *final(self) == *old(self)
                }
            }),
    {
        let is_playing = match &self.video_mode {
            Option::Some(mode) => *mode == VideoModes::Play,
            Option::None => false,
        };
        if self.has_launched_process() && is_playing {
            match &mut self.worker {
                Option::Some(w) => {
                    w.worker_channels.send_new_video_mode(VideoModes::Pause);
                },
                Option::None => {},
            }
            self.video_mode = Option::Some(VideoModes::Pause);
        }
    }

    /// Asks an outstanding paused worker to resume: valid only along the
    /// matching mirrored-mode edge, a no-op otherwise.
    pub fn resume_video(&mut self)
        requires
            old(self).wf(),
        ensures
            final(self).wf(),
            ({
                let eligible = old(self).spec_has_launched_process()
                    && old(self).video_mode == Option::Some(VideoModes::Pause);
                if eligible {
                    &&& final(self).video_mode == Option::Some(VideoModes::Play)
                    &&& match (old(self).worker, final(self).worker) {
                        (Option::Some(w), Option::Some(w2)) => {
                            &&& w2.run == w.run
                            &&& (if w.worker_channels.worker_listening {
                                w2.worker_channels.video_mode.buffered@
                                    == w.worker_channels.video_mode.buffered@.push(VideoModes::Play)
                                && unchanged_but_video_mode(w.worker_channels, w2.worker_channels)
                            } else {
                                w2.worker_channels == w.worker_channels
                            })
                        },
                        _ => false,
                    }
                    &&& final(self).high_gui_scale == old(self).high_gui_scale
                    &&& final(self).re_scale == old(self).re_scale
                    &&& final(self).file_name == old(self).file_name
                    &&& final(self).my_video == old(self).my_video
                    &&& final(self).my_flip == old(self).my_flip
                    &&& final(self).video_info == old(self).video_info
                } else {
                    *final(self) == *old(self)
                }
            }),
    {
        let is_paused = match &self.video_mode {
            Option::Some(mode) => *mode == VideoModes::Pause,
            Option::None => false,
        };
        if self.has_launched_process() && is_paused {
            match &mut self.worker {
                Option::Some(w) => {
                    w.worker_channels.send_new_video_mode(VideoModes::Play);
                },
                Option::None => {},
            }
            self.video_mode = Option::Some(VideoModes::Play);
        }
    }

    /// Installs a freshly opened source handle (or records that opening
    /// failed), remembers the locator it came from, and refreshes the
    /// metadata. Returns whether a source is now held. Only for an idle
    /// facade: while a worker is outstanding, the interface offers no way
    /// to open a file, and accepting one here would put the exclusive
    /// handle in two hands at the next dispatch.
    pub fn try_grab_video(&mut self, source: Option<SourceHandle>, file_name: String) -> (r: bool)
        requires
            old(self).wf(),
            old(self).worker.is_none(),
            match source {
                Option::Some(v) => v.wf() && v.position == 0,
                Option::None => true,
            },
        ensures
            final(self).wf(),
            final(self).my_video == source,
            final(self).file_name@ == file_name@,
            r == source.is_some(),
            final(self).video_info == (match source {
                Option::Some(v) => Option::Some(spec_info_of(v)),
                Option::None => old(self).video_info,
            }),
            final(self).worker == old(self).worker,
            final(self).high_gui_scale == old(self).high_gui_scale,
            final(self).re_scale == old(self).re_scale,
            final(self).my_flip == old(self).my_flip,
            final(self).video_mode == old(self).video_mode,
    {
        self.my_video = source;
        self.file_name = file_name;
        if self.has_video() {
            self.video_info = self.get_current_info();
        }
        self.has_video()
    }

    /// Moves the held source into a fresh worker and records the playing
    /// mode as the mirror. Rejected as a no-op when no source is held; in
    /// particular, a second dispatch without an intervening join finds the
    /// handle gone and returns false, so at most one worker ever runs.
    pub fn dispatch_video_process(&mut self, options: ProcessOptions) -> (r: bool)
        requires
            old(self).wf(),
            options.scales_in_range(),
        ensures
            final(self).wf(),
            r == old(self).my_video.is_some(),
            old(self).spec_has_launched_process() ==> !r && *final(self) == *old(self),
            old(self).my_video.is_none() ==> *final(self) == *old(self),
            match old(self).my_video {
                Option::Some(capture) => {
                    &&& final(self).my_video.is_none()
                    &&& final(self).video_mode == Option::Some(VideoModes::Play)
                    &&& match final(self).worker {
                        Option::Some(w) => spec_fresh_worker(w, capture, options),
                        Option::None => false,
                    }
                    &&& final(self).high_gui_scale == old(self).high_gui_scale
                    &&& final(self).re_scale == old(self).re_scale
                    &&& final(self).file_name == old(self).file_name
                    &&& final(self).my_flip == old(self).my_flip
                    &&& final(self).video_info == old(self).video_info
                },
                Option::None => true,
            },
    {
        if let Option::Some(capture) = self.my_video.take() {
            let worker = process_video_thread(capture, &options);
            self.worker = Option::Some(worker);
            self.video_mode = Option::Some(VideoModes::Play);
            return true;
        }
        false
    }

    /// Best-effort abort: reports whether the message reached a worker
    /// that was still listening. A false return only means the worker
    /// already exited, not an error.
    pub fn try_abort(&mut self) -> (r: bool)
        requires
            old(self).wf(),
        ensures
            final(self).wf(),
            r == (match old(self).worker {
                Option::Some(w) => w.worker_channels.worker_listening,
                Option::None => false,
            }),
            match (old(self).worker, final(self).worker) {
                (Option::Some(w), Option::Some(w2)) => {
                    &&& w2.run == w.run
                    &&& (if w.worker_channels.worker_listening {
                        w2.worker_channels.abort.buffered@
                            == w.worker_channels.abort.buffered@.push(true)
                        && unchanged_but_abort(w.worker_channels, w2.worker_channels)
                    } else {
                        w2.worker_channels == w.worker_channels
                    })
                },
                (Option::None, Option::None) => true,
                _ => false,
            },
            final(self).high_gui_scale == old(self).high_gui_scale,
            final(self).re_scale == old(self).re_scale,
            final(self).file_name == old(self).file_name,
            final(self).my_video == old(self).my_video,
            final(self).my_flip == old(self).my_flip,
            final(self).video_mode == old(self).video_mode,
            final(self).video_info == old(self).video_info,
    {
        match &mut self.worker {
            Option::Some(w) => w.worker_channels.send_abort_signal(),
            Option::None => false,
        }
    }

    /// Non-blocking poll of the progress path: the latest reported value,
    /// or nothing when the worker reported nothing new (or none exists).
    pub fn get_progression(&mut self) -> (r: Option<ProgressValue>)
        requires
            old(self).wf(),
        ensures
            final(self).wf(),
            match (old(self).worker, final(self).worker) {
                (Option::Some(w), Option::Some(w2)) => {
                    &&& r == latest_of(w.worker_channels.progression.buffered@)
                    &&& w2.run == w.run
                    &&& w2.worker_channels.progression.buffered@ == Seq::<ProgressValue>::empty()
                    &&& unchanged_but_progression(w.worker_channels, w2.worker_channels)
                },
                (Option::None, Option::None) => r.is_none(),
                _ => false,
            },
            final(self).high_gui_scale == old(self).high_gui_scale,
            final(self).re_scale == old(self).re_scale,
            final(self).file_name == old(self).file_name,
            final(self).my_video == old(self).my_video,
            final(self).my_flip == old(self).my_flip,
            final(self).video_mode == old(self).video_mode,
            final(self).video_info == old(self).video_info,
    {
        match &mut self.worker {
            Option::Some(w) => w.worker_channels.get_last_progression(),
            Option::None => Option::None,
        }
    }

    /// Non-blocking, side-effect-free query of worker completion.
    pub fn is_process_finished(&self) -> (r: bool)
        ensures
            r == (match self.worker {
                Option::Some(w) => w.is_finished(),
                Option::None => false,
            }),
    {
        match &self.worker {
            Option::Some(w) => {
                match &w.run {
                    WorkerRun::Running(_) => false,
                    WorkerRun::Done(_) => true,
                }
            },
            Option::None => false,
        }
    }

    /// Drives one iteration of an outstanding worker in the worker
    /// thread's place. Without a worker, nothing happens.
    pub fn step_worker(&mut self, key_pressed: bool)
        requires
            old(self).wf(),
        ensures
            final(self).wf(),
            match (old(self).worker, final(self).worker) {
                (Option::Some(w), Option::Some(w2)) => spec_step_rel(w, w2, key_pressed),
                (Option::None, Option::None) => true,
                _ => false,
            },
            final(self).high_gui_scale == old(self).high_gui_scale,
            final(self).re_scale == old(self).re_scale,
            final(self).file_name == old(self).file_name,
            final(self).my_video == old(self).my_video,
            final(self).my_flip == old(self).my_flip,
            final(self).video_mode == old(self).video_mode,
            final(self).video_info == old(self).video_info,
    {
        match &mut self.worker {
            Option::Some(w) => w.step(key_pressed),
            Option::None => {},
        }
    }

    /// Joins a terminated worker: retrieves the outcome, restores the
    /// handle repositioned at the start of its stream, clears the worker
    /// and the mirrored mode, and reports the final progress computed from
    /// the source's own position counters. Without a worker it only resets
    /// the mirror. A collaborator failure is propagated here, and the
    /// source it took down stays lost.
    pub fn handle_thread_join(&mut self) -> (r: Result<ProgressValue, VideoError>)
        requires
            old(self).wf(),
            match old(self).worker {
                Option::Some(w) => w.is_finished(),
                Option::None => true,
            },
        ensures
            final(self).wf(),
            final(self).worker.is_none(),
            final(self).video_mode.is_none(),
            final(self).high_gui_scale == old(self).high_gui_scale,
            final(self).re_scale == old(self).re_scale,
            final(self).file_name == old(self).file_name,
            final(self).my_flip == old(self).my_flip,
            final(self).video_info == old(self).video_info,
            match old(self).worker {
                Option::None => {
                    &&& r == Result::<ProgressValue, VideoError>::Ok(ProgressValue { counter: 0, total: 0 })
                    &&& final(self).my_video == old(self).my_video
                },
                Option::Some(w) => match w.run {
                    WorkerRun::Done(d) => match d.outcome {
                        Result::Ok(capture) => {
                            &&& r == Result::<ProgressValue, VideoError>::Ok(ProgressValue {
                                counter: capture.position,
                                total: capture.frame_count,
                            })
                            &&& final(self).my_video == Option::Some(SourceHandle {
                                position: 0,
                                ..capture
                            })
                        },
                        Result::Err(e) => {
                            &&& r == Result::<ProgressValue, VideoError>::Err(e)
                            &&& final(self).my_video == old(self).my_video
                        },
                    },
                    WorkerRun::Running(_) => true,
                },
            },
    {
        let mut final_progress = ProgressValue { counter: 0, total: 0 };
        if let Option::Some(worker) = self.worker.take() {
            match worker.run {
                WorkerRun::Done(done) => {
                    match done.outcome {
                        Result::Ok(mut original_video) => {
                            final_progress = ProgressValue {
                                counter: original_video.position,
                                total: original_video.frame_count,
                            };
                            original_video.reset_position();
                            self.my_video = Option::Some(original_video);
                        },
                        Result::Err(e) => {
                            self.video_mode = Option::None;
                            return Result::Err(e);
                        },
                    }
                },
                WorkerRun::Running(_) => {
                    // unreachable: callers join only terminated workers
                },
            }
        }
        self.video_mode = Option::None;
        Result::Ok(final_progress)
    }

    /// Deterministic teardown: if a worker is outstanding, abort it, let it
    /// wind down, and join it; then release the held source. Runs at the
    /// facade's end of life.
    pub fn clean_up(&mut self) -> (r: Result<(), VideoError>)
        requires
            old(self).wf(),
            match old(self).worker {
                Option::Some(w) => !w.is_finished(),
                Option::None => true,
            },
        ensures
            final(self).wf(),
            r == Result::<(), VideoError>::Ok(()),
            final(self).worker.is_none(),
            final(self).video_mode.is_none(),
            final(self).my_video.is_none(),
            final(self).high_gui_scale == old(self).high_gui_scale,
            final(self).re_scale == old(self).re_scale,
            final(self).file_name == old(self).file_name,
            final(self).my_flip == old(self).my_flip,
            final(self).video_info == old(self).video_info,
    {
        if self.has_launched_process() {
            self.try_abort();
            self.step_worker(false);
            match self.handle_thread_join() {
                Result::Ok(_) => {},
                Result::Err(e) => {
                    // unreachable: an aborted worker hands its source back
                    self.my_video = Option::None;
                    return Result::Err(e);
                },
            }
        }
        if let Option::Some(_original_video) = self.my_video.take() {
            // the handle's native resources go with it
        }
        Result::Ok(())
    }
}

impl Default for VideoProcessor {
    /// An idle facade: no source, no worker, both scales at one.
    fn default() -> (r: Self)
        ensures
            r.wf(),
            r.high_gui_scale == SCALE_UNIT,
            r.re_scale == SCALE_UNIT,
            r.file_name@.len() == 0,
            r.worker.is_none(),
            r.my_video.is_none(),
            r.my_flip.is_none(),
            r.video_mode.is_none(),
            r.video_info.is_none(),
    {
        VideoProcessor {
            high_gui_scale: SCALE_UNIT,
            re_scale: SCALE_UNIT,
            file_name: String::new(),
            worker: Option::None,
            my_video: Option::None,
            my_flip: Option::None,
            video_mode: Option::None,
            video_info: Option::None,
        }
    }
}

} // verus!
