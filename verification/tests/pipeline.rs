use video_processor::VideoProcessor;
use video_processor::channels::VideoModes;
use video_processor::geometry::FrameDimensions;
use video_processor::geometry::FrameSizeManager;
use video_processor::geometry::RotateFlags;
use video_processor::media::FrameData;
use video_processor::media::ProgressValue;
use video_processor::media::SourceHandle;
use video_processor::media::VideoError;
use video_processor::options::ProcessOptions;
use video_processor::renderer::PauseMode;
use video_processor::renderer::VideoRenderer;
use video_processor::media::SourceLocator;
use video_processor::worker::WorkerRun;

const FOURCC_MP4V: u32 = 0x7634706d;

fn test_source(frame_count: u64) -> SourceHandle {
    SourceHandle::new(
        FrameDimensions { width: 640, height: 480 },
        frame_count,
        30,
        FOURCC_MP4V,
        None,
    )
}

fn persisting_options(rotation: Option<RotateFlags>, rescale_milli: Option<u32>) -> ProcessOptions {
    ProcessOptions {
        gui_scale: 1000,
        edit_file_name: String::from("out.mp4"),
        flip: rotation,
        should_process: true,
        preview: true,
        re_scale: rescale_milli,
    }
}

fn worker_position(p: &VideoProcessor) -> u64 {
    match &p.worker.as_ref().expect("worker present").run {
        WorkerRun::Running(rw) => rw.capture.position,
        WorkerRun::Done(_) => panic!("worker already done"),
    }
}

fn worker_counter(p: &VideoProcessor) -> u64 {
    match &p.worker.as_ref().expect("worker present").run {
        WorkerRun::Running(rw) => match &rw.video_renderer {
            VideoRenderer::Play(m) => m.counter,
            VideoRenderer::Pause(m) => m.counter,
        },
        WorkerRun::Done(_) => panic!("worker already done"),
    }
}

fn worker_is_paused(p: &VideoProcessor) -> bool {
    match &p.worker.as_ref().expect("worker present").run {
        WorkerRun::Running(rw) => matches!(rw.video_renderer, VideoRenderer::Pause(_)),
        WorkerRun::Done(_) => false,
    }
}

#[test]
fn pause_play_round_trip_keeps_counter_and_geometry() {
    let mut p = VideoProcessor::default();
    assert!(p.try_grab_video(Some(test_source(100)), String::from("clip.mp4")));
    assert!(p.dispatch_video_process(persisting_options(Some(RotateFlags::Rotate180), Some(500))));

    for _ in 0..3 {
        p.step_worker(false);
    }
    assert_eq!(worker_counter(&p), 3);
    let position_before = worker_position(&p);

    p.pause_video();
    p.step_worker(false); // the worker applies the pause
    assert!(worker_is_paused(&p));
    for _ in 0..5 {
        p.step_worker(false); // paused iterations change nothing counted
    }
    assert_eq!(worker_counter(&p), 3);
    assert_eq!(worker_position(&p), position_before);

    p.resume_video();
    p.step_worker(false); // the worker applies the resume and processes one frame
    assert!(!worker_is_paused(&p));
    assert_eq!(worker_counter(&p), 4);
    assert_eq!(worker_position(&p), position_before + 1);

    p.clean_up().expect("teardown");
}

#[test]
fn paused_renderer_reads_the_source_at_most_once() {
    let sizes = FrameSizeManager::new(
        FrameDimensions { width: 640, height: 480 },
        None,
        1000,
        1000,
    );
    // a paused state with an empty cache performs exactly one real read
    let mut renderer = VideoRenderer::Pause(PauseMode::new(0, 10, sizes, None));
    let mut source = test_source(10);
    for _ in 0..7 {
        let available = renderer.read_capture(&mut source).expect("no failure injected");
        assert!(available);
    }
    assert_eq!(source.position, 1);
}

#[test]
fn paused_renderer_with_cached_frame_never_reads() {
    let sizes = FrameSizeManager::new(
        FrameDimensions { width: 640, height: 480 },
        None,
        1000,
        1000,
    );
    let cached = FrameData {
        size: FrameDimensions { width: 640, height: 480 },
        source_index: Some(1),
    };
    let mut renderer = VideoRenderer::Pause(PauseMode::new(1, 10, sizes, Some(cached)));
    let mut source = test_source(10);
    source.position = 1;
    for _ in 0..5 {
        let available = renderer.read_capture(&mut source).expect("no failure injected");
        assert!(available);
    }
    assert_eq!(source.position, 1);
}

#[test]
fn second_dispatch_without_join_is_rejected() {
    let mut p = VideoProcessor::default();
    assert!(p.try_grab_video(Some(test_source(100)), String::from("clip.mp4")));
    assert!(p.dispatch_video_process(persisting_options(None, None)));
    assert!(p.has_launched_process());
    // the handle is with the worker now: a second dispatch finds none
    assert!(!p.dispatch_video_process(persisting_options(None, None)));
    assert!(p.has_launched_process());
    p.clean_up().expect("teardown");
}

#[test]
fn end_to_end_run_persists_every_frame_at_the_edit_size() {
    let mut p = VideoProcessor::default();
    assert!(p.try_grab_video(Some(test_source(100)), String::from("clip.mp4")));
    assert!(p.dispatch_video_process(persisting_options(
        Some(RotateFlags::Rotate90Clockwise),
        Some(500),
    )));

    let mut steps = 0;
    while !p.is_process_finished() {
        p.step_worker(false);
        steps += 1;
        assert!(steps <= 200, "the run should end after the stream does");
    }

    // inspect the sink before the worker is joined away
    match &p.worker.as_ref().expect("worker present").run {
        WorkerRun::Done(done) => {
            let writer = done.video_writer.as_ref().expect("persisting run has a sink");
            assert_eq!(writer.frames.len(), 100);
            // 640x480 rescaled by one half is 320x240; the quarter turn
            // swaps it to 240x320, the size every persisted frame has
            for (i, frame) in writer.frames.iter().enumerate() {
                assert_eq!(frame.size, FrameDimensions { width: 240, height: 320 });
                assert_eq!(frame.source_index, Some(i as u64 + 1));
            }
            assert!(!writer.opened, "the sink is flushed and closed on exit");
            assert_eq!(writer.path, String::from("out.mp4"));
            assert_eq!(writer.fps, 30);
        }
        WorkerRun::Running(_) => panic!("worker reported finished"),
    }

    // the last emitted progress and the one recomputed at join agree here
    assert_eq!(p.get_progression(), Some(ProgressValue { counter: 100, total: 100 }));
    let final_progress = p.handle_thread_join().expect("clean run");
    assert_eq!(final_progress, ProgressValue { counter: 100, total: 100 });
    // the source came back, repositioned at the start
    assert_eq!(p.my_video.as_ref().expect("source returned").position, 0);
    assert!(!p.has_launched_process());
}

#[test]
fn abort_after_ten_iterations_stops_within_one_more() {
    let mut p = VideoProcessor::default();
    assert!(p.try_grab_video(Some(test_source(100)), String::from("clip.mp4")));
    assert!(p.dispatch_video_process(persisting_options(None, None)));

    for _ in 0..10 {
        p.step_worker(false);
    }
    assert_eq!(worker_counter(&p), 10);
    assert!(p.try_abort());
    p.step_worker(false); // the loop observes the abort here
    assert!(p.is_process_finished());

    match &p.worker.as_ref().expect("worker present").run {
        WorkerRun::Done(done) => {
            let writer = done.video_writer.as_ref().expect("persisting run has a sink");
            assert_eq!(writer.frames.len(), 10);
        }
        WorkerRun::Running(_) => panic!("worker reported finished"),
    }

    let final_progress = p.handle_thread_join().expect("aborted run still returns the source");
    assert_eq!(final_progress, ProgressValue { counter: 10, total: 100 });
}

#[test]
fn live_rescale_updates_change_later_frames_only() {
    let mut p = VideoProcessor::default();
    assert!(p.try_grab_video(Some(test_source(20)), String::from("clip.mp4")));
    assert!(p.dispatch_video_process(persisting_options(None, None)));

    for _ in 0..5 {
        p.step_worker(false);
    }
    // a burst of slider positions: only the last one takes effect
    p.set_rescale(500);
    p.set_rescale(800);
    p.set_rescale(250);
    for _ in 0..5 {
        p.step_worker(false);
    }
    while !p.is_process_finished() {
        p.step_worker(false);
    }
    match &p.worker.as_ref().expect("worker present").run {
        WorkerRun::Done(done) => {
            let writer = done.video_writer.as_ref().expect("sink");
            assert_eq!(writer.frames.len(), 20);
            assert_eq!(writer.frames[4].size, FrameDimensions { width: 640, height: 480 });
            assert_eq!(writer.frames[5].size, FrameDimensions { width: 160, height: 120 });
            assert_eq!(writer.frames[19].size, FrameDimensions { width: 160, height: 120 });
        }
        WorkerRun::Running(_) => panic!("worker reported finished"),
    }
    p.handle_thread_join().expect("clean run");
}

#[test]
fn decode_failure_is_reported_at_join_and_loses_the_source() {
    let mut source = test_source(100);
    source.fail_read_at = Some(5);
    let mut p = VideoProcessor::default();
    assert!(p.try_grab_video(Some(source), String::from("clip.mp4")));
    assert!(p.dispatch_video_process(persisting_options(None, None)));
    while !p.is_process_finished() {
        p.step_worker(false);
    }
    // even a failing exit flushes and releases the sink and the surface
    match &p.worker.as_ref().expect("worker present").run {
        WorkerRun::Done(done) => {
            let writer = done.video_writer.as_ref().expect("sink");
            assert!(!writer.opened);
            assert_eq!(writer.frames.len(), 5);
            assert!(!done.window.open);
        }
        WorkerRun::Running(_) => panic!("worker reported finished"),
    }
    assert_eq!(p.handle_thread_join(), Err(VideoError::DecodeFailure));
    assert!(p.my_video.is_none());
    assert!(!p.has_launched_process());
}

#[test]
fn encode_failure_is_reported_at_join() {
    let mut p = VideoProcessor::default();
    assert!(p.try_grab_video(Some(test_source(100)), String::from("clip.mp4")));
    assert!(p.dispatch_video_process(persisting_options(None, None)));
    // break the sink under the worker after three accepted frames
    match &mut p.worker.as_mut().expect("worker present").run {
        WorkerRun::Running(rw) => {
            rw.video_writer.as_mut().expect("sink").fail_write_at = Some(3);
        }
        WorkerRun::Done(_) => panic!("worker just dispatched"),
    }
    while !p.is_process_finished() {
        p.step_worker(false);
    }
    match &p.worker.as_ref().expect("worker present").run {
        WorkerRun::Done(done) => {
            let writer = done.video_writer.as_ref().expect("sink");
            assert!(!writer.opened, "the sink is released on an encode failure too");
            assert_eq!(writer.frames.len(), 3);
        }
        WorkerRun::Running(_) => panic!("worker reported finished"),
    }
    assert_eq!(p.handle_thread_join(), Err(VideoError::EncodeFailure));
    assert!(p.my_video.is_none());
}

#[test]
fn key_press_ends_the_run_with_one_extra_frame_read() {
    let mut p = VideoProcessor::default();
    assert!(p.try_grab_video(Some(test_source(100)), String::from("clip.mp4")));
    assert!(p.dispatch_video_process(persisting_options(None, None)));
    for _ in 0..4 {
        p.step_worker(false);
    }
    // the last report the worker made counts 4 processed frames
    assert_eq!(p.get_progression(), Some(ProgressValue { counter: 4, total: 100 }));
    p.step_worker(true); // a key arrives after the fifth frame was decoded
    assert!(p.is_process_finished());
    // nothing was emitted for the interrupted iteration
    assert_eq!(p.get_progression(), None);
    // join recomputes from the source's own position: the decoded-but-
    // unprocessed frame makes the two accounts differ by one
    let final_progress = p.handle_thread_join().expect("key ends the run cleanly");
    assert_eq!(final_progress, ProgressValue { counter: 5, total: 100 });
}

#[test]
fn closing_the_surface_ends_the_run() {
    let mut p = VideoProcessor::default();
    assert!(p.try_grab_video(Some(test_source(100)), String::from("clip.mp4")));
    assert!(p.dispatch_video_process(persisting_options(None, None)));
    for _ in 0..2 {
        p.step_worker(false);
    }
    match &mut p.worker.as_mut().expect("worker present").run {
        WorkerRun::Running(rw) => rw.window.close(),
        WorkerRun::Done(_) => panic!("worker still running"),
    }
    p.step_worker(false);
    assert!(p.is_process_finished());
    let final_progress = p.handle_thread_join().expect("closed surface is a clean end");
    assert_eq!(final_progress, ProgressValue { counter: 2, total: 100 });
}

#[test]
fn playing_applies_every_pending_update_in_one_iteration() {
    let mut p = VideoProcessor::default();
    assert!(p.try_grab_video(Some(test_source(20)), String::from("clip.mp4")));
    assert!(p.dispatch_video_process(persisting_options(None, None)));
    for _ in 0..3 {
        p.step_worker(false);
    }
    // three different aspects pending at once: the next playing iteration
    // applies them all, none is deferred behind another
    p.set_flip(Some(RotateFlags::Rotate90Clockwise));
    p.set_gui_scale(500);
    p.set_rescale(500);
    p.step_worker(false);
    match &p.worker.as_ref().expect("worker present").run {
        WorkerRun::Running(rw) => {
            let writer = rw.video_writer.as_ref().expect("sink");
            // 640x480 halved is 320x240, swapped by the quarter turn
            assert_eq!(
                writer.frames.last().expect("frame written").size,
                FrameDimensions { width: 240, height: 320 }
            );
            // the surface was resized to the gui-scaled preview at once
            assert_eq!(
                rw.window.size,
                Some(FrameDimensions { width: 120, height: 160 })
            );
        }
        WorkerRun::Done(_) => panic!("run still has frames left"),
    }
    p.clean_up().expect("teardown");
}

#[test]
fn empty_path_text_means_the_default_device() {
    assert_eq!(
        SourceLocator::from_path_text(String::new()),
        SourceLocator::DefaultDevice
    );
    assert_eq!(
        SourceLocator::from_path_text(String::from("clip.mp4")),
        SourceLocator::NamedSource(String::from("clip.mp4"))
    );
}

#[test]
fn aborting_without_a_worker_reports_failure() {
    let mut p = VideoProcessor::default();
    assert!(!p.try_abort());
}

#[test]
fn aborting_a_finished_worker_reports_failure() {
    let mut p = VideoProcessor::default();
    assert!(p.try_grab_video(Some(test_source(1)), String::from("clip.mp4")));
    assert!(p.dispatch_video_process(persisting_options(None, None)));
    while !p.is_process_finished() {
        p.step_worker(false);
    }
    // the worker-side endpoints are gone: the send is a no-op, not a panic
    assert!(!p.try_abort());
    p.handle_thread_join().expect("clean run");
}

#[test]
fn mode_requests_are_ignored_on_the_wrong_edge() {
    let mut p = VideoProcessor::default();
    // without a worker nothing changes
    p.pause_video();
    assert_eq!(p.video_mode, None);
    assert!(p.try_grab_video(Some(test_source(10)), String::from("clip.mp4")));
    assert!(p.dispatch_video_process(persisting_options(None, None)));
    assert_eq!(p.video_mode, Some(VideoModes::Play));
    // resuming a playing run is a no-op
    p.resume_video();
    assert_eq!(p.video_mode, Some(VideoModes::Play));
    p.pause_video();
    assert_eq!(p.video_mode, Some(VideoModes::Pause));
    // pausing twice is a no-op on the second request
    p.pause_video();
    assert_eq!(p.video_mode, Some(VideoModes::Pause));
    p.clean_up().expect("teardown");
}

#[test]
fn unload_releases_the_source_and_clears_the_metadata() {
    let mut p = VideoProcessor::default();
    assert!(p.try_grab_video(Some(test_source(10)), String::from("clip.mp4")));
    assert!(p.video_info.is_some());
    assert_eq!(p.unload_video(), Ok(true));
    assert!(p.my_video.is_none());
    assert!(p.video_info.is_none());
    assert_eq!(p.unload_video(), Ok(false));
}

#[test]
fn grab_with_no_source_records_the_failure() {
    let mut p = VideoProcessor::default();
    assert!(!p.try_grab_video(None, String::from("missing.mp4")));
    assert!(!p.has_video());
    assert_eq!(p.file_name, String::from("missing.mp4"));
}

#[test]
fn dispatch_without_a_source_is_rejected() {
    let mut p = VideoProcessor::default();
    assert!(!p.dispatch_video_process(persisting_options(None, None)));
    assert!(!p.has_launched_process());
}

#[test]
fn join_without_a_worker_reports_reset_progress() {
    let mut p = VideoProcessor::default();
    assert_eq!(
        p.handle_thread_join().expect("nothing to join"),
        ProgressValue { counter: 0, total: 0 }
    );
}

#[test]
fn preview_only_run_writes_nothing() {
    let mut p = VideoProcessor::default();
    assert!(p.try_grab_video(Some(test_source(5)), String::from("clip.mp4")));
    let options = ProcessOptions {
        should_process: false,
        ..persisting_options(None, None)
    };
    assert!(p.dispatch_video_process(options));
    while !p.is_process_finished() {
        p.step_worker(false);
    }
    match &p.worker.as_ref().expect("worker present").run {
        WorkerRun::Done(done) => assert!(done.video_writer.is_none()),
        WorkerRun::Running(_) => panic!("worker reported finished"),
    }
    p.handle_thread_join().expect("clean run");
}

#[test]
fn progress_reports_coalesce_to_the_latest() {
    let mut p = VideoProcessor::default();
    assert!(p.try_grab_video(Some(test_source(50)), String::from("clip.mp4")));
    assert!(p.dispatch_video_process(persisting_options(None, None)));
    for _ in 0..7 {
        p.step_worker(false);
    }
    // seven reports were buffered; one poll sees only the newest
    assert_eq!(p.get_progression(), Some(ProgressValue { counter: 7, total: 50 }));
    assert_eq!(p.get_progression(), None);
    p.clean_up().expect("teardown");
}
