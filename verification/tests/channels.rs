use video_processor::channels::AsyncChannels;
use video_processor::channels::MessageQueue;
use video_processor::channels::VideoModes;
use video_processor::media::ProgressValue;

#[test]
fn coalescing_poll_keeps_only_the_latest_rescale() {
    let mut channels = AsyncChannels::new();
    channels.send_new_rescale(500);
    channels.send_new_rescale(800);
    channels.send_new_rescale(1200);
    assert_eq!(channels.get_rescale_update(), Some(1200));
    // everything in between was discarded with the same poll
    assert_eq!(channels.get_rescale_update(), None);
}

#[test]
fn coalescing_poll_on_empty_queue_sees_nothing() {
    let mut queue: MessageQueue<u32> = MessageQueue::new();
    assert_eq!(queue.take_latest(), None);
    queue.send(7);
    assert_eq!(queue.take_latest(), Some(7));
    assert_eq!(queue.take_latest(), None);
}

#[test]
fn mode_changes_coalesce_too() {
    let mut channels = AsyncChannels::new();
    channels.send_new_video_mode(VideoModes::Pause);
    channels.send_new_video_mode(VideoModes::Play);
    assert_eq!(channels.get_updated_video_mode(), Some(VideoModes::Play));
    assert_eq!(channels.get_updated_video_mode(), None);
}

#[test]
fn abort_checks_consume_one_message_each() {
    let mut channels = AsyncChannels::new();
    // an empty channel reads as "not aborted"
    assert!(channels.is_not_aborted());
    channels.send_abort_signal();
    assert!(!channels.is_not_aborted());
    // the message was consumed by the check
    assert!(channels.is_not_aborted());
}

#[test]
fn progress_reader_sees_the_latest_report() {
    let mut channels = AsyncChannels::new();
    channels.send_progression(ProgressValue { counter: 1, total: 10 });
    channels.send_progression(ProgressValue { counter: 2, total: 10 });
    assert_eq!(
        channels.get_last_progression(),
        Some(ProgressValue { counter: 2, total: 10 })
    );
    assert_eq!(channels.get_last_progression(), None);
}

#[test]
fn sends_after_the_worker_left_are_no_ops() {
    let mut channels = AsyncChannels::new();
    channels.worker_listening = false;
    assert!(!channels.send_abort_signal());
    assert!(!channels.send_new_rescale(500));
    assert!(!channels.send_new_gui_size(500));
    assert!(!channels.send_new_video_mode(VideoModes::Pause));
    assert!(!channels.send_new_flip(None));
    assert_eq!(channels.get_rescale_update(), None);
}
