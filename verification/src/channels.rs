//! Control channel protocol: six single-producer/single-consumer asynchronous
//! message paths between the controller and the worker. One progress path
//! runs outward (worker to controller); five control paths run inward
//! (abort, mode change, rotation, rescale and gui scale).
//!
//! Every control-value consumer is coalescing: a poll drains the buffered
//! messages and keeps only the most recently enqueued one, so a burst of
//! slider updates collapses to the latest value. The abort path is consumed
//! one message at a time instead, mirroring a single non-blocking receive.
use vstd::prelude::*;

verus! {

use crate::geometry::MAX_SCALE_MILLI;
use crate::geometry::RotateFlags;
use crate::media::ProgressValue;

/// Whether the stream is being played or is paused; the payload of the mode
/// change channel.
#[derive(Clone, Copy, Debug, PartialEq, Eq, Structural)]
pub enum VideoModes {
    Play,
    Pause,
}

/// One unidirectional asynchronous message path. Messages accumulate in
/// order until the consumer polls.
#[derive(Debug)]
pub struct MessageQueue<T> {
    pub buffered: Vec<T>,
}

impl<T: Copy> MessageQueue<T> {
    pub fn new() -> (r: Self)
        ensures
            r.buffered@ == Seq::<T>::empty(),
    {
        MessageQueue { buffered: Vec::new() }
    }

    /// Fire-and-forget send: the value is appended behind the buffered ones.
    pub fn send(&mut self, value: T)
        ensures
            final(self).buffered@ == old(self).buffered@.push(value),
    {
        self.buffered.push(value);
    }

    /// Coalescing poll: drains the queue and returns only the most recently
    /// enqueued value, or nothing when the queue was empty.
    pub fn take_latest(&mut self) -> (r: Option<T>)
        ensures
            final(self).buffered@ == Seq::<T>::empty(),
            r == (if old(self).buffered@.len() == 0 {
                Option::<T>::None
            } else {
                Option::Some(old(self).buffered@.last())
            }),
    {
        if self.buffered.len() == 0 {
            Option::None
        } else {
            let last = self.buffered[self.buffered.len() - 1];
            self.buffered.clear();
            Option::Some(last)
        }
    }

    /// Non-blocking single receive: takes the oldest buffered value, leaving
    /// the rest in order.
    pub fn take_one(&mut self) -> (r: Option<T>)
        ensures
            r == (if old(self).buffered@.len() == 0 {
                Option::<T>::None
            } else {
                Option::Some(old(self).buffered@.first())
            }),
            final(self).buffered@ == (if old(self).buffered@.len() == 0 {
                old(self).buffered@
            } else {
                old(self).buffered@.drop_first()
            }),
    {
        if self.buffered.len() == 0 {
            Option::None
        } else {
            let first = self.buffered.remove(0);
            Option::Some(first)
        }
    }
}

/// After any burst of sends, a coalescing poll observes exactly the last
/// value sent and never an earlier one: sending is appending, and
/// `take_latest` returns the final element of the buffer.
pub proof fn lemma_latest_value_wins<T>(buffered: Seq<T>, sent: Seq<T>)
    requires
        sent.len() > 0,
    ensures
        (buffered + sent).len() > 0,
        (buffered + sent).last() == sent.last(),
{
}

/// The most recently enqueued value of a buffer, or nothing when it is
/// empty: what a coalescing poll observes.
pub open spec fn latest_of<T>(s: Seq<T>) -> Option<T> {
    if s.len() == 0 {
        Option::None
    } else {
        Option::Some(s.last())
    }
}

/// The two thread-side halves of the six channel paths, held together as one
/// value: the controller-side senders and poller, and the worker-side
/// pollers and sender, address the same underlying queues. `worker_listening`
/// records whether the worker-side endpoints still exist; once the worker
/// has terminated, control sends become no-ops, exactly as a send to a
/// disconnected peer is swallowed.
#[derive(Debug)]
pub struct AsyncChannels {
    pub progression: MessageQueue<ProgressValue>,
    pub abort: MessageQueue<bool>,
    pub video_mode: MessageQueue<VideoModes>,
    pub flip: MessageQueue<Option<RotateFlags>>,
    pub rescale: MessageQueue<u32>,
    pub gui_size: MessageQueue<u32>,
    pub worker_listening: bool,
}

impl AsyncChannels {
    /// Every buffered scale value is within the accepted range. The
    /// controller only sends validated scales, so this holds throughout a
    /// run; the worker relies on it when it applies an update.
    pub open spec fn scales_in_range(self) -> bool {
        &&& forall|i: int| 0 <= i < self.rescale.buffered@.len()
                ==> 1 <= #[trigger] self.rescale.buffered@[i] <= MAX_SCALE_MILLI
        &&& forall|i: int| 0 <= i < self.gui_size.buffered@.len()
                ==> 1 <= #[trigger] self.gui_size.buffered@[i] <= MAX_SCALE_MILLI
    }

    pub open spec fn all_empty(self) -> bool {
        &&& self.progression.buffered@.len() == 0
        &&& self.abort.buffered@.len() == 0
        &&& self.video_mode.buffered@.len() == 0
        &&& self.flip.buffered@.len() == 0
        &&& self.rescale.buffered@.len() == 0
        &&& self.gui_size.buffered@.len() == 0
    }

    pub fn new() -> (r: Self)
        ensures
            r.all_empty(),
            r.worker_listening,
    {
        AsyncChannels {
            progression: MessageQueue::new(),
            abort: MessageQueue::new(),
            video_mode: MessageQueue::new(),
            flip: MessageQueue::new(),
            rescale: MessageQueue::new(),
            gui_size: MessageQueue::new(),
            worker_listening: true,
        }
    }

    /// Controller side: asks the worker to stop. Reports whether the message
    /// could be delivered; a failed send only means the worker already exited.
    pub fn send_abort_signal(&mut self) -> (r: bool)
        ensures
            r == old(self).worker_listening,
            old(self).worker_listening ==> final(self).abort.buffered@
                == old(self).abort.buffered@.push(true),
            old(self).worker_listening ==> unchanged_but_abort(*old(self), *final(self)),
            !old(self).worker_listening ==> *final(self) == *old(self),
    {
        if self.worker_listening {
            self.abort.send(true);
            true
        } else {
            false
        }
    }

    /// Controller side: sends a play/pause mode change.
    pub fn send_new_video_mode(&mut self, video_mode: VideoModes) -> (r: bool)
        ensures
            r == old(self).worker_listening,
            old(self).worker_listening ==> final(self).video_mode.buffered@
                == old(self).video_mode.buffered@.push(video_mode),
            old(self).worker_listening ==> unchanged_but_video_mode(*old(self), *final(self)),
            !old(self).worker_listening ==> *final(self) == *old(self),
    {
        if self.worker_listening {
            self.video_mode.send(video_mode);
            true
        } else {
            false
        }
    }

    /// Controller side: sends a new preview window scale in thousandths.
    pub fn send_new_gui_size(&mut self, new_gui_size: u32) -> (r: bool)
        ensures
            r == old(self).worker_listening,
            old(self).worker_listening ==> final(self).gui_size.buffered@
                == old(self).gui_size.buffered@.push(new_gui_size),
            old(self).worker_listening ==> unchanged_but_gui_size(*old(self), *final(self)),
            !old(self).worker_listening ==> *final(self) == *old(self),
    {
        if self.worker_listening {
            self.gui_size.send(new_gui_size);
            true
        } else {
            false
        }
    }

    /// Controller side: sends a new rescale factor in thousandths.
    pub fn send_new_rescale(&mut self, new_rescale: u32) -> (r: bool)
        ensures
            r == old(self).worker_listening,
            old(self).worker_listening ==> final(self).rescale.buffered@
                == old(self).rescale.buffered@.push(new_rescale),
            old(self).worker_listening ==> unchanged_but_rescale(*old(self), *final(self)),
            !old(self).worker_listening ==> *final(self) == *old(self),
    {
        if self.worker_listening {
            self.rescale.send(new_rescale);
            true
        } else {
            false
        }
    }

    /// Controller side: sends a new rotation choice.
    pub fn send_new_flip(&mut self, new_flip: Option<RotateFlags>) -> (r: bool)
        ensures
            r == old(self).worker_listening,
            old(self).worker_listening ==> final(self).flip.buffered@
                == old(self).flip.buffered@.push(new_flip),
            old(self).worker_listening ==> unchanged_but_flip(*old(self), *final(self)),
            !old(self).worker_listening ==> *final(self) == *old(self),
    {
        if self.worker_listening {
            self.flip.send(new_flip);
            true
        } else {
            false
        }
    }

    /// Controller side: coalescing poll of the progress path.
    pub fn get_last_progression(&mut self) -> (r: Option<ProgressValue>)
        ensures
            r == (if old(self).progression.buffered@.len() == 0 {
                Option::<ProgressValue>::None
            } else {
                Option::Some(old(self).progression.buffered@.last())
            }),
            final(self).progression.buffered@ == Seq::<ProgressValue>::empty(),
            unchanged_but_progression(*old(self), *final(self)),
    {
        self.progression.take_latest()
    }

    /// Worker side: coalescing poll of the mode change path.
    pub fn get_updated_video_mode(&mut self) -> (r: Option<VideoModes>)
        ensures
            r == (if old(self).video_mode.buffered@.len() == 0 {
                Option::<VideoModes>::None
            } else {
                Option::Some(old(self).video_mode.buffered@.last())
            }),
            final(self).video_mode.buffered@ == Seq::<VideoModes>::empty(),
            unchanged_but_video_mode(*old(self), *final(self)),
    {
        self.video_mode.take_latest()
    }

    /// Worker side: coalescing poll of the gui scale path.
    pub fn get_last_size_update(&mut self) -> (r: Option<u32>)
        ensures
            r == (if old(self).gui_size.buffered@.len() == 0 {
                Option::<u32>::None
            } else {
                Option::Some(old(self).gui_size.buffered@.last())
            }),
            final(self).gui_size.buffered@ == Seq::<u32>::empty(),
            unchanged_but_gui_size(*old(self), *final(self)),
    {
        self.gui_size.take_latest()
    }

    /// Worker side: coalescing poll of the rescale path.
    pub fn get_rescale_update(&mut self) -> (r: Option<u32>)
        ensures
            r == (if old(self).rescale.buffered@.len() == 0 {
                Option::<u32>::None
            } else {
                Option::Some(old(self).rescale.buffered@.last())
            }),
            final(self).rescale.buffered@ == Seq::<u32>::empty(),
            unchanged_but_rescale(*old(self), *final(self)),
    {
        self.rescale.take_latest()
    }

    /// Worker side: coalescing poll of the rotation path.
    pub fn get_updated_flip(&mut self) -> (r: Option<Option<RotateFlags>>)
        ensures
            r == (if old(self).flip.buffered@.len() == 0 {
                Option::<Option<RotateFlags>>::None
            } else {
                Option::Some(old(self).flip.buffered@.last())
            }),
            final(self).flip.buffered@ == Seq::<Option<RotateFlags>>::empty(),
            unchanged_but_flip(*old(self), *final(self)),
    {
        self.flip.take_latest()
    }

    /// Worker side: publishes the current progress; sent every iteration,
    /// whether or not it changed.
    pub fn send_progression(&mut self, progression: ProgressValue)
        ensures
            final(self).progression.buffered@ == old(self).progression.buffered@.push(progression),
            unchanged_but_progression(*old(self), *final(self)),
    {
        self.progression.send(progression);
    }

    /// Worker side: the worker keeps running while no abort message has
    /// arrived. An empty channel reads as "not aborted"; one buffered abort
    /// message is consumed per check.
    pub fn is_not_aborted(&mut self) -> (r: bool)
        ensures
            r == (old(self).abort.buffered@.len() == 0),
            final(self).abort.buffered@ == (if old(self).abort.buffered@.len() == 0 {
                old(self).abort.buffered@
            } else {
                old(self).abort.buffered@.drop_first()
            }),
            unchanged_but_abort(*old(self), *final(self)),
    {
        self.abort.take_one().is_none()
    }
}

/// The channel halves agree on everything except the progress queue.
pub open spec fn unchanged_but_progression(a: AsyncChannels, b: AsyncChannels) -> bool {
    &&& b.abort == a.abort
    &&& b.video_mode == a.video_mode
    &&& b.flip == a.flip
    &&& b.rescale == a.rescale
    &&& b.gui_size == a.gui_size
    &&& b.worker_listening == a.worker_listening
}

/// The channel halves agree on everything except the abort queue.
pub open spec fn unchanged_but_abort(a: AsyncChannels, b: AsyncChannels) -> bool {
    &&& b.progression == a.progression
    &&& b.video_mode == a.video_mode
    &&& b.flip == a.flip
    &&& b.rescale == a.rescale
    &&& b.gui_size == a.gui_size
    &&& b.worker_listening == a.worker_listening
}

/// The channel halves agree on everything except the mode change queue.
pub open spec fn unchanged_but_video_mode(a: AsyncChannels, b: AsyncChannels) -> bool {
    &&& b.progression == a.progression
    &&& b.abort == a.abort
    &&& b.flip == a.flip
    &&& b.rescale == a.rescale
    &&& b.gui_size == a.gui_size
    &&& b.worker_listening == a.worker_listening
}

/// The channel halves agree on everything except the rotation queue.
pub open spec fn unchanged_but_flip(a: AsyncChannels, b: AsyncChannels) -> bool {
    &&& b.progression == a.progression
    &&& b.abort == a.abort
    &&& b.video_mode == a.video_mode
    &&& b.rescale == a.rescale
    &&& b.gui_size == a.gui_size
    &&& b.worker_listening == a.worker_listening
}

/// The channel halves agree on everything except the rescale queue.
pub open spec fn unchanged_but_rescale(a: AsyncChannels, b: AsyncChannels) -> bool {
    &&& b.progression == a.progression
    &&& b.abort == a.abort
    &&& b.video_mode == a.video_mode
    &&& b.flip == a.flip
    &&& b.gui_size == a.gui_size
    &&& b.worker_listening == a.worker_listening
}

/// The channel halves agree on everything except the gui scale queue.
pub open spec fn unchanged_but_gui_size(a: AsyncChannels, b: AsyncChannels) -> bool {
    &&& b.progression == a.progression
    &&& b.abort == a.abort
    &&& b.video_mode == a.video_mode
    &&& b.flip == a.flip
    &&& b.rescale == a.rescale
    &&& b.worker_listening == a.worker_listening
}

} // verus!
